//! Verified core of the slime-mould simulation: the integer mixing hash that
//! seeds agents and food clumps, spawn modes, configuration files and the
//! decisions of the control panel and of the GPU step schedule.

pub mod hash;
pub mod text;
pub mod spawn;
pub mod filename;
pub mod ui;
pub mod config;
pub mod listing;
pub mod clock;
pub mod save;
pub mod schedule;
pub mod seeds;
