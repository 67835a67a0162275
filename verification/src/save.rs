use vstd::prelude::*;

use crate::clock::{clock_error_prefix, current_unix_seconds};
use crate::config::{build_config, describes, ConfigFile};
use crate::filename::{config_file_name, spec_config_file_name};
use crate::text::{seq_starts_with, spec_trim, string_of, trim};
use crate::ui::UiState;

verus! {

/// What saving the panel writes: the configuration and the name of the file
/// (in the configuration directory) that receives it.
pub struct SavePlan {
    pub config: ConfigFile,
    pub file_name: String,
    pub timestamp: u64,
}

/// The message when the title is blank.
pub open spec fn title_required_message() -> Seq<char> {
    "Title is required."@
}

/// `plan` saves panel `ui` under the (already trimmed) `title` with `notes`
/// at `timestamp`.
pub open spec fn plans_save(plan: SavePlan, ui: UiState, title: Seq<char>, notes: Seq<char>, timestamp: u64) -> bool {
    &&& plan.timestamp == timestamp
    &&& describes(plan.config, title, notes, ui, timestamp as nat)
    &&& plan.file_name@ == spec_config_file_name(title, timestamp as nat)
}

/// The configuration and file name for saving `ui` under `title` at
/// `timestamp`.
pub fn describe_save(ui: &UiState, title: &str, notes: &str, timestamp: u64) -> (r: SavePlan)
    ensures
        plans_save(r, *ui, title@, notes@, timestamp),
{
    SavePlan {
        config: build_config(title, notes, ui, timestamp),
        file_name: config_file_name(title, timestamp),
        timestamp,
    }
}

/// Plans saving `ui` at `timestamp`: refused when the title is blank after
/// trimming white space, otherwise the trimmed title names the file.
pub fn plan_save_at(ui: &UiState, title: &str, notes: &str, timestamp: u64) -> (r: Result<
    SavePlan,
    String,
>)
    ensures
        match r {
            Ok(plan) => spec_trim(title@).len() > 0 && plans_save(
                plan,
                *ui,
                spec_trim(title@),
                notes@,
                timestamp,
            ),
            Err(msg) => spec_trim(title@).len() == 0 && msg@ == title_required_message(),
        },
{
    let trimmed = trim(title);
    if trimmed.unicode_len() == 0 {
        return Err(string_of("Title is required."));
    }
    Ok(describe_save(ui, trimmed.as_str(), notes, timestamp))
}

/// Plans saving `ui` now, by the system clock: refused when the title is
/// blank after trimming, or with a clock error when the clock cannot be read.
pub fn plan_save(ui: &UiState, title: &str, notes: &str) -> (r: Result<SavePlan, String>)
    ensures
        spec_trim(title@).len() == 0 ==> (r matches Err(msg) && msg@ == title_required_message()),
        spec_trim(title@).len() > 0 ==> match r {
            Ok(plan) => plans_save(plan, *ui, spec_trim(title@), notes@, plan.timestamp),
            Err(msg) => seq_starts_with(msg@, clock_error_prefix()),
        },
{
    let trimmed = trim(title);
    if trimmed.unicode_len() == 0 {
        return Err(string_of("Title is required."));
    }
    let timestamp = match current_unix_seconds() {
        Ok(t) => t,
        Err(e) => {
            return Err(e);
        },
    };
    Ok(describe_save(ui, trimmed.as_str(), notes, timestamp))
}

} // verus!
