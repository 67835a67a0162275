use vstd::prelude::*;

use crate::text::str_eq;

verus! {

/// Where the agents start when the simulation is (re)initialised.
#[derive(Clone, Copy, Debug, PartialEq, Eq, Structural)]
pub enum SpawnMode {
    CentreCircle,
    RandomFill,
    InwardCircle,
}

/// The name under which a spawn mode is written in configuration files.
pub open spec fn spawn_mode_name(mode: SpawnMode) -> Seq<char> {
    match mode {
        SpawnMode::CentreCircle => "centre_circle"@,
        SpawnMode::RandomFill => "random_fill"@,
        SpawnMode::InwardCircle => "inward_circle"@,
    }
}

/// The spawn mode whose configuration name is `s`, if there is one.
pub open spec fn spawn_mode_named(s: Seq<char>) -> Option<SpawnMode> {
    if s == "centre_circle"@ {
        Some(SpawnMode::CentreCircle)
    } else if s == "random_fill"@ {
        Some(SpawnMode::RandomFill)
    } else if s == "inward_circle"@ {
        Some(SpawnMode::InwardCircle)
    } else {
        None
    }
}

/// The message of the error for an unknown spawn mode name.
pub open spec fn unknown_spawn_mode_message(s: Seq<char>) -> Seq<char> {
    "Unknown spawn mode: '"@ + s + "'"@
}

/// The configuration-file name of a spawn mode.
pub fn spawn_mode_to_string(mode: SpawnMode) -> (r: &'static str)
    ensures
        r@ == spawn_mode_name(mode),
{
    match mode {
        SpawnMode::CentreCircle => "centre_circle",
        SpawnMode::RandomFill => "random_fill",
        SpawnMode::InwardCircle => "inward_circle",
    }
}

/// Reads a spawn mode from its configuration-file name.
pub fn string_to_spawn_mode(s: &str) -> (r: Result<SpawnMode, String>)
    ensures
        match r {
            Ok(mode) => spawn_mode_named(s@) == Some(mode),
            Err(msg) => spawn_mode_named(s@) is None && msg@ == unknown_spawn_mode_message(s@),
        },
{
    if str_eq(s, "centre_circle") {
        Ok(SpawnMode::CentreCircle)
    } else if str_eq(s, "random_fill") {
        Ok(SpawnMode::RandomFill)
    } else if str_eq(s, "inward_circle") {
        Ok(SpawnMode::InwardCircle)
    } else {
        let mut msg = String::from_str("Unknown spawn mode: '");
        msg.append(s);
        msg.append("'");
        Err(msg)
    }
}

/// Every spawn mode is read back from the name it is written under, and a
/// name that is read as a spawn mode is exactly that mode's name.
pub proof fn lemma_spawn_mode_name_round_trip(mode: SpawnMode, s: Seq<char>)
    ensures
        spawn_mode_named(spawn_mode_name(mode)) == Some(mode),
        spawn_mode_named(s) == Some(mode) ==> s == spawn_mode_name(mode),
{
    reveal_strlit("centre_circle");
    reveal_strlit("random_fill");
    reveal_strlit("inward_circle");
    assert("centre_circle"@[0] != "random_fill"@[0]);
    assert("centre_circle"@[0] != "inward_circle"@[0]);
    assert("random_fill"@[0] != "inward_circle"@[0]);
}

} // verus!
