//! Choice of the configuration file location.
//!
//! The caller supplies what only the surroundings know — the command-line
//! override, the candidate path inside the user's home directory, and
//! whether each candidate file exists — and the choice itself is made
//! here: an explicit override wins, else the home candidate when it
//! exists, else the system-wide file when it exists, else an error.

use vstd::prelude::*;
use vstd::string::StringExecFns;

verus! {

/// The system-wide configuration file, tried after the user's own.
pub open spec fn spec_etc_config_path() -> Seq<char> {
    "/etc/gesticle/config.toml"@
}

/// Picks the configuration file to read. `home_candidate` is the
/// configuration path inside the user's home directory, when a home
/// directory is known at all; the two flags say whether the home
/// candidate and the system-wide file exist.
pub fn config_file_path(
    config_path_override: Option<&str>,
    home_candidate: Option<&str>,
    home_exists: bool,
    etc_exists: bool,
) -> (r: Result<String, &'static str>)
    ensures
        match config_path_override {
            Some(o) => r matches Ok(p) && p@ == o@,
            None => {
                if home_candidate is Some && home_exists {
                    r matches Ok(p) && p@ == home_candidate.unwrap()@
                } else if etc_exists {
                    r matches Ok(p) && p@ == spec_etc_config_path()
                } else {
                    r is Err
                }
            },
        },
{
    match config_path_override {
        Some(o) => Ok(o.to_owned()),
        None => {
            match home_candidate {
                Some(h) if home_exists => Ok(h.to_owned()),
                _ => {
                    if etc_exists {
                        Ok(String::from_str("/etc/gesticle/config.toml"))
                    } else {
                        Err("nothing in ~/.gesticle/config.toml or /etc/gesticle/config.toml")
                    }
                },
            }
        },
    }
}

} // verus!
