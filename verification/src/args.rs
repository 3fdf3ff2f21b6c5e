//! The command line's resolved settings, as plain values.
use vstd::prelude::*;

verus! {

/// What the command line supplies: the configuration file's path, display
/// and debug switches, whether to prompt before the first instruction, and
/// extra breakpoints to merge with the configured ones.
pub struct Args {
    pub config_path: String,
    pub no_display: bool,
    pub debug: bool,
    pub first_prompt: bool,
    pub breakpoints: Vec<u16>,
}

} // verus!
