//! The options a run takes from the command line.
use vstd::prelude::*;

verus! {

/// Command-line options. Each of `shell`, `only` and `disable`, when
/// present, replaces the configuration's option of the same name.
pub struct Flags {
    /// Allows the run to act: empty directories and run commands.
    pub clear: bool,
    /// Reports what would be done instead of doing it.
    pub dry_run: bool,
    pub shell: Option<String>,
    pub only: Option<Vec<String>>,
    pub disable: Option<Vec<String>>,
    pub verbose: bool,
}

} // verus!
