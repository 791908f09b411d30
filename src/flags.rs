//! Options shared by every subcommand.
use vstd::prelude::*;

verus! {

/// Options that every subcommand takes.
pub struct Flags {
    pub verbose: bool,
}

} // verus!
