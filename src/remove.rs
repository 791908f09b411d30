//! Emptying a directory: how each entry is removed, and what the attempts
//! add up to.
use vstd::prelude::*;
use crate::outcome::Outcome;

verus! {

/// What is known of a directory entry before it is removed.
#[derive(Clone, Copy, Debug, PartialEq, Eq, Structural)]
pub enum EntryKind {
    /// A directory: removed with its whole subtree.
    Dir,
    /// A regular file or any other entry that is not a directory.
    NonDir,
    /// Its type could not be read.
    Unknown,
}

/// How one entry is removed.
#[derive(Clone, Copy, Debug, PartialEq, Eq, Structural)]
pub enum Removal {
    /// Remove the directory and everything below it.
    Tree,
    /// Remove the single entry.
    File,
    /// Nothing can be attempted; the entry counts as a failure.
    Fail,
}

/// The removal that an entry of the given kind gets.
pub open spec fn removal_for(kind: EntryKind) -> Removal {
    match kind {
        EntryKind::Dir => Removal::Tree,
        EntryKind::NonDir => Removal::File,
        EntryKind::Unknown => Removal::Fail,
    }
}

/// Returns the removal of one entry.
pub fn removal(kind: EntryKind) -> (r: Removal)
    ensures
        r == removal_for(kind),
{
    match kind {
        EntryKind::Dir => Removal::Tree,
        EntryKind::NonDir => Removal::File,
        EntryKind::Unknown => Removal::Fail,
    }
}

/// The removals for every entry of a directory, one for one and in order.
/// The plan is made before any removal is tried, so a failing entry never
/// keeps a later one from being attempted.
pub fn removal_plan(kinds: &Vec<EntryKind>) -> (r: Vec<Removal>)
    ensures
        r@.len() == kinds@.len(),
        forall|i: int| 0 <= i < kinds@.len() ==> #[trigger] r@[i] == removal_for(kinds@[i]),
{
    let mut r: Vec<Removal> = Vec::new();
    let mut i: usize = 0;
    while i < kinds.len()
        invariant
            i <= kinds.len(),
            r@.len() == i,
            forall|k: int| 0 <= k < i ==> #[trigger] r@[k] == removal_for(kinds@[k]),
        decreases kinds.len() - i,
    {
        r.push(removal(kinds[i]));
        i = i + 1;
    }
    r
}

/// What happened to one directory of an identifier.
#[derive(Debug, PartialEq, Eq)]
pub enum DirResult {
    /// The directory could not be listed; none of its entries was tried.
    Unlisted,
    /// The directory was listed; one flag per entry, set when it was removed.
    Listed(Vec<bool>),
}

/// Whether a directory had a failure: it was not listed, or an entry stayed.
pub open spec fn dir_failed(d: DirResult) -> bool {
    match d {
        DirResult::Unlisted => true,
        DirResult::Listed(removed) => exists|i: int| 0 <= i < removed@.len() && !removed@[i],
    }
}

/// Whether every entry flag is set.
fn all_removed(removed: &Vec<bool>) -> (r: bool)
    ensures
        r == (forall|i: int| 0 <= i < removed@.len() ==> removed@[i]),
{
    let mut i: usize = 0;
    while i < removed.len()
        invariant
            i <= removed.len(),
            forall|k: int| 0 <= k < i ==> removed@[k],
        decreases removed.len() - i,
    {
        if !removed[i] {
            return false;
        }
        i = i + 1;
    }
    true
}

/// Whether one directory had a failure.
pub fn dir_has_failure(d: &DirResult) -> (r: bool)
    ensures
        r == dir_failed(*d),
{
    match d {
        DirResult::Unlisted => true,
        DirResult::Listed(removed) => !all_removed(removed),
    }
}

/// The outcome of emptying all directories of one identifier: a partial
/// failure when any directory had one, success otherwise.
pub fn clean_outcome(dirs: &Vec<DirResult>) -> (r: Outcome)
    ensures
        r == (if exists|i: int| 0 <= i < dirs@.len() && #[trigger] dir_failed(dirs@[i]) {
            Outcome::PartiallyFailed
        } else {
            Outcome::Succeeded
        }),
{
    let mut i: usize = 0;
    while i < dirs.len()
        invariant
            i <= dirs.len(),
            forall|k: int| 0 <= k < i ==> !#[trigger] dir_failed(dirs@[k]),
        decreases dirs.len() - i,
    {
        if dir_has_failure(&dirs[i]) {
            return Outcome::PartiallyFailed;
        }
        i = i + 1;
    }
    Outcome::Succeeded
}

} // verus!
