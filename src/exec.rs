//! Running one configured command through the shell.
use vstd::prelude::*;
use crate::outcome::Outcome;

verus! {

/// The flag that makes a shell read its command from the next argument.
pub open spec fn command_flag() -> Seq<char> {
    seq!['-', 'c']
}

/// The arguments handed to the shell: the command flag, then the whole
/// command text as one argument.
pub fn shell_args(command: &String) -> (r: Vec<String>)
    ensures
        r@.len() == 2,
        r@[0]@ == command_flag(),
        r@[1]@ == command@,
{
    let flag = "-c".to_owned();
    proof {
        reveal_strlit("-c");
        assert(flag@ =~= command_flag());
    }
    let mut r: Vec<String> = Vec::new();
    r.push(flag);
    r.push(command.clone());
    r
}

/// The outcome of a command from its exit status: `None` when the shell
/// could not be started, else whether it exited with success.
pub fn command_outcome(status: Option<bool>) -> (r: Outcome)
    ensures
        r == match status {
            None => Outcome::SpawnFailed,
            Some(true) => Outcome::Succeeded,
            Some(false) => Outcome::NonZeroExit,
        },
{
    match status {
        None => Outcome::SpawnFailed,
        Some(true) => Outcome::Succeeded,
        Some(false) => Outcome::NonZeroExit,
    }
}

} // verus!
