//! The `clean` subcommand, whose options carry no `clear` gate.
use vstd::prelude::*;
use crate::cli;
use crate::config::clone_opt_strings;
use crate::flags;

verus! {

/// Options of the `clean` subcommand: the overrides of a run that always acts.
pub struct Clean {
    pub dry_run: bool,
    pub shell: Option<String>,
    pub only: Option<Vec<String>>,
    pub disable: Option<Vec<String>>,
}

impl Clean {
    /// The command-line options of the run this subcommand stands for:
    /// its own overrides, the shared verbosity, and `clear` set.
    pub fn to_flags(&self, shared: &flags::Flags) -> (r: cli::Flags)
        ensures
            r.clear,
            r.dry_run == self.dry_run,
            r.verbose == shared.verbose,
            r.shell == self.shell,
            r.only is Some <==> self.only is Some,
            r.only is Some ==> r.only->0@ == self.only->0@,
            r.disable is Some <==> self.disable is Some,
            r.disable is Some ==> r.disable->0@ == self.disable->0@,
    {
        let shell = match &self.shell {
            Some(s) => Some(s.clone()),
            None => None,
        };
        cli::Flags {
            clear: true,
            dry_run: self.dry_run,
            shell,
            only: clone_opt_strings(&self.only),
            disable: clone_opt_strings(&self.disable),
            verbose: shared.verbose,
        }
    }
}

} // verus!
