//! The targets of a run and the steps that carry it out.
use vstd::prelude::*;
use crate::cli::Flags;
use crate::config::{Config, clone_strings, id_seq, keys_unique, opt_str};
use crate::select::{Selection, admits, effective_disable, effective_only, keep_active};

verus! {

/// A path table seen as identifiers with their raw paths.
pub open spec fn paths_view(v: Seq<(String, Vec<String>)>) -> Seq<(Seq<char>, Seq<Seq<char>>)> {
    v.map_values(|e: (String, Vec<String>)| (e.0@, id_seq(e.1@)))
}

/// A command table seen as identifiers with their command text.
pub open spec fn commands_view(v: Seq<(String, String)>) -> Seq<(Seq<char>, Seq<char>)> {
    v.map_values(|e: (String, String)| (e.0@, e.1@))
}

/// What a run works on: the options in force and the active entries of
/// the path and command tables.
pub struct Targets {
    pub selection: Selection,
    pub paths: Vec<(String, Vec<String>)>,
    pub commands: Vec<(String, String)>,
}

/// The path entries of `paths` that `selection` admits.
fn active_paths(selection: &Selection, paths: &Vec<(String, Vec<String>)>) -> (r: Vec<(String, Vec<String>)>)
    ensures
        paths_view(r@) == keep_active(
            selection.only_set(),
            selection.disable_set(),
            paths_view(paths@),
        ),
        keys_unique(paths@) ==> keys_unique(r@),
{
    let mut r: Vec<(String, Vec<String>)> = Vec::new();
    let mut i: usize = 0;
    while i < paths.len()
        invariant
            i <= paths.len(),
            paths_view(r@) == keep_active(
                selection.only_set(),
                selection.disable_set(),
                paths_view(paths@.subrange(0, i as int)),
            ),
            forall|k: int| 0 <= k < r@.len() ==> exists|j: int| 0 <= j < i && #[trigger] r@[k].0@ == paths@[j].0@,
            keys_unique(paths@) ==> keys_unique(r@),
        decreases paths.len() - i,
    {
        let ghost pred = |e: (Seq<char>, Seq<Seq<char>>)|
            admits(selection.only_set(), selection.disable_set(), e.0);
        let ghost before = paths_view(paths@.subrange(0, i as int));
        assert(paths_view(paths@.subrange(0, i + 1)) =~= before.push(
            paths_view(paths@)[i as int],
        ));
        proof {
            before.lemma_filter_push(paths_view(paths@)[i as int], pred);
        }
        let entry = &paths[i];
        if selection.admits(&entry.0) {
            let ghost old_r = r@;
            r.push((entry.0.clone(), clone_strings(&entry.1)));
            assert(paths_view(r@) =~= paths_view(old_r).push(paths_view(paths@)[i as int]));
            assert(r@[old_r.len() as int].0@ == paths@[i as int].0@);
            assert forall|k: int| 0 <= k < old_r.len() implies #[trigger] r@[k] == old_r[k] by {}
            proof {
                if keys_unique(paths@) {
                    assert forall|a: int, b: int|
                        0 <= a < r@.len() && 0 <= b < r@.len() && a != b implies #[trigger] r@[a].0@
                        != #[trigger] r@[b].0@ by {
                        if a < old_r.len() && b < old_r.len() {
                            assert(old_r[a].0@ != old_r[b].0@);
                        } else if a < old_r.len() {
                            let j = choose|j: int| 0 <= j < i && #[trigger] old_r[a].0@ == paths@[j].0@;
                            assert(paths@[j].0@ != paths@[i as int].0@);
                        } else {
                            let j = choose|j: int| 0 <= j < i && #[trigger] old_r[b].0@ == paths@[j].0@;
                            assert(paths@[j].0@ != paths@[i as int].0@);
                        }
                    }
                }
            }
        }
        i = i + 1;
    }
    assert(paths@.subrange(0, paths@.len() as int) =~= paths@);
    r
}

/// The command entries of `commands` that `selection` admits.
fn active_commands(selection: &Selection, commands: &Vec<(String, String)>) -> (r: Vec<(String, String)>)
    ensures
        commands_view(r@) == keep_active(
            selection.only_set(),
            selection.disable_set(),
            commands_view(commands@),
        ),
        keys_unique(commands@) ==> keys_unique(r@),
{
    let mut r: Vec<(String, String)> = Vec::new();
    let mut i: usize = 0;
    while i < commands.len()
        invariant
            i <= commands.len(),
            commands_view(r@) == keep_active(
                selection.only_set(),
                selection.disable_set(),
                commands_view(commands@.subrange(0, i as int)),
            ),
            forall|k: int| 0 <= k < r@.len() ==> exists|j: int| 0 <= j < i && #[trigger] r@[k].0@ == commands@[j].0@,
            keys_unique(commands@) ==> keys_unique(r@),
        decreases commands.len() - i,
    {
        let ghost pred = |e: (Seq<char>, Seq<char>)|
            admits(selection.only_set(), selection.disable_set(), e.0);
        let ghost before = commands_view(commands@.subrange(0, i as int));
        assert(commands_view(commands@.subrange(0, i + 1)) =~= before.push(
            commands_view(commands@)[i as int],
        ));
        proof {
            before.lemma_filter_push(commands_view(commands@)[i as int], pred);
        }
        let entry = &commands[i];
        if selection.admits(&entry.0) {
            let ghost old_r = r@;
            r.push((entry.0.clone(), entry.1.clone()));
            assert(commands_view(r@) =~= commands_view(old_r).push(commands_view(commands@)[i as int]));
            assert(r@[old_r.len() as int].0@ == commands@[i as int].0@);
            assert forall|k: int| 0 <= k < old_r.len() implies #[trigger] r@[k] == old_r[k] by {}
            proof {
                if keys_unique(commands@) {
                    assert forall|a: int, b: int|
                        0 <= a < r@.len() && 0 <= b < r@.len() && a != b implies #[trigger] r@[a].0@
                        != #[trigger] r@[b].0@ by {
                        if a < old_r.len() && b < old_r.len() {
                            assert(old_r[a].0@ != old_r[b].0@);
                        } else if a < old_r.len() {
                            let j = choose|j: int| 0 <= j < i && #[trigger] old_r[a].0@ == commands@[j].0@;
                            assert(commands@[j].0@ != commands@[i as int].0@);
                        } else {
                            let j = choose|j: int| 0 <= j < i && #[trigger] old_r[b].0@ == commands@[j].0@;
                            assert(commands@[j].0@ != commands@[i as int].0@);
                        }
                    }
                }
            }
        }
        i = i + 1;
    }
    assert(commands@.subrange(0, commands@.len() as int) =~= commands@);
    r
}

impl Targets {
    /// Settles the options of a run and keeps the path and command entries
    /// whose identifiers are active under them, in configuration order.
    pub fn select(config: &Config, flags: &Flags) -> (r: Targets)
        ensures
            r.selection.only_set() == effective_only(*flags, config.options),
            r.selection.disable_set() == effective_disable(*flags, config.options),
            r.selection.shell@ == crate::select::effective_shell(*flags, config.options),
            paths_view(r.paths@) == keep_active(
                effective_only(*flags, config.options),
                effective_disable(*flags, config.options),
                paths_view(config.paths@),
            ),
            commands_view(r.commands@) == keep_active(
                effective_only(*flags, config.options),
                effective_disable(*flags, config.options),
                commands_view(config.commands@),
            ),
            config.wf() ==> keys_unique(r.paths@) && keys_unique(r.commands@),
    {
        let selection = Selection::resolve(flags, &config.options);
        let paths = active_paths(&selection, &config.paths);
        let commands = active_commands(&selection, &config.commands);
        Targets { selection, paths, commands }
    }

    /// Whether the run has nothing to do: no active path entry and no
    /// active command.
    pub fn is_empty(&self) -> (r: bool)
        ensures
            r == (self.paths@.len() == 0 && self.commands@.len() == 0),
    {
        self.paths.len() == 0 && self.commands.len() == 0
    }
}

/// A step seen through the views of its text.
pub enum StepView {
    ReportDirs(Seq<char>, Seq<Seq<char>>),
    EmptyDirs(Seq<char>, Seq<Seq<char>>),
    ReportCommand(Seq<char>, Seq<char>),
    RunCommand(Seq<char>, Seq<char>, Seq<char>),
}

impl StepView {
    /// Whether the step changes the filesystem or starts a process.
    pub open spec fn acts(self) -> bool {
        self is EmptyDirs || self is RunCommand
    }
}

/// One thing a run does, in the order of the run.
#[derive(Debug, PartialEq, Eq)]
pub enum Step {
    /// Dry run: report the directories of `id` that would be emptied.
    ReportDirs { id: String, dirs: Vec<String> },
    /// Empty each directory of `id`, keeping the directories themselves.
    EmptyDirs { id: String, dirs: Vec<String> },
    /// Dry run: report the command of `id` that would be run.
    ReportCommand { id: String, command: String },
    /// Run the command of `id` as `shell -c command`.
    RunCommand { id: String, shell: String, command: String },
}

impl View for Step {
    type V = StepView;

    open spec fn view(&self) -> StepView {
        match self {
            Step::ReportDirs { id, dirs } => StepView::ReportDirs(id@, id_seq(dirs@)),
            Step::EmptyDirs { id, dirs } => StepView::EmptyDirs(id@, id_seq(dirs@)),
            Step::ReportCommand { id, command } => StepView::ReportCommand(id@, command@),
            Step::RunCommand { id, shell, command } => StepView::RunCommand(id@, shell@, command@),
        }
    }
}

/// A sequence of steps seen through their views.
pub open spec fn steps_view(v: Seq<Step>) -> Seq<StepView> {
    v.map_values(|s: Step| s@)
}

/// The paths that canonicalized, in order; the others are dropped.
pub open spec fn resolved(raw: Seq<Option<Seq<char>>>) -> Seq<Seq<char>>
    decreases raw.len(),
{
    if raw.len() == 0 {
        Seq::empty()
    } else {
        let rest = resolved(raw.drop_last());
        match raw.last() {
            Some(p) => rest.push(p),
            None => rest,
        }
    }
}

/// Canonicalization results seen as optional character sequences.
pub open spec fn raw_view(v: Seq<Option<String>>) -> Seq<Option<Seq<char>>> {
    v.map_values(|o: Option<String>| opt_str(o))
}

/// A path table after canonicalization: for each identifier, one result
/// per raw path, `None` where the path could not be canonicalized.
pub open spec fn canon_view(v: Seq<(String, Vec<Option<String>>)>) -> Seq<(Seq<char>, Seq<Option<Seq<char>>>)> {
    v.map_values(|e: (String, Vec<Option<String>>)| (e.0@, raw_view(e.1@)))
}

/// The directory steps: one per identifier with at least one resolved
/// directory, reported in a dry run and emptied otherwise.
pub open spec fn path_steps(canon: Seq<(Seq<char>, Seq<Option<Seq<char>>>)>, dry: bool) -> Seq<StepView>
    decreases canon.len(),
{
    if canon.len() == 0 {
        Seq::empty()
    } else {
        let rest = path_steps(canon.drop_last(), dry);
        let id = canon.last().0;
        let dirs = resolved(canon.last().1);
        if dirs.len() == 0 {
            rest
        } else if dry {
            rest.push(StepView::ReportDirs(id, dirs))
        } else {
            rest.push(StepView::EmptyDirs(id, dirs))
        }
    }
}

/// The command steps: one per command, reported in a dry run and run
/// through `shell` otherwise.
pub open spec fn command_steps(cmds: Seq<(Seq<char>, Seq<char>)>, shell: Seq<char>, dry: bool) -> Seq<StepView> {
    cmds.map_values(
        |e: (Seq<char>, Seq<char>)|
            if dry {
                StepView::ReportCommand(e.0, e.1)
            } else {
                StepView::RunCommand(e.0, shell, e.1)
            },
    )
}

/// The steps of a run: all directory steps, then all command steps; none
/// when the run is neither a dry run nor allowed to act.
pub open spec fn planned(
    canon: Seq<(Seq<char>, Seq<Option<Seq<char>>>)>,
    cmds: Seq<(Seq<char>, Seq<char>)>,
    shell: Seq<char>,
    clear: bool,
    dry: bool,
) -> Seq<StepView> {
    if dry || clear {
        path_steps(canon, dry) + command_steps(cmds, shell, dry)
    } else {
        Seq::empty()
    }
}

/// Keeps the paths that canonicalized, in order. A path that did not is
/// dropped and is not an error.
pub fn resolve_dirs(raw: &Vec<Option<String>>) -> (r: Vec<String>)
    ensures
        id_seq(r@) == resolved(raw_view(raw@)),
{
    let mut r: Vec<String> = Vec::new();
    let mut i: usize = 0;
    while i < raw.len()
        invariant
            i <= raw.len(),
            id_seq(r@) == resolved(raw_view(raw@.subrange(0, i as int))),
        decreases raw.len() - i,
    {
        let ghost before = raw_view(raw@.subrange(0, i as int));
        let ghost after = raw_view(raw@.subrange(0, i + 1));
        assert(after =~= before.push(opt_str(raw@[i as int])));
        assert(after.drop_last() =~= before);
        let ghost old_r = r@;
        match &raw[i] {
            Some(p) => {
                r.push(p.clone());
                assert(id_seq(r@) =~= id_seq(old_r).push(p@));
            },
            None => {},
        }
        i = i + 1;
    }
    assert(raw@.subrange(0, raw@.len() as int) =~= raw@);
    r
}

impl Targets {
    /// `canon` is this run's path table after canonicalization: the same
    /// identifiers in the same order, with one result per raw path.
    pub open spec fn canon_fits(&self, canon: Seq<(String, Vec<Option<String>>)>) -> bool {
        &&& canon.len() == self.paths@.len()
        &&& forall|i: int|
            0 <= i < canon.len() ==> #[trigger] canon[i].0@ == self.paths@[i].0@
        &&& forall|i: int|
            0 <= i < canon.len() ==> #[trigger] canon[i].1@.len() == self.paths@[i].1@.len()
    }

    /// Whether `canon` is this run's path table after canonicalization.
    pub fn fits(&self, canon: &Vec<(String, Vec<Option<String>>)>) -> (r: bool)
        ensures
            r == self.canon_fits(canon@),
    {
        if canon.len() != self.paths.len() {
            return false;
        }
        let mut i: usize = 0;
        while i < canon.len()
            invariant
                i <= canon.len(),
                canon@.len() == self.paths@.len(),
                forall|k: int| 0 <= k < i ==> #[trigger] canon@[k].0@ == self.paths@[k].0@,
                forall|k: int| 0 <= k < i ==> #[trigger] canon@[k].1@.len() == self.paths@[k].1@.len(),
            decreases canon.len() - i,
        {
            if !(canon[i].0 == self.paths[i].0) || canon[i].1.len() != self.paths[i].1.len() {
                return false;
            }
            i = i + 1;
        }
        true
    }

    /// The steps of the run, from this run's path table after
    /// canonicalization and this run's commands and shell. Directory steps come first, in table
    /// order, skipping identifiers with no resolved directory; then one
    /// step per command. A dry run reports each step instead of doing it,
    /// whether or not acting is allowed; otherwise nothing is done unless
    /// `clear` is set.
    pub fn steps(&self, canon: &Vec<(String, Vec<Option<String>>)>, flags: &Flags) -> (r: Vec<Step>)
        requires
            self.canon_fits(canon@),
        ensures
            steps_view(r@) == planned(
                canon_view(canon@),
                commands_view(self.commands@),
                self.selection.shell@,
                flags.clear,
                flags.dry_run,
            ),
    {
        let mut r: Vec<Step> = Vec::new();
        if !flags.dry_run && !flags.clear {
            assert(steps_view(r@) =~= Seq::empty());
            return r;
        }
        let dry = flags.dry_run;
        let mut i: usize = 0;
        while i < canon.len()
            invariant
                i <= canon.len(),
                dry == flags.dry_run,
                steps_view(r@) == path_steps(canon_view(canon@.subrange(0, i as int)), dry),
            decreases canon.len() - i,
        {
            let ghost before = canon_view(canon@.subrange(0, i as int));
            let ghost after = canon_view(canon@.subrange(0, i + 1));
            assert(after =~= before.push(canon_view(canon@)[i as int]));
            assert(after.drop_last() =~= before);
            let dirs = resolve_dirs(&canon[i].1);
            let ghost old_r = r@;
            if dirs.len() > 0 {
                let id = canon[i].0.clone();
                let step = if dry {
                    Step::ReportDirs { id, dirs }
                } else {
                    Step::EmptyDirs { id, dirs }
                };
                r.push(step);
                assert(steps_view(r@) =~= steps_view(old_r).push(step@));
            }
            i = i + 1;
        }
        assert(canon@.subrange(0, canon@.len() as int) =~= canon@);
        let ghost path_part = steps_view(r@);
        let shell = &self.selection.shell;
        let cmds = &self.commands;
        let mut j: usize = 0;
        while j < cmds.len()
            invariant
                j <= cmds.len(),
                dry == flags.dry_run,
                shell == &self.selection.shell,
                cmds == &self.commands,
                steps_view(r@) == path_part + command_steps(
                    commands_view(cmds@.subrange(0, j as int)),
                    shell@,
                    dry,
                ),
            decreases cmds.len() - j,
        {
            let ghost old_r = r@;
            let id = cmds[j].0.clone();
            let command = cmds[j].1.clone();
            let step = if dry {
                Step::ReportCommand { id, command }
            } else {
                Step::RunCommand { id, shell: shell.clone(), command }
            };
            r.push(step);
            assert(steps_view(r@) =~= steps_view(old_r).push(step@));
            assert(commands_view(cmds@.subrange(0, j + 1)) =~= commands_view(
                cmds@.subrange(0, j as int),
            ).push(commands_view(cmds@)[j as int]));
            assert(command_steps(commands_view(cmds@.subrange(0, j + 1)), shell@, dry) =~= command_steps(
                commands_view(cmds@.subrange(0, j as int)),
                shell@,
                dry,
            ).push(step@));
            assert(steps_view(r@) =~= path_part + command_steps(
                commands_view(cmds@.subrange(0, j + 1)),
                shell@,
                dry,
            ));
            j = j + 1;
        }
        assert(cmds@.subrange(0, cmds@.len() as int) =~= cmds@);
        r
    }
}

/// No directory step of a dry run acts.
proof fn lemma_dry_path_steps(canon: Seq<(Seq<char>, Seq<Option<Seq<char>>>)>)
    ensures
        forall|i: int| 0 <= i < path_steps(canon, true).len() ==> !(#[trigger] path_steps(canon, true)[i]).acts(),
    decreases canon.len(),
{
    if canon.len() > 0 {
        let rest = path_steps(canon.drop_last(), true);
        lemma_dry_path_steps(canon.drop_last());
        let all = path_steps(canon, true);
        assert forall|i: int| 0 <= i < all.len() implies !(#[trigger] all[i]).acts() by {
            if i < rest.len() {
                assert(all[i] == rest[i]);
            }
        }
    }
}

/// A dry run never empties a directory and never starts a process: none
/// of its steps acts, whatever the tables, the shell and `clear` hold.
pub proof fn lemma_dry_run_never_acts(
    targets: Targets,
    canon: Seq<(String, Vec<Option<String>>)>,
    flags: Flags,
)
    requires
        flags.dry_run,
    ensures
        forall|i: int|
            0 <= i < planned(
                canon_view(canon),
                commands_view(targets.commands@),
                targets.selection.shell@,
                flags.clear,
                flags.dry_run,
            ).len() ==> !(#[trigger] planned(
                canon_view(canon),
                commands_view(targets.commands@),
                targets.selection.shell@,
                flags.clear,
                flags.dry_run,
            )[i]).acts(),
{
    let p = path_steps(canon_view(canon), true);
    let c = command_steps(commands_view(targets.commands@), targets.selection.shell@, true);
    lemma_dry_path_steps(canon_view(canon));
    assert forall|i: int| 0 <= i < (p + c).len() implies !(#[trigger] (p + c)[i]).acts() by {
        if i >= p.len() {
            assert((p + c)[i] == c[i - p.len()]);
        } else {
            assert((p + c)[i] == p[i]);
        }
    }
}

} // verus!
