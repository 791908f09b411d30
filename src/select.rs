//! Selection: which identifiers a run acts on, after command-line options
//! override the configuration's defaults.
use vstd::prelude::*;
use crate::cli::Flags;
use crate::plan::{commands_view, paths_view};
use crate::config::{
    Config, Options, clone_opt_strings, default_shell, default_shell_string, id_seq, id_set, opt_id_set,
    opt_str,
};

verus! {

/// The command-line value when given, else the configuration's value.
pub open spec fn pick<T>(over: Option<T>, fallback: Option<T>) -> Option<T> {
    if over is Some {
        over
    } else {
        fallback
    }
}

/// Whether an identifier is active: a member of `only` when it is in force;
/// else not a member of `disable` when that is in force; else always.
pub open spec fn admits(
    only: Option<Set<Seq<char>>>,
    disable: Option<Set<Seq<char>>>,
    id: Seq<char>,
) -> bool {
    match only {
        Some(o) => o.contains(id),
        None => match disable {
            Some(d) => !d.contains(id),
            None => true,
        },
    }
}

/// The effective `only`: the command line's when given, else the configuration's.
pub open spec fn effective_only(flags: Flags, options: Options) -> Option<Set<Seq<char>>> {
    pick(opt_id_set(flags.only), opt_id_set(options.only))
}

/// The effective `disable`: the command line's when given, else the configuration's.
pub open spec fn effective_disable(flags: Flags, options: Options) -> Option<Set<Seq<char>>> {
    pick(opt_id_set(flags.disable), opt_id_set(options.disable))
}

/// The effective shell: the command line's, else the configuration's, else `bash`.
pub open spec fn effective_shell(flags: Flags, options: Options) -> Seq<char> {
    match pick(opt_str(flags.shell), opt_str(options.shell)) {
        Some(s) => s,
        None => default_shell(),
    }
}

/// The options in force for one run.
pub struct Selection {
    pub only: Option<Vec<String>>,
    pub disable: Option<Vec<String>>,
    pub shell: String,
}

/// Whether `id` is one of `list`, compared exactly.
pub fn contains_id(list: &Vec<String>, id: &String) -> (r: bool)
    ensures
        r == id_set(list@).contains(id@),
{
    let mut i: usize = 0;
    while i < list.len()
        invariant
            i <= list.len(),
            forall|k: int| 0 <= k < i ==> list@[k]@ != id@,
        decreases list.len() - i,
    {
        if list[i] == *id {
            assert(id_seq(list@)[i as int] == id@);
            return true;
        }
        i = i + 1;
    }
    proof {
        if id_set(list@).contains(id@) {
            let k = choose|k: int| 0 <= k < id_seq(list@).len() && id_seq(list@)[k] == id@;
            assert(list@[k]@ == id@);
        }
    }
    false
}

impl Selection {
    /// The `only` set in force, if any.
    pub open spec fn only_set(&self) -> Option<Set<Seq<char>>> {
        opt_id_set(self.only)
    }

    /// The `disable` set in force, if any.
    pub open spec fn disable_set(&self) -> Option<Set<Seq<char>>> {
        opt_id_set(self.disable)
    }

    /// Settles each option: the command line's value replaces the
    /// configuration's whole; the shell falls back to `bash`.
    pub fn resolve(flags: &Flags, options: &Options) -> (r: Selection)
        ensures
            r.only_set() == effective_only(*flags, *options),
            r.disable_set() == effective_disable(*flags, *options),
            r.shell@ == effective_shell(*flags, *options),
    {
        let only = if flags.only.is_some() {
            clone_opt_strings(&flags.only)
        } else {
            clone_opt_strings(&options.only)
        };
        let disable = if flags.disable.is_some() {
            clone_opt_strings(&flags.disable)
        } else {
            clone_opt_strings(&options.disable)
        };
        let shell = match &flags.shell {
            Some(s) => s.clone(),
            None => match &options.shell {
                Some(s) => s.clone(),
                None => default_shell_string(),
            },
        };
        Selection { only, disable, shell }
    }

    /// Whether `id` is active under this selection.
    pub fn admits(&self, id: &String) -> (r: bool)
        ensures
            r == admits(self.only_set(), self.disable_set(), id@),
    {
        match &self.only {
            Some(o) => contains_id(o, id),
            None => match &self.disable {
                Some(d) => !contains_id(d, id),
                None => true,
            },
        }
    }
}

/// A conflict among the options, worth a warning in verbose mode. In each
/// case the command line wins.
#[derive(Clone, Copy, Debug, PartialEq, Eq, Structural)]
pub enum Warning {
    /// `only` and `disable` were both given on the command line; `disable` is ignored.
    OnlyAndDisable,
    /// `only` was given both on the command line and in the configuration.
    OnlyOverridesConfig,
    /// `disable` was given both on the command line and in the configuration.
    DisableOverridesConfig,
}

/// The warnings of a run, in the order in which they are reported.
pub open spec fn expected_warnings(flags: Flags, options: Options) -> Seq<Warning> {
    (if flags.only is Some && flags.disable is Some {
        seq![Warning::OnlyAndDisable]
    } else {
        Seq::empty()
    }) + (if flags.only is Some && options.only is Some {
        seq![Warning::OnlyOverridesConfig]
    } else {
        Seq::empty()
    }) + (if flags.disable is Some && options.disable is Some {
        seq![Warning::DisableOverridesConfig]
    } else {
        Seq::empty()
    })
}

/// Lists the conflicts between the command line and the configuration.
pub fn warnings(flags: &Flags, options: &Options) -> (r: Vec<Warning>)
    ensures
        r@ == expected_warnings(*flags, *options),
{
    let mut r: Vec<Warning> = Vec::new();
    if flags.only.is_some() && flags.disable.is_some() {
        r.push(Warning::OnlyAndDisable);
    }
    if flags.only.is_some() && options.only.is_some() {
        r.push(Warning::OnlyOverridesConfig);
    }
    if flags.disable.is_some() && options.disable.is_some() {
        r.push(Warning::DisableOverridesConfig);
    }
    assert(r@ =~= expected_warnings(*flags, *options));
    r
}

/// The entries of a keyed table whose identifier is active, in table order.
pub open spec fn keep_active<V>(
    only: Option<Set<Seq<char>>>,
    disable: Option<Set<Seq<char>>>,
    v: Seq<(Seq<char>, V)>,
) -> Seq<(Seq<char>, V)> {
    v.filter(|e: (Seq<char>, V)| admits(only, disable, e.0))
}

/// The identifiers of a keyed table, as a set.
pub open spec fn ids_of<V>(v: Seq<(Seq<char>, V)>) -> Set<Seq<char>> {
    v.map_values(|e: (Seq<char>, V)| e.0).to_set()
}

/// The identifiers kept by `keep_active` are the table's identifiers that
/// are active.
pub proof fn lemma_ids_of_active<V>(
    only: Option<Set<Seq<char>>>,
    disable: Option<Set<Seq<char>>>,
    v: Seq<(Seq<char>, V)>,
)
    ensures
        ids_of(keep_active(only, disable, v)) == ids_of(v).filter(
            |id: Seq<char>| admits(only, disable, id),
        ),
{
    let pred = |e: (Seq<char>, V)| admits(only, disable, e.0);
    let f = v.filter(pred);
    let fk = f.map_values(|e: (Seq<char>, V)| e.0);
    let vk = v.map_values(|e: (Seq<char>, V)| e.0);
    broadcast use vstd::seq_lib::group_filter_ensures;

    assert forall|x: Seq<char>|
        ids_of(keep_active(only, disable, v)).contains(x) <==> ids_of(v).filter(
            |id: Seq<char>| admits(only, disable, id),
        ).contains(x) by {
        if fk.contains(x) {
            let i = choose|i: int| 0 <= i < fk.len() && fk[i] == x;
            assert(f.contains(f[i]));
            v.lemma_filter_contains_rev(pred, f[i]);
            let j = choose|j: int| 0 <= j < v.len() && v[j] == f[i];
            assert(vk[j] == x);
            assert(vk.contains(x));
        }
        if vk.contains(x) && admits(only, disable, x) {
            let j = choose|j: int| 0 <= j < vk.len() && vk[j] == x;
            assert(pred(v[j]));
            assert(f.contains(v[j]));
            let i = choose|i: int| 0 <= i < f.len() && f[i] == v[j];
            assert(fk[i] == x);
            assert(fk.contains(x));
        }
    }
    assert(ids_of(keep_active(only, disable, v)) =~= ids_of(v).filter(
        |id: Seq<char>| admits(only, disable, id),
    ));
}

/// The active identifiers of one table under `only`: those the table and
/// `only` share.
proof fn lemma_only_intersects<V>(
    only: Set<Seq<char>>,
    disable: Option<Set<Seq<char>>>,
    v: Seq<(Seq<char>, V)>,
)
    ensures
        ids_of(keep_active(Some(only), disable, v)) == ids_of(v).intersect(only),
{
    lemma_ids_of_active(Some(only), disable, v);
    assert(ids_of(v).filter(|id: Seq<char>| admits(Some(only), disable, id)) =~= ids_of(
        v,
    ).intersect(only));
}

/// The active identifiers of one table under `disable` alone: the table's
/// identifiers minus `disable`.
proof fn lemma_disable_subtracts<V>(disable: Set<Seq<char>>, v: Seq<(Seq<char>, V)>)
    ensures
        ids_of(keep_active(None, Some(disable), v)) == ids_of(v).difference(disable),
{
    lemma_ids_of_active(None, Some(disable), v);
    assert(ids_of(v).filter(|id: Seq<char>| admits(None, Some(disable), id)) =~= ids_of(
        v,
    ).difference(disable));
}

/// When `only` is in force, the active identifiers of each table are
/// exactly the table's identifiers that `only` names: names that the table
/// lacks have no effect, and `disable` is not consulted.
pub proof fn lemma_only_selects_named(config: Config, flags: Flags)
    requires
        effective_only(flags, config.options) is Some,
    ensures
        ids_of(
            keep_active(
                effective_only(flags, config.options),
                effective_disable(flags, config.options),
                paths_view(config.paths@),
            ),
        ) == ids_of(paths_view(config.paths@)).intersect(effective_only(flags, config.options)->0),
        ids_of(
            keep_active(
                effective_only(flags, config.options),
                effective_disable(flags, config.options),
                commands_view(config.commands@),
            ),
        ) == ids_of(commands_view(config.commands@)).intersect(
            effective_only(flags, config.options)->0,
        ),
{
    let only = effective_only(flags, config.options)->0;
    let disable = effective_disable(flags, config.options);
    lemma_only_intersects(only, disable, paths_view(config.paths@));
    lemma_only_intersects(only, disable, commands_view(config.commands@));
}

/// When `only` is not in force and `disable` is, the active identifiers of
/// each table are the table's identifiers minus those that `disable` names.
pub proof fn lemma_disable_removes_named(config: Config, flags: Flags)
    requires
        effective_only(flags, config.options) is None,
        effective_disable(flags, config.options) is Some,
    ensures
        ids_of(
            keep_active(
                effective_only(flags, config.options),
                effective_disable(flags, config.options),
                paths_view(config.paths@),
            ),
        ) == ids_of(paths_view(config.paths@)).difference(
            effective_disable(flags, config.options)->0,
        ),
        ids_of(
            keep_active(
                effective_only(flags, config.options),
                effective_disable(flags, config.options),
                commands_view(config.commands@),
            ),
        ) == ids_of(commands_view(config.commands@)).difference(
            effective_disable(flags, config.options)->0,
        ),
{
    let disable = effective_disable(flags, config.options)->0;
    lemma_disable_subtracts(disable, paths_view(config.paths@));
    lemma_disable_subtracts(disable, commands_view(config.commands@));
}

/// When the command line gives both `only` and `disable`, the active
/// entries of each table are those that the command line's `only` names,
/// whatever `disable` and the configuration's options hold.
pub proof fn lemma_only_flag_decides(config: Config, flags: Flags)
    requires
        flags.only is Some,
        flags.disable is Some,
    ensures
        keep_active(
            effective_only(flags, config.options),
            effective_disable(flags, config.options),
            paths_view(config.paths@),
        ) == paths_view(config.paths@).filter(
            |e: (Seq<char>, Seq<Seq<char>>)| opt_id_set(flags.only)->0.contains(e.0),
        ),
        keep_active(
            effective_only(flags, config.options),
            effective_disable(flags, config.options),
            commands_view(config.commands@),
        ) == commands_view(config.commands@).filter(
            |e: (Seq<char>, Seq<char>)| opt_id_set(flags.only)->0.contains(e.0),
        ),
{
    let only = effective_only(flags, config.options);
    let disable = effective_disable(flags, config.options);
    let p1 = |e: (Seq<char>, Seq<Seq<char>>)| admits(only, disable, e.0);
    let p2 = |e: (Seq<char>, Seq<Seq<char>>)| opt_id_set(flags.only)->0.contains(e.0);
    assert(p1 =~= p2);
    let q1 = |e: (Seq<char>, Seq<char>)| admits(only, disable, e.0);
    let q2 = |e: (Seq<char>, Seq<char>)| opt_id_set(flags.only)->0.contains(e.0);
    assert(q1 =~= q2);
}

} // verus!
