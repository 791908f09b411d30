//! The in-memory configuration: default options, path lists and commands,
//! each keyed by an identifier.
use vstd::prelude::*;

verus! {

/// The identifiers of a list of strings, as a sequence of character sequences.
pub open spec fn id_seq(v: Seq<String>) -> Seq<Seq<char>> {
    v.map_values(|s: String| s@)
}

/// The identifiers of a list of strings, as a set.
pub open spec fn id_set(v: Seq<String>) -> Set<Seq<char>> {
    id_seq(v).to_set()
}

/// An optional identifier list, seen as an optional set.
pub open spec fn opt_id_set(o: Option<Vec<String>>) -> Option<Set<Seq<char>>> {
    match o {
        Some(v) => Some(id_set(v@)),
        None => None,
    }
}

/// An optional string, seen as an optional character sequence.
pub open spec fn opt_str(o: Option<String>) -> Option<Seq<char>> {
    match o {
        Some(s) => Some(s@),
        None => None,
    }
}

/// No two entries of a keyed list share a key.
pub open spec fn keys_unique<V>(v: Seq<(String, V)>) -> bool {
    forall|i: int, j: int|
        0 <= i < v.len() && 0 <= j < v.len() && i != j ==> #[trigger] v[i].0@ != #[trigger] v[j].0@
}

/// Returns a copy of a list of strings.
pub fn clone_strings(v: &Vec<String>) -> (r: Vec<String>)
    ensures
        r@ == v@,
{
    let mut r: Vec<String> = Vec::new();
    let mut i: usize = 0;
    while i < v.len()
        invariant
            i <= v.len(),
            r@ == v@.subrange(0, i as int),
        decreases v.len() - i,
    {
        r.push(v[i].clone());
        i = i + 1;
    }
    assert(r@ =~= v@);
    r
}

/// Returns a copy of an optional list of strings.
pub fn clone_opt_strings(o: &Option<Vec<String>>) -> (r: Option<Vec<String>>)
    ensures
        r is Some <==> o is Some,
        r is Some ==> r->0@ == o->0@,
{
    match o {
        Some(v) => Some(clone_strings(v)),
        None => None,
    }
}

/// Default options: each one absent unless set here.
pub struct Options {
    pub disable: Option<Vec<String>>,
    pub only: Option<Vec<String>>,
    pub shell: Option<String>,
}

/// The whole configuration. `paths` maps an identifier to the raw paths
/// whose contents are cleared; `commands` maps an identifier to one shell
/// command. The two lists are separate namespaces of identifiers.
pub struct Config {
    pub options: Options,
    pub paths: Vec<(String, Vec<String>)>,
    pub commands: Vec<(String, String)>,
}

impl Config {
    /// Each identifier appears at most once within `paths` and at most
    /// once within `commands`.
    pub open spec fn wf(&self) -> bool {
        keys_unique(self.paths@) && keys_unique(self.commands@)
    }
}

impl Default for Config {
    /// The configuration written when none exists yet: no paths, no
    /// commands, and every option unset.
    fn default() -> (r: Config)
        ensures
            r.wf(),
            r.paths@.len() == 0,
            r.commands@.len() == 0,
            r.options.only is None,
            r.options.disable is None,
            r.options.shell is None,
    {
        Config {
            options: Options { disable: None, only: None, shell: None },
            paths: Vec::new(),
            commands: Vec::new(),
        }
    }
}

/// The shell used when neither the command line nor the configuration names one.
pub open spec fn default_shell() -> Seq<char> {
    seq!['b', 'a', 's', 'h']
}

/// Returns the name of the fallback shell.
pub fn default_shell_string() -> (r: String)
    ensures
        r@ == default_shell(),
{
    let r = "bash".to_owned();
    proof {
        reveal_strlit("bash");
        assert(r@ =~= default_shell());
    }
    r
}

} // verus!
