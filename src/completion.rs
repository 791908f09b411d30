//! Choosing the shell to generate completions for, when none is given,
//! from the value of the user's `SHELL` variable.
use vstd::prelude::*;
use vstd::string::StrSliceExecFns;

verus! {

/// A shell that completions can be generated for.
#[derive(Clone, Copy, Debug, PartialEq, Eq, Structural)]
pub enum CompletionShell {
    Bash,
    Zsh,
    Fish,
    Elvish,
    PowerShell,
}

/// `pat` occurs in `s` starting at position `i`.
pub open spec fn occurs_at(s: Seq<char>, pat: Seq<char>, i: int) -> bool {
    0 <= i && i + pat.len() <= s.len() && s.subrange(i, i + pat.len()) == pat
}

/// `pat` occurs somewhere in `s`.
pub open spec fn occurs(s: Seq<char>, pat: Seq<char>) -> bool {
    exists|i: int| occurs_at(s, pat, i)
}

/// The text `bash`.
pub open spec fn bash_name() -> Seq<char> {
    seq!['b', 'a', 's', 'h']
}

/// The text `zsh`.
pub open spec fn zsh_name() -> Seq<char> {
    seq!['z', 's', 'h']
}

/// The text `fish`.
pub open spec fn fish_name() -> Seq<char> {
    seq!['f', 'i', 's', 'h']
}

/// The text `elvish`.
pub open spec fn elvish_name() -> Seq<char> {
    seq!['e', 'l', 'v', 'i', 's', 'h']
}

/// The text `powershell`.
pub open spec fn powershell_name() -> Seq<char> {
    seq!['p', 'o', 'w', 'e', 'r', 's', 'h', 'e', 'l', 'l']
}

/// The shell a `SHELL` value names: the first of bash, zsh, fish, elvish
/// and powershell whose name occurs in it, or none.
pub open spec fn shell_named(var: Seq<char>) -> Option<CompletionShell> {
    if occurs(var, bash_name()) {
        Some(CompletionShell::Bash)
    } else if occurs(var, zsh_name()) {
        Some(CompletionShell::Zsh)
    } else if occurs(var, fish_name()) {
        Some(CompletionShell::Fish)
    } else if occurs(var, elvish_name()) {
        Some(CompletionShell::Elvish)
    } else if occurs(var, powershell_name()) {
        Some(CompletionShell::PowerShell)
    } else {
        None
    }
}

/// Whether `pat` occurs in `s` at position `i`.
fn matches_at(s: &str, pat: &str, i: usize) -> (r: bool)
    requires
        i + pat@.len() <= s@.len(),
    ensures
        r == occurs_at(s@, pat@, i as int),
{
    let n = s.unicode_len();
    let m = pat.unicode_len();
    let mut j: usize = 0;
    while j < m
        invariant
            j <= m,
            m == pat@.len(),
            n == s@.len(),
            i + pat@.len() <= s@.len(),
            forall|t: int| 0 <= t < j ==> s@[i + t] == pat@[t],
        decreases m - j,
    {
        if s.get_char(i + j) != pat.get_char(j) {
            assert(s@.subrange(i as int, i + pat@.len())[j as int] != pat@[j as int]);
            return false;
        }
        j = j + 1;
    }
    assert(s@.subrange(i as int, i + pat@.len()) =~= pat@);
    true
}

/// Whether `pat` occurs anywhere in `s`.
pub fn contains_text(s: &str, pat: &str) -> (r: bool)
    ensures
        r == occurs(s@, pat@),
{
    let n = s.unicode_len();
    let m = pat.unicode_len();
    if m > n {
        return false;
    }
    if m == 0 {
        assert(s@.subrange(0, 0) =~= pat@);
        assert(occurs_at(s@, pat@, 0));
        return true;
    }
    let mut i: usize = 0;
    while i <= n - m
        invariant
            n == s@.len(),
            m == pat@.len(),
            0 < m <= n,
            i <= n - m + 1,
            forall|k: int| 0 <= k < i ==> !occurs_at(s@, pat@, k),
        decreases n - m + 1 - i,
    {
        if matches_at(s, pat, i) {
            return true;
        }
        i = i + 1;
    }
    false
}

/// The shell that a `SHELL` value names, checked in the order bash, zsh,
/// fish, elvish, powershell; `None` when it names none of them.
pub fn detect_shell(var: &str) -> (r: Option<CompletionShell>)
    ensures
        r == shell_named(var@),
{
    proof {
        reveal_strlit("bash");
        reveal_strlit("zsh");
        reveal_strlit("fish");
        reveal_strlit("elvish");
        reveal_strlit("powershell");
        assert("bash"@ =~= bash_name());
        assert("zsh"@ =~= zsh_name());
        assert("fish"@ =~= fish_name());
        assert("elvish"@ =~= elvish_name());
        assert("powershell"@ =~= powershell_name());
    }
    if contains_text(var, "bash") {
        Some(CompletionShell::Bash)
    } else if contains_text(var, "zsh") {
        Some(CompletionShell::Zsh)
    } else if contains_text(var, "fish") {
        Some(CompletionShell::Fish)
    } else if contains_text(var, "elvish") {
        Some(CompletionShell::Elvish)
    } else if contains_text(var, "powershell") {
        Some(CompletionShell::PowerShell)
    } else {
        None
    }
}

} // verus!
