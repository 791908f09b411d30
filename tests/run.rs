use rmcache::clean::Clean;
use rmcache::cli::Flags;
use rmcache::completion::{contains_text, detect_shell, CompletionShell};
use rmcache::config::{Config, Options};
use rmcache::exec::{command_outcome, shell_args};
use rmcache::flags;
use rmcache::outcome::{any_failed, Outcome};
use rmcache::plan::{resolve_dirs, Step, Targets};
use rmcache::remove::{clean_outcome, dir_has_failure, removal, removal_plan, DirResult, EntryKind, Removal};

fn s(x: &str) -> String {
    x.to_string()
}

fn flags() -> Flags {
    Flags { clear: true, dry_run: false, shell: None, only: None, disable: None, verbose: false }
}

fn empty_options() -> Options {
    Options { disable: None, only: None, shell: None }
}

/// Stands in for canonicalization: every raw path resolves to itself.
fn canon_all(t: &Targets) -> Vec<(String, Vec<Option<String>>)> {
    t.paths.iter().map(|(id, raws)| (id.clone(), raws.iter().map(|p| Some(p.clone())).collect())).collect()
}

#[test]
fn unresolvable_path_is_dropped() {
    let r = resolve_dirs(&vec![Some(s("/tmp")), None]);
    assert_eq!(r.len(), 1);
    assert_eq!(r, vec![s("/tmp")]);
    assert_eq!(resolve_dirs(&vec![None, Some(s("/a")), None, Some(s("/b"))]), vec![s("/a"), s("/b")]);
}

#[test]
fn one_missing_path_keeps_the_other() {
    let config = Config {
        options: empty_options(),
        paths: vec![(s("mixed"), vec![s("/tmp"), s("/does/not/exist")])],
        commands: vec![],
    };
    let t = Targets::select(&config, &flags());
    let canon = vec![(s("mixed"), vec![Some(s("/tmp")), None])];
    assert_eq!(t.steps(&canon, &flags()), vec![Step::EmptyDirs { id: s("mixed"), dirs: vec![s("/tmp")] }]);
}

#[test]
fn canonicalized_table_must_fit_targets() {
    let config = Config {
        options: empty_options(),
        paths: vec![(s("a"), vec![s("/tmp/a1"), s("/tmp/a2")]), (s("b"), vec![s("/tmp/b")])],
        commands: vec![],
    };
    let t = Targets::select(&config, &flags());
    assert!(t.fits(&canon_all(&t)));
    assert!(!t.fits(&vec![(s("a"), vec![None, None])]));
    assert!(!t.fits(&vec![(s("a"), vec![None, None]), (s("c"), vec![None])]));
    assert!(!t.fits(&vec![(s("a"), vec![None]), (s("b"), vec![None])]));
}

#[test]
fn identifier_without_resolved_paths_is_skipped() {
    let config = Config {
        options: empty_options(),
        paths: vec![(s("gone"), vec![s("/nope")]), (s("here"), vec![s("/tmp/h")])],
        commands: vec![],
    };
    let t = Targets::select(&config, &flags());
    let canon = vec![(s("gone"), vec![None]), (s("here"), vec![Some(s("/tmp/h"))])];
    assert_eq!(t.steps(&canon, &flags()), vec![Step::EmptyDirs { id: s("here"), dirs: vec![s("/tmp/h")] }]);
}

#[test]
fn dry_run_only_reports() {
    let config = Config {
        options: empty_options(),
        paths: vec![(s("p"), vec![s("/tmp/p1"), s("/tmp/p2")])],
        commands: vec![(s("c"), s("rm -rf /x"))],
    };
    for clear in [true, false] {
        let mut f = flags();
        f.dry_run = true;
        f.clear = clear;
        let t = Targets::select(&config, &f);
        let steps = t.steps(&canon_all(&t), &f);
        assert_eq!(
            steps,
            vec![
                Step::ReportDirs { id: s("p"), dirs: vec![s("/tmp/p1"), s("/tmp/p2")] },
                Step::ReportCommand { id: s("c"), command: s("rm -rf /x") },
            ]
        );
        assert!(steps.iter().all(|st| !matches!(st, Step::EmptyDirs { .. } | Step::RunCommand { .. })));
    }
}

#[test]
fn without_clear_nothing_is_done() {
    let config = Config {
        options: empty_options(),
        paths: vec![(s("p"), vec![s("/tmp/p")])],
        commands: vec![(s("c"), s("true"))],
    };
    let mut f = flags();
    f.clear = false;
    let t = Targets::select(&config, &f);
    assert!(!t.is_empty());
    assert_eq!(t.steps(&canon_all(&t), &f), vec![]);
}

#[test]
fn partial_failure_does_not_block_sibling() {
    // a: a file whose removal fails; b: a directory holding c, removed.
    let plan = removal_plan(&vec![EntryKind::NonDir, EntryKind::Dir]);
    assert_eq!(plan, vec![Removal::File, Removal::Tree]);
    let results = vec![DirResult::Listed(vec![false, true])];
    assert_eq!(clean_outcome(&results), Outcome::PartiallyFailed);
}

#[test]
fn removal_by_kind() {
    assert_eq!(removal(EntryKind::Dir), Removal::Tree);
    assert_eq!(removal(EntryKind::NonDir), Removal::File);
    assert_eq!(removal(EntryKind::Unknown), Removal::Fail);
    assert_eq!(removal_plan(&vec![]), vec![]);
}

#[test]
fn clean_outcomes() {
    assert_eq!(clean_outcome(&vec![]), Outcome::Succeeded);
    assert_eq!(
        clean_outcome(&vec![DirResult::Listed(vec![true, true]), DirResult::Listed(vec![])]),
        Outcome::Succeeded
    );
    assert_eq!(
        clean_outcome(&vec![DirResult::Listed(vec![true]), DirResult::Unlisted]),
        Outcome::PartiallyFailed
    );
    assert!(dir_has_failure(&DirResult::Unlisted));
    assert!(!dir_has_failure(&DirResult::Listed(vec![true])));
}

#[test]
fn end_to_end_only_from_config() {
    let config = Config {
        options: Options { disable: None, only: Some(vec![s("cache1")]), shell: None },
        paths: vec![(s("cache1"), vec![s("/tmp/x")]), (s("cache2"), vec![s("/tmp/y")])],
        commands: vec![],
    };
    let f = flags();
    let t = Targets::select(&config, &f);
    assert_eq!(t.steps(&canon_all(&t), &f), vec![Step::EmptyDirs { id: s("cache1"), dirs: vec![s("/tmp/x")] }]);
}

#[test]
fn end_to_end_nothing_to_do() {
    let t = Targets::select(&Config::default(), &flags());
    assert!(t.is_empty());
    let config = Config {
        options: Options { disable: None, only: Some(vec![s("other")]), shell: None },
        paths: vec![(s("a"), vec![s("/tmp/a")])],
        commands: vec![(s("b"), s("true"))],
    };
    let t = Targets::select(&config, &flags());
    assert!(t.is_empty());
    assert_eq!(t.steps(&canon_all(&t), &flags()), vec![]);
}

#[test]
fn end_to_end_dry_run_command() {
    let config = Config {
        options: empty_options(),
        paths: vec![],
        commands: vec![(s("cmd1"), s("rm -rf /nonexistent"))],
    };
    let mut f = flags();
    f.clear = false;
    f.dry_run = true;
    f.only = Some(vec![s("cmd1")]);
    let t = Targets::select(&config, &f);
    assert_eq!(
        t.steps(&canon_all(&t), &f),
        vec![Step::ReportCommand { id: s("cmd1"), command: s("rm -rf /nonexistent") }]
    );
}

#[test]
fn commands_run_through_shell_after_paths() {
    let config = Config {
        options: Options { disable: None, only: None, shell: Some(s("zsh")) },
        paths: vec![(s("p"), vec![s("/tmp/p")])],
        commands: vec![(s("c1"), s("echo one")), (s("c2"), s("echo two"))],
    };
    let f = flags();
    let t = Targets::select(&config, &f);
    assert_eq!(
        t.steps(&canon_all(&t), &f),
        vec![
            Step::EmptyDirs { id: s("p"), dirs: vec![s("/tmp/p")] },
            Step::RunCommand { id: s("c1"), shell: s("zsh"), command: s("echo one") },
            Step::RunCommand { id: s("c2"), shell: s("zsh"), command: s("echo two") },
        ]
    );
}

#[test]
fn shell_arguments() {
    assert_eq!(shell_args(&s("rm -rf /tmp/z")), vec![s("-c"), s("rm -rf /tmp/z")]);
}

#[test]
fn command_outcomes() {
    assert_eq!(command_outcome(None), Outcome::SpawnFailed);
    assert_eq!(command_outcome(Some(true)), Outcome::Succeeded);
    assert_eq!(command_outcome(Some(false)), Outcome::NonZeroExit);
}

#[test]
fn run_summary() {
    assert!(!any_failed(&vec![]));
    assert!(!any_failed(&vec![Outcome::Succeeded, Outcome::Skipped]));
    assert!(any_failed(&vec![Outcome::Succeeded, Outcome::NonZeroExit]));
    assert!(any_failed(&vec![Outcome::SpawnFailed]));
    assert!(any_failed(&vec![Outcome::PartiallyFailed]));
    assert!(Outcome::PartiallyFailed.failed());
    assert!(!Outcome::Skipped.failed());
}

#[test]
fn clean_subcommand_always_acts() {
    let c = Clean { dry_run: true, shell: Some(s("sh")), only: Some(vec![s("a")]), disable: None };
    let f = c.to_flags(&flags::Flags { verbose: true });
    assert!(f.clear);
    assert!(f.dry_run);
    assert!(f.verbose);
    assert_eq!(f.shell, Some(s("sh")));
    assert_eq!(f.only, Some(vec![s("a")]));
    assert_eq!(f.disable, None);
}

#[test]
fn completion_shell_from_variable() {
    assert_eq!(detect_shell("/bin/bash"), Some(CompletionShell::Bash));
    assert_eq!(detect_shell("/usr/bin/zsh"), Some(CompletionShell::Zsh));
    assert_eq!(detect_shell("/usr/local/bin/fish"), Some(CompletionShell::Fish));
    assert_eq!(detect_shell("/usr/bin/elvish"), Some(CompletionShell::Elvish));
    assert_eq!(detect_shell("powershell"), Some(CompletionShell::PowerShell));
    assert_eq!(detect_shell("/bin/sh"), None);
    assert_eq!(detect_shell(""), None);
}

#[test]
fn text_search() {
    assert!(contains_text("abcabd", "abd"));
    assert!(!contains_text("abcab", "abd"));
    assert!(contains_text("x", ""));
    assert!(!contains_text("", "x"));
}
