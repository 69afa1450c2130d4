//! Tests driving the checker state machine on modelled filesystem answers,
//! the path arithmetic, the diagnostic format, and the exit-status fold.

use symlink_lint::checker::{query_of, step, CheckState, Event, PathKind, Query};
use symlink_lint::diag::{debug_quoted, diagnostic_line};
use symlink_lint::outcome::{exit_status, CheckOutcome};
use symlink_lint::pathops::{is_absolute, join, parent_of};
use symlink_lint::source::select_paths;

/// Drive one check to completion.  `kind` answers the lstat query, `target`
/// the link read, and `exists` each existence probe (by the probed path).
fn run_check(
    path: &str,
    kind: PathKind,
    target: Option<&str>,
    exists: &dyn Fn(&str) -> bool,
) -> (CheckOutcome, Option<String>) {
    let path = path.to_string();
    let mut state = CheckState::Start;
    loop {
        let event = match query_of(&path, &state) {
            None => break,
            Some(Query::Lstat) => Event::Lstat(kind),
            Some(Query::ReadLink) => Event::Link(target.map(|t| t.to_string())),
            Some(Query::Exists(p)) => Event::Exists(exists(&p)),
        };
        state = step(&path, state, event);
    }
    match state {
        CheckState::Done { outcome, diagnostic } => (outcome, diagnostic),
        _ => panic!("check did not finish"),
    }
}

#[test]
fn regular_file_passes_without_diagnostic() {
    let (outcome, diagnostic) =
        run_check("d/good.txt", PathKind::NotSymlink, None, &|_| panic!("no probe expected"));
    assert_eq!(outcome, CheckOutcome::Pass);
    assert!(diagnostic.is_none());
}

#[test]
fn unreadable_path_errors_without_diagnostic() {
    let (outcome, diagnostic) =
        run_check("gone", PathKind::Unreadable, None, &|_| panic!("no probe expected"));
    assert_eq!(outcome, CheckOutcome::Error);
    assert!(diagnostic.is_none());
}

#[test]
fn relative_symlink_with_existing_target_passes() {
    let (outcome, diagnostic) = run_check(
        "d/link_ok",
        PathKind::Symlink,
        Some("good.txt"),
        &|p| {
            assert_eq!(p, "d/good.txt");
            true
        },
    );
    assert_eq!(outcome, CheckOutcome::Pass);
    assert!(diagnostic.is_none());
}

#[test]
fn absolute_symlink_with_existing_target_passes() {
    let (outcome, diagnostic) = run_check(
        "d/link_abs_ok",
        PathKind::Symlink,
        Some("/etc/hosts"),
        &|p| {
            assert_eq!(p, "/etc/hosts");
            true
        },
    );
    assert_eq!(outcome, CheckOutcome::Pass);
    assert!(diagnostic.is_none());
}

#[test]
fn chain_target_resolves_transitively() {
    // A -> B where B is itself a link onto an existing C: the existence
    // probe follows links, so the one probe already answers for the chain.
    let (outcome, diagnostic) =
        run_check("d/a", PathKind::Symlink, Some("b"), &|p| p == "d/b");
    assert_eq!(outcome, CheckOutcome::Pass);
    assert!(diagnostic.is_none());
}

#[test]
fn broken_relative_symlink_fails_with_one_diagnostic() {
    let (outcome, diagnostic) =
        run_check("d/link_broken", PathKind::Symlink, Some("missing.txt"), &|_| false);
    assert_eq!(outcome, CheckOutcome::Fail);
    assert_eq!(
        diagnostic.as_deref(),
        Some("\"d/link_broken\" is not a valid symlink")
    );
}

#[test]
fn broken_absolute_symlink_probes_both_resolutions() {
    // The absolute probe fails; the fallback joins the parent directory
    // with the absolute target, which yields the absolute target again.
    let probed: std::cell::RefCell<Vec<String>> = std::cell::RefCell::new(Vec::new());
    let (outcome, diagnostic) = run_check(
        "/x/link",
        PathKind::Symlink,
        Some("/nope"),
        &|p| {
            probed.borrow_mut().push(p.to_string());
            false
        },
    );
    assert_eq!(outcome, CheckOutcome::Fail);
    assert_eq!(
        diagnostic.as_deref(),
        Some("\"/x/link\" is not a valid symlink")
    );
    assert_eq!(
        probed.into_inner(),
        vec!["/nope".to_string(), "/nope".to_string()]
    );
}

#[test]
fn unreadable_link_target_fails() {
    let (outcome, diagnostic) = run_check("d/sneaky", PathKind::Symlink, None, &|_| {
        panic!("no probe expected")
    });
    assert_eq!(outcome, CheckOutcome::Fail);
    assert_eq!(
        diagnostic.as_deref(),
        Some("\"d/sneaky\" is not a valid symlink")
    );
}

#[test]
fn exit_status_is_or_of_not_pass() {
    let all_good = vec![CheckOutcome::Pass, CheckOutcome::Pass, CheckOutcome::Pass];
    assert_eq!(exit_status(&all_good), 0);
    let one_fail = vec![CheckOutcome::Pass, CheckOutcome::Fail, CheckOutcome::Pass];
    assert_eq!(exit_status(&one_fail), 1);
    let one_error = vec![CheckOutcome::Error];
    assert_eq!(exit_status(&one_error), 1);
    let empty: Vec<CheckOutcome> = Vec::new();
    assert_eq!(exit_status(&empty), 0);
}

#[test]
fn explicit_args_are_checked_exactly() {
    let args = vec!["only/this".to_string()];
    let walked = vec!["other/broken_link".to_string(), "other/file".to_string()];
    let picked = select_paths(args.clone(), walked);
    assert_eq!(picked, args);
}

#[test]
fn empty_args_fall_back_to_the_walk() {
    let walked = vec!["a".to_string(), "b".to_string()];
    let picked = select_paths(Vec::new(), walked.clone());
    assert_eq!(picked, walked);
}

/// The filesystem of the concrete scenario: `good.txt` a regular file,
/// `link_ok` -> `good.txt`, `link_abs_ok` -> `/etc/hosts`, and optionally
/// `link_broken` -> `missing.txt`.
fn scenario_run(with_broken: bool) -> (u8, Vec<String>) {
    let exists = |p: &str| p == "d/good.txt" || p == "/etc/hosts";
    let mut checks: Vec<(&str, PathKind, Option<&str>)> = vec![
        ("d/good.txt", PathKind::NotSymlink, None),
        ("d/link_ok", PathKind::Symlink, Some("good.txt")),
        ("d/link_abs_ok", PathKind::Symlink, Some("/etc/hosts")),
    ];
    if with_broken {
        checks.push(("d/link_broken", PathKind::Symlink, Some("missing.txt")));
    }
    let mut outcomes: Vec<CheckOutcome> = Vec::new();
    let mut output: Vec<String> = Vec::new();
    for (path, kind, target) in checks {
        let (outcome, diagnostic) = run_check(path, kind, target, &exists);
        outcomes.push(outcome);
        if let Some(line) = diagnostic {
            output.push(line);
        }
    }
    (exit_status(&outcomes), output)
}

#[test]
fn scenario_with_broken_link_exits_one() {
    let (code, output) = scenario_run(true);
    assert_eq!(code, 1);
    assert_eq!(output, vec!["\"d/link_broken\" is not a valid symlink".to_string()]);
}

#[test]
fn scenario_without_broken_link_exits_zero() {
    let (code, output) = scenario_run(false);
    assert_eq!(code, 0);
    assert!(output.is_empty());
}

#[test]
fn rerun_on_unchanged_tree_is_identical() {
    let first = scenario_run(true);
    let second = scenario_run(true);
    assert_eq!(first, second);
    let first_clean = scenario_run(false);
    let second_clean = scenario_run(false);
    assert_eq!(first_clean, second_clean);
}

#[test]
fn parent_of_strips_the_last_component() {
    assert_eq!(parent_of(&"a/b/c".to_string()), "a/b");
    assert_eq!(parent_of(&"plain".to_string()), "");
    assert_eq!(parent_of(&"/top".to_string()), "/");
    assert_eq!(parent_of(&"./x".to_string()), ".");
}

#[test]
fn join_inserts_one_separator() {
    assert_eq!(join(&"a/b".to_string(), &"c".to_string()), "a/b/c");
    assert_eq!(join(&"a/".to_string(), &"c".to_string()), "a/c");
    assert_eq!(join(&"".to_string(), &"c".to_string()), "c");
    assert_eq!(join(&"a".to_string(), &"/abs".to_string()), "/abs");
}

#[test]
fn absolute_paths_start_with_the_separator() {
    assert!(is_absolute(&"/etc".to_string()));
    assert!(!is_absolute(&"etc".to_string()));
    assert!(!is_absolute(&"".to_string()));
}

#[test]
fn diagnostic_quotes_and_escapes_the_path() {
    assert_eq!(
        diagnostic_line(&"d/link_broken".to_string()),
        "\"d/link_broken\" is not a valid symlink"
    );
    assert_eq!(debug_quoted(&"a\"b".to_string()), "\"a\\\"b\"");
    assert_eq!(debug_quoted(&"a\\b".to_string()), "\"a\\\\b\"");
    assert_eq!(debug_quoted(&"a\nb".to_string()), "\"a\\nb\"");
}
