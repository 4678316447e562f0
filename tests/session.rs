use gh_arm::command::{Invocation, Outcome, Program, Streams};
use gh_arm::session::{
    exit_code, has_help_flag, phase_after_abbreviated, usage, Action, Phase, GetPreviousBranchError, ProcessPullRequestError,
    Query, RunError, Session, Stage,
};

fn strings(xs: &[&str]) -> Vec<String> {
    xs.iter().map(|s| s.to_string()).collect()
}

fn ok() -> Outcome<Vec<u8>> {
    Outcome::Exited(Some(0), Vec::new())
}

fn printed(code: i32, text: &str) -> Outcome<Vec<u8>> {
    Outcome::Exited(Some(code), text.as_bytes().to_vec())
}

fn ready(id: &str) -> Action<String> {
    Action::Run(Invocation::Ready(Some(id.to_string())))
}

fn merge(id: &str) -> Action<String> {
    Action::Run(Invocation::AutoMerge(Some(id.to_string())))
}

/// Feeds the outcomes in order and collects every command asked for.
fn drive(args: &[&str], outcomes: Vec<Outcome<Vec<u8>>>) -> (Vec<Invocation<String>>, Session) {
    let mut s = Session::new(strings(args));
    let mut asked = Vec::new();
    for o in outcomes {
        match s.action() {
            Action::Run(inv) => asked.push(inv),
            _ => break,
        }
        s.feed(o);
    }
    (asked, s)
}

#[test]
fn help_flag_anywhere_shows_usage() {
    for args in [vec!["--help"], vec!["12", "-h"], vec!["-", "a", "--help", "b"]] {
        let s = Session::new(strings(&args));
        assert_eq!(s.action(), Action::ShowUsage);
        assert_eq!(s.exit_code(), Some(0));
    }
}

#[test]
fn help_session_does_not_move() {
    let (asked, s) = drive(&["x", "--help"], vec![ok(), ok()]);
    assert!(asked.is_empty());
    assert_eq!(s.action(), Action::ShowUsage);
    assert_eq!(s.exit_code(), Some(0));
}

#[test]
fn help_flag_detection() {
    assert!(has_help_flag(&strings(&["a", "-h"])));
    assert!(has_help_flag(&strings(&["--help"])));
    assert!(!has_help_flag(&strings(&["-", "--helpful", "h"])));
    assert!(!has_help_flag(&Vec::new()));
}

#[test]
fn no_arguments_processes_current_branch_once() {
    let (asked, s) = drive(&[], vec![ok(), ok(), ok()]);
    assert_eq!(
        asked,
        vec![Invocation::Ready(None), Invocation::AutoMerge(None)]
    );
    assert_eq!(s.action(), Action::Exit(0));
    assert_eq!(s.exit_code(), Some(0));
}

#[test]
fn no_arguments_ready_fails_skips_merge() {
    let (asked, s) = drive(&[], vec![printed(1, ""), ok()]);
    assert_eq!(asked, vec![Invocation::Ready(None)]);
    assert_eq!(s.action(), Action::Exit(1));
}

#[test]
fn identifiers_processed_in_order() {
    let (asked, s) = drive(&["12", "https://example.com/pull/3", "feature"], vec![ok(); 7]);
    let expected: Vec<Action<String>> = vec![
        ready("12"),
        merge("12"),
        ready("https://example.com/pull/3"),
        merge("https://example.com/pull/3"),
        ready("feature"),
        merge("feature"),
    ];
    let got: Vec<Action<String>> = asked.into_iter().map(Action::Run).collect();
    assert_eq!(got, expected);
    assert_eq!(s.exit_code(), Some(0));
}

#[test]
fn first_failure_stops_the_run() {
    let (asked, s) = drive(&["1", "2"], vec![ok(), printed(4, ""), ok(), ok()]);
    assert_eq!(asked.len(), 2);
    assert_eq!(s.exit_code(), Some(4));
    assert_eq!(
        s.error(),
        Some(RunError::PullRequest(ProcessPullRequestError::ExecutionFailed(Stage::Merge, Some(4))))
    );
}

#[test]
fn ready_exit_code_seven_propagates() {
    let (asked, s) = drive(&["42"], vec![printed(7, ""), ok()]);
    assert_eq!(asked, vec![Invocation::Ready(Some("42".to_string()))]);
    assert_eq!(s.action(), Action::Exit(7));
    assert_eq!(s.exit_code(), Some(7));
}

#[test]
fn signal_ended_command_exits_with_one() {
    let (_, s) = drive(&["42"], vec![Outcome::Exited(None, Vec::new())]);
    assert_eq!(s.exit_code(), Some(1));
    assert_eq!(
        s.error().unwrap().message(),
        "command exited unsuccessfully: ready command exited with code -1"
    );
}

#[test]
fn hosting_tool_not_launched() {
    let (_, s) = drive(&["42"], vec![Outcome::NotLaunched]);
    assert_eq!(s.exit_code(), Some(1));
    let e = s.error().unwrap();
    assert_eq!(e, RunError::PullRequest(ProcessPullRequestError::CommandFailed(Stage::Ready)));
    assert_eq!(e.message(), "unable to execute command: ready command");
}

#[test]
fn previous_checkout_missing() {
    let (asked, s) = drive(&["-", "7"], vec![printed(1, ""), ok(), ok()]);
    assert_eq!(asked, vec![Invocation::VerifyPrevious]);
    assert_eq!(s.exit_code(), Some(1));
    let e = s.error().unwrap();
    assert_eq!(e, RunError::Previous(GetPreviousBranchError::NoPreviousCheckout));
    assert_eq!(
        e.message(),
        "unable to resolve '-' branch identifier: no previous checkout recorded"
    );
}

#[test]
fn version_control_not_launched() {
    let (_, s) = drive(&["-"], vec![Outcome::NotLaunched]);
    let e = s.error().unwrap();
    assert_eq!(e, RunError::Previous(GetPreviousBranchError::CommandFailed(Query::Verify)));
    assert_eq!(e.message(), "unable to execute command: rev-parse --verify @{-1}");
    let (_, s) = drive(&["-"], vec![ok(), Outcome::NotLaunched]);
    assert_eq!(
        s.error().unwrap().message(),
        "unable to execute command: rev-parse --abbrev-ref @{-1}"
    );
}

#[test]
fn previous_branch_by_name() {
    let (asked, s) = drive(&["-"], vec![ok(), printed(0, "  feature/login\n"), ok(), ok()]);
    assert_eq!(
        asked,
        vec![
            Invocation::VerifyPrevious,
            Invocation::AbbrevPrevious,
            Invocation::Ready(Some("feature/login".to_string())),
            Invocation::AutoMerge(Some("feature/login".to_string())),
        ]
    );
    assert_eq!(s.exit_code(), Some(0));
}

#[test]
fn detached_previous_checkout_uses_readable_name() {
    let (asked, _) = drive(&["-"], vec![ok(), printed(0, "HEAD\n"), printed(0, "main~2\n"), ok()]);
    assert_eq!(asked[2], Invocation::DescribePrevious);
    assert_eq!(asked[3], Invocation::Ready(Some("main~2".to_string())));
}

#[test]
fn detached_previous_checkout_falls_back_to_head() {
    let (asked, _) = drive(&["-"], vec![ok(), printed(0, "HEAD\n"), printed(128, "fatal\n"), ok()]);
    assert_eq!(asked[3], Invocation::Ready(Some("HEAD".to_string())));
    let (asked, _) = drive(&["-"], vec![ok(), printed(0, "HEAD\n"), Outcome::NotLaunched, ok()]);
    assert_eq!(asked[3], Invocation::Ready(Some("HEAD".to_string())));
}

#[test]
fn invalid_utf8_in_branch_name_is_replaced() {
    let out = Outcome::Exited(Some(0), vec![b'a', 0xff, b'b', b'\n']);
    let (asked, _) = drive(&["-"], vec![ok(), out, ok()]);
    assert_eq!(asked[2], Invocation::Ready(Some("a\u{fffd}b".to_string())));
}

#[test]
fn running_twice_on_a_finished_pull_request_is_no_error() {
    for _ in 0..2 {
        let (asked, s) = drive(&["9", "-"], vec![ok(); 12]);
        assert_eq!(asked.len(), 6);
        assert_eq!(s.exit_code(), Some(0));
    }
}

#[test]
fn command_lines() {
    let v = Invocation::<String>::VerifyPrevious;
    assert_eq!(v.program(), Program::Git);
    assert_eq!(v.program_name(), "git");
    assert_eq!(v.arguments(), strings(&["rev-parse", "-q", "--verify", "@{-1}"]));
    assert_eq!(v.streams(), Streams::Discard);
    let a = Invocation::<String>::AbbrevPrevious;
    assert_eq!(a.arguments(), strings(&["rev-parse", "--abbrev-ref", "@{-1}"]));
    assert_eq!(a.streams(), Streams::Capture);
    let d = Invocation::<String>::DescribePrevious;
    assert_eq!(d.arguments(), strings(&["name-rev", "--name-only", "--no-undefined", "@{-1}"]));
    let r = Invocation::Ready(Some("12".to_string()));
    assert_eq!(r.program_name(), "gh");
    assert_eq!(r.arguments(), strings(&["pr", "ready", "12"]));
    assert_eq!(r.streams(), Streams::Inherit);
    let m = Invocation::<String>::AutoMerge(None);
    assert_eq!(m.program(), Program::Gh);
    assert_eq!(m.arguments(), strings(&["pr", "merge", "--auto", "--merge"]));
}

#[test]
fn exit_codes() {
    assert_eq!(exit_code(&Ok(())), 0);
    assert_eq!(
        exit_code(&Err(RunError::PullRequest(ProcessPullRequestError::ExecutionFailed(Stage::Ready, Some(7))))),
        7
    );
    assert_eq!(
        exit_code(&Err(RunError::PullRequest(ProcessPullRequestError::ExecutionFailed(Stage::Ready, Some(-3))))),
        -3
    );
    assert_eq!(exit_code(&Err(RunError::Previous(GetPreviousBranchError::NoPreviousCheckout))), 1);
}

#[test]
fn execution_failure_messages() {
    let e = RunError::PullRequest(ProcessPullRequestError::ExecutionFailed(Stage::Merge, Some(127)));
    assert_eq!(e.message(), "command exited unsuccessfully: merge command exited with code 127");
    let e = RunError::PullRequest(ProcessPullRequestError::ExecutionFailed(Stage::Ready, Some(-12)));
    assert_eq!(e.message(), "command exited unsuccessfully: ready command exited with code -12");
}

#[test]
fn usage_text() {
    let u = usage();
    assert_eq!(u.len(), 9);
    assert_eq!(u[1], "Usage:");
    assert_eq!(u[2], "  gh arm [<number> | <url> | <branch> | -]...");
    assert_eq!(u[8], "  -           Previous branch (like git checkout -)");
}

#[test]
fn abbreviated_name_decides_next_phase() {
    assert_eq!(phase_after_abbreviated("HEAD".to_string()), Phase::Describing("HEAD".to_string()));
    assert_eq!(
        phase_after_abbreviated("main".to_string()),
        Phase::MarkingReady(Some("main".to_string()))
    );
}
