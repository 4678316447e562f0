use vstd::prelude::*;
use crate::command::{Invocation, Outcome, option_view, succeeded};
use crate::text::{decimal, decimal_text, decode_lossy, lossy_utf8, trim, trimmed};

verus! {

/// Which query about the previous checkout could not be run.
#[derive(Clone, Copy, Debug, PartialEq, Eq, Structural)]
pub enum Query {
    Verify,
    Abbrev,
}

/// Why `-` could not be turned into a branch name.
#[derive(Clone, Copy, Debug, PartialEq, Eq, Structural)]
pub enum GetPreviousBranchError {
    /// The version-control tool could not be started.
    CommandFailed(Query),
    /// No previous checkout is recorded.
    NoPreviousCheckout,
}

/// Which of the two changes to the pull request went wrong.
#[derive(Clone, Copy, Debug, PartialEq, Eq, Structural)]
pub enum Stage {
    Ready,
    Merge,
}

/// Why a pull request could not be processed.
#[derive(Clone, Copy, Debug, PartialEq, Eq, Structural)]
pub enum ProcessPullRequestError {
    /// The hosting tool could not be started.
    CommandFailed(Stage),
    /// The hosting tool ran and failed, with this exit code (none when a
    /// signal ended it).
    ExecutionFailed(Stage, Option<i32>),
}

/// Why a run stopped before all identifiers were processed.
#[derive(Clone, Copy, Debug, PartialEq, Eq, Structural)]
pub enum RunError {
    Previous(GetPreviousBranchError),
    PullRequest(ProcessPullRequestError),
}

/// Where a session stands. `S` is the text type, as for [`Invocation`].
#[derive(Debug, PartialEq, Eq)]
pub enum Phase<S> {
    /// Help was asked for: only the usage text is shown.
    Help,
    /// Waiting for the check that a previous checkout exists.
    Verifying,
    /// Waiting for the abbreviated name of the previous checkout.
    Abbreviating,
    /// Waiting for a readable name; the abbreviated one is kept as a fallback.
    Describing(S),
    /// Waiting for the pull request to be marked ready.
    MarkingReady(Option<S>),
    /// Waiting for auto-merge to be enabled.
    EnablingAutoMerge(Option<S>),
    /// The run is over, successfully or with the first error met.
    Done(Result<(), RunError>),
}

/// What the driver does next.
#[derive(Clone, Debug, PartialEq, Eq)]
pub enum Action<S> {
    /// Runs the command and feeds its outcome back.
    Run(Invocation<S>),
    /// Prints the usage text and exits with code 0.
    ShowUsage,
    /// Exits with this code.
    Exit(i32),
}

/// The mathematical state of a session.
pub struct SessionModel {
    pub args: Seq<Seq<char>>,
    pub current: nat,
    pub phase: Phase<Seq<char>>,
}

/// One run of the workflow over the identifiers given on the command line.
///
/// Identifiers are processed in order, each one completely before the next,
/// and the run stops at the first failure.
pub struct Session {
    args: Vec<String>,
    current: usize,
    phase: Phase<String>,
}

pub open spec fn phase_view(p: Phase<String>) -> Phase<Seq<char>> {
    match p {
        Phase::Help => Phase::Help,
        Phase::Verifying => Phase::Verifying,
        Phase::Abbreviating => Phase::Abbreviating,
        Phase::Describing(s) => Phase::Describing(s@),
        Phase::MarkingReady(id) => Phase::MarkingReady(option_view(id)),
        Phase::EnablingAutoMerge(id) => Phase::EnablingAutoMerge(option_view(id)),
        Phase::Done(r) => Phase::Done(r),
    }
}

impl View for Session {
    type V = SessionModel;

    closed spec fn view(&self) -> SessionModel {
        SessionModel { args: self.args.deep_view(), current: self.current as nat, phase: phase_view(self.phase) }
    }
}

impl View for Action<String> {
    type V = Action<Seq<char>>;

    open spec fn view(&self) -> Action<Seq<char>> {
        match self {
            Action::Run(inv) => Action::Run(inv@),
            Action::ShowUsage => Action::ShowUsage,
            Action::Exit(c) => Action::Exit(*c),
        }
    }
}

/// An argument that asks for help.
pub open spec fn is_help(a: Seq<char>) -> bool {
    a == "-h"@ || a == "--help"@
}

/// The identifier that stands for the previous checkout.
pub open spec fn is_previous(a: Seq<char>) -> bool {
    a == "-"@
}

pub open spec fn asks_help(args: Seq<Seq<char>>) -> bool {
    exists|i: int| 0 <= i < args.len() && is_help(#[trigger] args[i])
}

/// The state in which the identifier at `i` is taken up, or the run ends
/// when there is none left.
pub open spec fn entering(args: Seq<Seq<char>>, i: nat) -> SessionModel {
    SessionModel {
        args,
        current: i,
        phase: if i >= args.len() {
            Phase::Done(Ok(()))
        } else if is_previous(args[i as int]) {
            Phase::Verifying
        } else {
            Phase::MarkingReady(Some(args[i as int]))
        },
    }
}

/// The state of a new session: help wins wherever it stands; with no
/// identifier the pull request of the current branch is processed once.
pub open spec fn initial(args: Seq<Seq<char>>) -> SessionModel {
    if asks_help(args) {
        SessionModel { args, current: 0, phase: Phase::Help }
    } else if args.len() == 0 {
        SessionModel { args, current: 0, phase: Phase::MarkingReady(None) }
    } else {
        entering(args, 0)
    }
}

/// The name that a query wrote on its standard output.
pub open spec fn printed_name(out: Seq<u8>) -> Seq<char> {
    trimmed(lossy_utf8(out))
}

pub open spec fn stop(m: SessionModel, e: RunError) -> SessionModel {
    SessionModel { phase: Phase::Done(Err(e)), ..m }
}

pub open spec fn goto(m: SessionModel, p: Phase<Seq<char>>) -> SessionModel {
    SessionModel { phase: p, ..m }
}

/// Where the abbreviated name of the previous checkout leads: `HEAD` means it
/// was detached, and a readable name is asked for.
pub open spec fn after_abbreviated(name: Seq<char>) -> Phase<Seq<char>> {
    if name == "HEAD"@ {
        Phase::Describing(name)
    } else {
        Phase::MarkingReady(Some(name))
    }
}

/// How an outcome moves the resolution of `-` on: a detached previous
/// checkout gets a readable name where one can be had, else keeps its raw name.
pub open spec fn previous_branch_step(p: Phase<Seq<char>>, o: Outcome<Seq<u8>>) -> Result<Phase<Seq<char>>, GetPreviousBranchError> {
    match p {
        Phase::Verifying => match o {
            Outcome::NotLaunched => Err(GetPreviousBranchError::CommandFailed(Query::Verify)),
            Outcome::Exited(_, _) => if succeeded(o) {
                Ok(Phase::Abbreviating)
            } else {
                Err(GetPreviousBranchError::NoPreviousCheckout)
            },
        },
        Phase::Abbreviating => match o {
            Outcome::NotLaunched => Err(GetPreviousBranchError::CommandFailed(Query::Abbrev)),
            Outcome::Exited(_, out) => Ok(after_abbreviated(printed_name(out))),
        },
        Phase::Describing(raw) => match o {
            Outcome::Exited(Some(0i32), out) => Ok(Phase::MarkingReady(Some(printed_name(out)))),
            _ => Ok(Phase::MarkingReady(Some(raw))),
        },
        _ => Ok(p),
    }
}

/// How an outcome moves the processing of a pull request on; `Ok(None)` when
/// auto-merge was enabled and the pull request is done.
pub open spec fn pull_request_step(p: Phase<Seq<char>>, o: Outcome<Seq<u8>>) -> Result<Option<Phase<Seq<char>>>, ProcessPullRequestError> {
    let stage = if p is MarkingReady { Stage::Ready } else { Stage::Merge };
    match o {
        Outcome::NotLaunched => Err(ProcessPullRequestError::CommandFailed(stage)),
        Outcome::Exited(code, _) => if !succeeded(o) {
            Err(ProcessPullRequestError::ExecutionFailed(stage, code))
        } else {
            match p {
                Phase::MarkingReady(id) => Ok(Some(Phase::EnablingAutoMerge(id))),
                _ => Ok(None),
            }
        },
    }
}

/// How an outcome moves a session on.
#[verifier::opaque]
pub open spec fn step(m: SessionModel, o: Outcome<Seq<u8>>) -> SessionModel {
    match m.phase {
        Phase::Verifying | Phase::Abbreviating | Phase::Describing(_) => match previous_branch_step(m.phase, o) {
            Ok(p) => goto(m, p),
            Err(e) => stop(m, RunError::Previous(e)),
        },
        Phase::MarkingReady(_) | Phase::EnablingAutoMerge(_) => match pull_request_step(m.phase, o) {
            Ok(Some(p)) => goto(m, p),
            Ok(None) => entering(m.args, m.current + 1),
            Err(e) => stop(m, RunError::PullRequest(e)),
        },
        _ => m,
    }
}

/// The process exit code of a finished run: 0 on success; the hosting
/// tool's own code where it ran and failed with one; 1 otherwise.
pub open spec fn exit_code_of(r: Result<(), RunError>) -> i32 {
    match r {
        Ok(()) => 0,
        Err(RunError::PullRequest(ProcessPullRequestError::ExecutionFailed(_, Some(c)))) => if c != 0 { c } else { 1 },
        Err(_) => 1,
    }
}

/// What a session in state `m` asks the driver to do.
pub open spec fn action_of(m: SessionModel) -> Action<Seq<char>> {
    match m.phase {
        Phase::Help => Action::ShowUsage,
        Phase::Verifying => Action::Run(Invocation::VerifyPrevious),
        Phase::Abbreviating => Action::Run(Invocation::AbbrevPrevious),
        Phase::Describing(_) => Action::Run(Invocation::DescribePrevious),
        Phase::MarkingReady(id) => Action::Run(Invocation::Ready(id)),
        Phase::EnablingAutoMerge(id) => Action::Run(Invocation::AutoMerge(id)),
        Phase::Done(r) => Action::Exit(exit_code_of(r)),
    }
}

/// The exit code of a session, once it has one: 0 after help.
pub open spec fn exit_code_spec(m: SessionModel) -> Option<i32> {
    match m.phase {
        Phase::Help => Some(0i32),
        Phase::Done(r) => Some(exit_code_of(r)),
        _ => None,
    }
}

/// The states that a session can be in: while it runs, the identifier being
/// processed exists, but where there are none and the current branch is
/// processed.
pub open spec fn well_formed(m: SessionModel) -> bool {
    match m.phase {
        Phase::Help | Phase::Done(_) => true,
        _ => m.current < m.args.len() || (m.args.len() == 0 && m.current == 0),
    }
}

/// The lines of the usage text.
pub open spec fn usage_lines() -> Seq<Seq<char>> {
    seq![
        ""@,
        "Usage:"@,
        "  gh arm [<number> | <url> | <branch> | -]..."@,
        ""@,
        "Options:"@,
        "  <number>    PR number to merge"@,
        "  <url>       PR URL to merge"@,
        "  <branch>    Branch name to merge"@,
        "  -           Previous branch (like git checkout -)"@,
    ]
}

/// The usage text, one line for each element.
pub fn usage() -> (r: Vec<String>)
    ensures
        r.deep_view() == usage_lines(),
{
    let mut v: Vec<String> = Vec::new();
    v.push(String::from_str(""));
    v.push(String::from_str("Usage:"));
    v.push(String::from_str("  gh arm [<number> | <url> | <branch> | -]..."));
    v.push(String::from_str(""));
    v.push(String::from_str("Options:"));
    v.push(String::from_str("  <number>    PR number to merge"));
    v.push(String::from_str("  <url>       PR URL to merge"));
    v.push(String::from_str("  <branch>    Branch name to merge"));
    v.push(String::from_str("  -           Previous branch (like git checkout -)"));
    assert(v.deep_view() =~= usage_lines());
    v
}

/// Whether an argument asks for help.
pub fn is_help_flag(a: &String) -> (r: bool)
    ensures
        r == is_help(a@),
{
    let h = String::from_str("-h");
    let long = String::from_str("--help");
    *a == h || *a == long
}

/// Whether any argument asks for help.
pub fn has_help_flag(args: &Vec<String>) -> (r: bool)
    ensures
        r == asks_help(args.deep_view()),
{
    let ghost dv = args.deep_view();
    let mut i: usize = 0;
    while i < args.len()
        invariant
            0 <= i <= args.len(),
            dv == args.deep_view(),
            forall|j: int| 0 <= j < i ==> !is_help(#[trigger] dv[j]),
        decreases args.len() - i,
    {
        if is_help_flag(&args[i]) {
            assert(is_help(dv[i as int]));
            return true;
        }
        i = i + 1;
    }
    false
}

/// The phase in which the identifier at `i` is taken up.
fn entering_phase(args: &Vec<String>, i: usize) -> (r: Phase<String>)
    ensures
        phase_view(r) == entering(args.deep_view(), i as nat).phase,
{
    if i >= args.len() {
        Phase::Done(Ok(()))
    } else {
        let dash = String::from_str("-");
        if args[i] == dash {
            Phase::Verifying
        } else {
            Phase::MarkingReady(Some(args[i].clone()))
        }
    }
}

/// Decodes what a query wrote into a branch name.
fn name_from_output(out: &Vec<u8>) -> (r: String)
    ensures
        r@ == printed_name(out@),
{
    let text = decode_lossy(out);
    trim(text.as_str())
}

/// Where the abbreviated name of the previous checkout leads.
pub fn phase_after_abbreviated(name: String) -> (r: Phase<String>)
    ensures
        phase_view(r) == after_abbreviated(name@),
{
    let head = String::from_str("HEAD");
    if name == head {
        Phase::Describing(name)
    } else {
        Phase::MarkingReady(Some(name))
    }
}

/// The next phase while `-` is being resolved to the previous branch. A
/// detached previous checkout gets a readable name where one can be had, else
/// keeps its raw name.
fn get_previous_branch(phase: &Phase<String>, outcome: Outcome<Vec<u8>>) -> (r: Result<Phase<String>, GetPreviousBranchError>)
    requires
        phase is Verifying || phase is Abbreviating || phase is Describing,
    ensures
        match r {
            Ok(p) => previous_branch_step(phase_view(*phase), outcome@) == Ok::<Phase<Seq<char>>, GetPreviousBranchError>(phase_view(p)),
            Err(e) => previous_branch_step(phase_view(*phase), outcome@) == Err::<Phase<Seq<char>>, GetPreviousBranchError>(e),
        },
{
    match phase {
        Phase::Verifying => match outcome {
            Outcome::NotLaunched => Err(GetPreviousBranchError::CommandFailed(Query::Verify)),
            Outcome::Exited(code, _) => {
                if code == Some(0i32) {
                    Ok(Phase::Abbreviating)
                } else {
                    Err(GetPreviousBranchError::NoPreviousCheckout)
                }
            },
        },
        Phase::Abbreviating => match outcome {
            Outcome::NotLaunched => Err(GetPreviousBranchError::CommandFailed(Query::Abbrev)),
            Outcome::Exited(_, out) => Ok(phase_after_abbreviated(name_from_output(&out))),
        },
        Phase::Describing(raw) => match outcome {
            Outcome::Exited(Some(0i32), out) => Ok(Phase::MarkingReady(Some(name_from_output(&out)))),
            _ => Ok(Phase::MarkingReady(Some(raw.clone()))),
        },
        _ => Err(GetPreviousBranchError::NoPreviousCheckout),
    }
}

/// The next phase while a pull request is being processed: auto-merge only
/// after the pull request was marked ready; after auto-merge, the next
/// identifier.
fn process_pull_request(
    phase: Phase<String>,
    outcome: &Outcome<Vec<u8>>,
) -> (r: Result<Option<Phase<String>>, ProcessPullRequestError>)
    requires
        phase is MarkingReady || phase is EnablingAutoMerge,
    ensures
        match r {
            Ok(Some(p)) => pull_request_step(phase_view(phase), outcome@) == Ok::<Option<Phase<Seq<char>>>, ProcessPullRequestError>(Some(phase_view(p))),
            Ok(None) => pull_request_step(phase_view(phase), outcome@) == Ok::<Option<Phase<Seq<char>>>, ProcessPullRequestError>(None),
            Err(e) => pull_request_step(phase_view(phase), outcome@) == Err::<Option<Phase<Seq<char>>>, ProcessPullRequestError>(e),
        },
{
    let ready = matches!(phase, Phase::MarkingReady(_));
    let stage = if ready { Stage::Ready } else { Stage::Merge };
    match outcome {
        Outcome::NotLaunched => Err(ProcessPullRequestError::CommandFailed(stage)),
        Outcome::Exited(code, _) => {
            if *code != Some(0i32) {
                Err(ProcessPullRequestError::ExecutionFailed(stage, *code))
            } else {
                match phase {
                    Phase::MarkingReady(id) => Ok(Some(Phase::EnablingAutoMerge(id))),
                    _ => Ok(None),
                }
            }
        },
    }
}

/// The process exit code of a finished run.
pub fn exit_code(r: &Result<(), RunError>) -> (c: i32)
    ensures
        c == exit_code_of(*r),
{
    match r {
        Ok(()) => 0,
        Err(RunError::PullRequest(ProcessPullRequestError::ExecutionFailed(_, Some(c)))) => if *c != 0 { *c } else { 1 },
        Err(_) => 1,
    }
}

impl Session {
    #[verifier::type_invariant]
    spec fn inv(&self) -> bool {
        well_formed(self@)
    }

    /// Starts a run over the command-line arguments that follow the
    /// program's name.
    pub fn new(args: Vec<String>) -> (r: Session)
        ensures
            r@ == initial(args.deep_view()),
    {
        if has_help_flag(&args) {
            Session { args, current: 0, phase: Phase::Help }
        } else if args.len() == 0 {
            Session { args, current: 0, phase: Phase::MarkingReady(None) }
        } else {
            let phase = entering_phase(&args, 0);
            Session { args, current: 0, phase }
        }
    }

    /// What the driver does next.
    pub fn action(&self) -> (r: Action<String>)
        ensures
            r@ == action_of(self@),
    {
        match &self.phase {
            Phase::Help => Action::ShowUsage,
            Phase::Verifying => Action::Run(Invocation::VerifyPrevious),
            Phase::Abbreviating => Action::Run(Invocation::AbbrevPrevious),
            Phase::Describing(_) => Action::Run(Invocation::DescribePrevious),
            Phase::MarkingReady(id) => Action::Run(Invocation::Ready(id.clone())),
            Phase::EnablingAutoMerge(id) => Action::Run(Invocation::AutoMerge(id.clone())),
            Phase::Done(r) => Action::Exit(exit_code(r)),
        }
    }

    /// Feeds back the outcome of the command that [`Session::action`] asked
    /// for. A session that asks for no command does not move.
    pub fn feed(&mut self, outcome: Outcome<Vec<u8>>)
        ensures
            final(self)@ == step(old(self)@, outcome@),
    {
        proof {
            use_type_invariant(&*self);
            reveal(step);
        }
        assert(self.args.deep_view().len() == self.args.len());
        let mut phase = Phase::Help;
        core::mem::swap(&mut phase, &mut self.phase);
        let next = match phase {
            Phase::Verifying | Phase::Abbreviating | Phase::Describing(_) => {
                match get_previous_branch(&phase, outcome) {
                    Ok(p) => p,
                    Err(e) => Phase::Done(Err(RunError::Previous(e))),
                }
            },
            Phase::MarkingReady(_) | Phase::EnablingAutoMerge(_) => {
                match process_pull_request(phase, &outcome) {
                    Ok(Some(p)) => p,
                    Ok(None) => {
                        self.current = self.current + 1;
                        entering_phase(&self.args, self.current)
                    },
                    Err(e) => Phase::Done(Err(RunError::PullRequest(e))),
                }
            },
            other => other,
        };
        self.phase = next;
    }

    /// The error that stopped the run, once it has stopped on one.
    pub fn error(&self) -> (r: Option<RunError>)
        ensures
            r == match self@.phase {
                Phase::Done(Err(e)) => Some(e),
                _ => None,
            },
    {
        match &self.phase {
            Phase::Done(Err(e)) => Some(*e),
            _ => None,
        }
    }

    /// The exit code, once the run is over or help was shown.
    pub fn exit_code(&self) -> (r: Option<i32>)
        ensures
            r == exit_code_spec(self@),
    {
        match &self.phase {
            Phase::Help => Some(0i32),
            Phase::Done(r) => Some(exit_code(r)),
            _ => None,
        }
    }
}

/// The name of a hosting-tool command, as messages give it.
pub open spec fn stage_text(s: Stage) -> Seq<char> {
    match s {
        Stage::Ready => "ready command"@,
        Stage::Merge => "merge command"@,
    }
}

/// What the user is told of a failed run.
pub open spec fn message_of(e: RunError) -> Seq<char> {
    match e {
        RunError::Previous(GetPreviousBranchError::CommandFailed(Query::Verify)) =>
            "unable to execute command: rev-parse --verify @{-1}"@,
        RunError::Previous(GetPreviousBranchError::CommandFailed(Query::Abbrev)) =>
            "unable to execute command: rev-parse --abbrev-ref @{-1}"@,
        RunError::Previous(GetPreviousBranchError::NoPreviousCheckout) =>
            "unable to resolve '-' branch identifier: no previous checkout recorded"@,
        RunError::PullRequest(ProcessPullRequestError::CommandFailed(s)) =>
            "unable to execute command: "@ + stage_text(s),
        RunError::PullRequest(ProcessPullRequestError::ExecutionFailed(s, code)) =>
            "command exited unsuccessfully: "@ + stage_text(s) + " exited with code "@
                + decimal(match code { Some(c) => c as int, None => -1 }),
    }
}

fn stage_name(s: Stage) -> (r: String)
    ensures
        r@ == stage_text(s),
{
    match s {
        Stage::Ready => String::from_str("ready command"),
        Stage::Merge => String::from_str("merge command"),
    }
}

impl RunError {
    /// The message that tells the user why the run stopped.
    pub fn message(&self) -> (r: String)
        ensures
            r@ == message_of(*self),
    {
        match self {
            RunError::Previous(GetPreviousBranchError::CommandFailed(Query::Verify)) =>
                String::from_str("unable to execute command: rev-parse --verify @{-1}"),
            RunError::Previous(GetPreviousBranchError::CommandFailed(Query::Abbrev)) =>
                String::from_str("unable to execute command: rev-parse --abbrev-ref @{-1}"),
            RunError::Previous(GetPreviousBranchError::NoPreviousCheckout) =>
                String::from_str("unable to resolve '-' branch identifier: no previous checkout recorded"),
            RunError::PullRequest(ProcessPullRequestError::CommandFailed(s)) => {
                let m = String::from_str("unable to execute command: ");
                let name = stage_name(*s);
                m.concat(name.as_str())
            },
            RunError::PullRequest(ProcessPullRequestError::ExecutionFailed(s, code)) => {
                let m = String::from_str("command exited unsuccessfully: ");
                let name = stage_name(*s);
                let m = m.concat(name.as_str());
                let m = m.concat(" exited with code ");
                let n: i32 = match code {
                    Some(c) => *c,
                    None => -1,
                };
                let digits = decimal_text(n);
                m.concat(digits.as_str())
            },
        }
    }
}

} // verus!
