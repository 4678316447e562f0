use vstd::prelude::*;

verus! {

/// The two command-line tools that the workflow drives.
#[derive(Clone, Copy, Debug, PartialEq, Eq, Structural)]
pub enum Program {
    /// The version-control tool, asked about the previous checkout.
    Git,
    /// The hosting tool, which changes the pull request.
    Gh,
}

/// What becomes of a command's standard output and error.
#[derive(Clone, Copy, Debug, PartialEq, Eq, Structural)]
pub enum Streams {
    /// Both are thrown away.
    Discard,
    /// Both are collected; standard output is handed back in the outcome.
    Capture,
    /// Both go to the user's terminal.
    Inherit,
}

/// An external command that the workflow asks to have run. `S` is the text
/// type: `String` in executable code, `Seq<char>` in specifications.
#[derive(Clone, Debug, PartialEq, Eq)]
pub enum Invocation<S> {
    /// Checks that the previous checkout `@{-1}` resolves.
    VerifyPrevious,
    /// Asks for the abbreviated name of the previous checkout.
    AbbrevPrevious,
    /// Asks for a readable name of a previous checkout that was detached.
    DescribePrevious,
    /// Marks the pull request ready for review; without an identifier, the one
    /// of the current branch.
    Ready(Option<S>),
    /// Enables auto-merge, with a merge commit, on the pull request.
    AutoMerge(Option<S>),
}

/// How a command that was asked for went. `B` is the byte container: `Vec<u8>`
/// in executable code, `Seq<u8>` in specifications.
#[derive(Clone, Debug, PartialEq, Eq)]
pub enum Outcome<B> {
    /// The program could not be started.
    NotLaunched,
    /// The program ran: its exit code (none when a signal ended it) and what it
    /// wrote to standard output, where that was captured.
    Exited(Option<i32>, B),
}

pub open spec fn option_view(o: Option<String>) -> Option<Seq<char>> {
    match o {
        Some(s) => Some(s@),
        None => None,
    }
}

impl View for Invocation<String> {
    type V = Invocation<Seq<char>>;

    open spec fn view(&self) -> Invocation<Seq<char>> {
        match self {
            Invocation::VerifyPrevious => Invocation::VerifyPrevious,
            Invocation::AbbrevPrevious => Invocation::AbbrevPrevious,
            Invocation::DescribePrevious => Invocation::DescribePrevious,
            Invocation::Ready(id) => Invocation::Ready(option_view(*id)),
            Invocation::AutoMerge(id) => Invocation::AutoMerge(option_view(*id)),
        }
    }
}

impl View for Outcome<Vec<u8>> {
    type V = Outcome<Seq<u8>>;

    open spec fn view(&self) -> Outcome<Seq<u8>> {
        match self {
            Outcome::NotLaunched => Outcome::NotLaunched,
            Outcome::Exited(code, out) => Outcome::Exited(*code, out@),
        }
    }
}

/// A command succeeded when it ran and exited with code 0.
pub open spec fn succeeded<B>(o: Outcome<B>) -> bool {
    match o {
        Outcome::Exited(code, _) => code == Some(0i32),
        Outcome::NotLaunched => false,
    }
}

/// The program that runs an invocation.
pub open spec fn program_of<S>(inv: Invocation<S>) -> Program {
    match inv {
        Invocation::Ready(_) | Invocation::AutoMerge(_) => Program::Gh,
        _ => Program::Git,
    }
}

/// The argument `p` followed by the identifier, where there is one.
pub open spec fn with_id(p: Seq<Seq<char>>, id: Option<Seq<char>>) -> Seq<Seq<char>> {
    match id {
        Some(s) => p.push(s),
        None => p,
    }
}

/// The arguments handed to the program, after its name.
pub open spec fn arguments_of(inv: Invocation<Seq<char>>) -> Seq<Seq<char>> {
    match inv {
        Invocation::VerifyPrevious => seq!["rev-parse"@, "-q"@, "--verify"@, "@{-1}"@],
        Invocation::AbbrevPrevious => seq!["rev-parse"@, "--abbrev-ref"@, "@{-1}"@],
        Invocation::DescribePrevious => seq![
            "name-rev"@,
            "--name-only"@,
            "--no-undefined"@,
            "@{-1}"@,
        ],
        Invocation::Ready(id) => with_id(seq!["pr"@, "ready"@], id),
        Invocation::AutoMerge(id) => with_id(seq!["pr"@, "merge"@, "--auto"@, "--merge"@], id),
    }
}

/// What becomes of the command's output streams.
pub open spec fn streams_of<S>(inv: Invocation<S>) -> Streams {
    match inv {
        Invocation::VerifyPrevious => Streams::Discard,
        Invocation::AbbrevPrevious | Invocation::DescribePrevious => Streams::Capture,
        _ => Streams::Inherit,
    }
}

fn push_str(v: &mut Vec<String>, s: &str)
    ensures
        final(v).deep_view() == old(v).deep_view().push(s@),
{
    let ghost before = v.deep_view();
    v.push(String::from_str(s));
    assert(v.deep_view() =~= before.push(s@));
}

fn push_id(v: &mut Vec<String>, id: &Option<String>)
    ensures
        final(v).deep_view() == with_id(old(v).deep_view(), option_view(*id)),
{
    if let Some(s) = id {
        push_str(v, s.as_str());
    }
}

impl Invocation<String> {
    /// The program that runs this command.
    pub fn program(&self) -> (r: Program)
        ensures
            r == program_of(self@),
    {
        match self {
            Invocation::Ready(_) | Invocation::AutoMerge(_) => Program::Gh,
            _ => Program::Git,
        }
    }

    /// The program's name, as looked up on the search path.
    pub fn program_name(&self) -> (r: String)
        ensures
            program_of(self@) == Program::Git ==> r@ == "git"@,
            program_of(self@) == Program::Gh ==> r@ == "gh"@,
    {
        match self.program() {
            Program::Git => String::from_str("git"),
            Program::Gh => String::from_str("gh"),
        }
    }

    /// The arguments handed to the program, after its name.
    pub fn arguments(&self) -> (r: Vec<String>)
        ensures
            r.deep_view() == arguments_of(self@),
    {
        let mut v: Vec<String> = Vec::new();
        match self {
            Invocation::VerifyPrevious => {
                push_str(&mut v, "rev-parse");
                push_str(&mut v, "-q");
                push_str(&mut v, "--verify");
                push_str(&mut v, "@{-1}");
            },
            Invocation::AbbrevPrevious => {
                push_str(&mut v, "rev-parse");
                push_str(&mut v, "--abbrev-ref");
                push_str(&mut v, "@{-1}");
            },
            Invocation::DescribePrevious => {
                push_str(&mut v, "name-rev");
                push_str(&mut v, "--name-only");
                push_str(&mut v, "--no-undefined");
                push_str(&mut v, "@{-1}");
            },
            Invocation::Ready(id) => {
                push_str(&mut v, "pr");
                push_str(&mut v, "ready");
                push_id(&mut v, id);
            },
            Invocation::AutoMerge(id) => {
                push_str(&mut v, "pr");
                push_str(&mut v, "merge");
                push_str(&mut v, "--auto");
                push_str(&mut v, "--merge");
                push_id(&mut v, id);
            },
        }
        assert(v.deep_view() =~= arguments_of(self@));
        v
    }

    /// What the driver does with the command's output streams.
    pub fn streams(&self) -> (r: Streams)
        ensures
            r == streams_of(self@),
    {
        match self {
            Invocation::VerifyPrevious => Streams::Discard,
            Invocation::AbbrevPrevious | Invocation::DescribePrevious => Streams::Capture,
            _ => Streams::Inherit,
        }
    }
}

} // verus!
