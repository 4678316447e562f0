//! What holds of whole runs: the commands a session asks for when outcomes
//! are fed back one by one, and how the run ends.
use vstd::prelude::*;
use crate::command::{Invocation, Outcome, succeeded};
use crate::session::{
    Action, GetPreviousBranchError, Phase, Query, RunError, SessionModel, action_of, asks_help,
    entering, exit_code_spec, initial, is_previous, printed_name, step, well_formed,
};

verus! {

/// The commands that a session in state `m` asks for when the outcomes `outs`
/// are fed back in order, one for each command, until it asks for none.
pub open spec fn requests(m: SessionModel, outs: Seq<Outcome<Seq<u8>>>) -> Seq<Invocation<Seq<char>>>
    decreases outs.len(),
{
    if outs.len() == 0 {
        Seq::empty()
    } else {
        match action_of(m) {
            Action::Run(inv) => seq![inv] + requests(step(m, outs[0]), outs.drop_first()),
            _ => Seq::empty(),
        }
    }
}

/// The state of a session in state `m` after the outcomes `outs` were fed.
pub open spec fn after(m: SessionModel, outs: Seq<Outcome<Seq<u8>>>) -> SessionModel
    decreases outs.len(),
{
    if outs.len() == 0 {
        m
    } else {
        after(step(m, outs[0]), outs.drop_first())
    }
}

/// Each identifier marked ready and then given auto-merge, in order.
pub open spec fn pairs(ids: Seq<Seq<char>>) -> Seq<Invocation<Seq<char>>>
    decreases ids.len(),
{
    if ids.len() == 0 {
        Seq::empty()
    } else {
        seq![Invocation::Ready(Some(ids[0])), Invocation::AutoMerge(Some(ids[0]))] + pairs(ids.drop_first())
    }
}

pub open spec fn all_succeed(outs: Seq<Outcome<Seq<u8>>>) -> bool {
    forall|k: int| 0 <= k < outs.len() ==> succeeded(#[trigger] outs[k])
}

/// A session that shows help or has finished asks for nothing more and does
/// not move.
pub proof fn lemma_settled(m: SessionModel, outs: Seq<Outcome<Seq<u8>>>)
    requires
        m.phase is Help || m.phase is Done,
    ensures
        requests(m, outs) == Seq::<Invocation<Seq<char>>>::empty(),
        after(m, outs) == m,
    decreases outs.len(),
{
    reveal(step);
    if outs.len() > 0 {
        lemma_settled(step(m, outs[0]), outs.drop_first());
    }
}

/// Where an argument asks for help, wherever it stands, only the usage text is
/// shown: no command is run and the exit code is 0.
pub proof fn help_runs_nothing(args: Seq<Seq<char>>, outs: Seq<Outcome<Seq<u8>>>)
    requires
        asks_help(args),
    ensures
        requests(initial(args), outs) == Seq::<Invocation<Seq<char>>>::empty(),
        action_of(after(initial(args), outs)) == Action::<Seq<char>>::ShowUsage,
        exit_code_spec(after(initial(args), outs)) == Some(0i32),
{
    lemma_settled(initial(args), outs);
}

/// With no identifier, the pull request of the current branch is marked ready
/// once, and auto-merge is enabled on it once, only if that succeeded; neither
/// command names an identifier.
pub proof fn current_branch_once(outs: Seq<Outcome<Seq<u8>>>)
    ensures
        ({
            let r = requests(initial(Seq::empty()), outs);
            &&& r.len() <= 2
            &&& outs.len() >= 1 ==> r.len() >= 1 && r[0] == Invocation::<Seq<char>>::Ready(None)
            &&& r.len() == 2 <==> outs.len() >= 2 && succeeded(outs[0])
            &&& r.len() == 2 ==> r[1] == Invocation::<Seq<char>>::AutoMerge(None)
        }),
{
    reveal(step);
    let args = Seq::<Seq<char>>::empty();
    let m0 = initial(args);
    assert(!asks_help(args));
    assert(m0.phase == Phase::<Seq<char>>::MarkingReady(None));
    if outs.len() >= 1 {
        let o1 = outs.drop_first();
        let m1 = step(m0, outs[0]);
        assert(requests(m0, outs) == seq![Invocation::<Seq<char>>::Ready(None)] + requests(m1, o1));
        if succeeded(outs[0]) {
            assert(m1.phase == Phase::<Seq<char>>::EnablingAutoMerge(None));
            if o1.len() >= 1 {
                let m2 = step(m1, o1[0]);
                assert(m2.phase is Done);
                lemma_settled(m2, o1.drop_first());
                assert(requests(m1, o1) == seq![Invocation::<Seq<char>>::AutoMerge(None)] + requests(m2, o1.drop_first()));
            }
        } else {
            assert(m1.phase is Done);
            lemma_settled(m1, o1);
        }
    }
}

proof fn lemma_pairs_from(args: Seq<Seq<char>>, i: nat, outs: Seq<Outcome<Seq<u8>>>)
    requires
        i <= args.len(),
        forall|j: int| 0 <= j < args.len() ==> !is_previous(#[trigger] args[j]),
        all_succeed(outs),
        outs.len() >= 2 * (args.len() - i),
    ensures
        requests(entering(args, i), outs) == pairs(args.subrange(i as int, args.len() as int)),
        after(entering(args, i), outs).phase == Phase::<Seq<char>>::Done(Ok(())),
    decreases args.len() - i,
{
    reveal(step);
    let m0 = entering(args, i);
    if i == args.len() {
        lemma_settled(m0, outs);
        assert(args.subrange(i as int, args.len() as int).len() == 0);
    } else {
        assert(!is_previous(args[i as int]));
        let o1 = outs.drop_first();
        let o2 = o1.drop_first();
        assert(succeeded(outs[0]));
        assert(succeeded(outs[1]));
        assert(o1[0] == outs[1]);
        let m1 = step(m0, outs[0]);
        let m2 = step(m1, o1[0]);
        assert(m2 == entering(args, i + 1));
        assert(after(m0, outs) == after(m1, o1));
        assert(after(m1, o1) == after(m2, o2));
        assert forall|k: int| 0 <= k < o2.len() implies succeeded(#[trigger] o2[k]) by {
            assert(o2[k] == outs[k + 2]);
        }
        lemma_pairs_from(args, i + 1, o2);
        let ids = args.subrange(i as int, args.len() as int);
        assert(ids.drop_first() =~= args.subrange((i + 1) as int, args.len() as int));
        assert(requests(m1, o1) == seq![Invocation::AutoMerge(Some(args[i as int]))] + requests(m2, o2));
        assert(requests(m0, outs) =~= pairs(ids));
    }
}

/// Where every command succeeds, each identifier, none of them `-`, is marked
/// ready and then given auto-merge, in the order given, and the run ends with
/// exit code 0.
pub proof fn identifiers_in_order(args: Seq<Seq<char>>, outs: Seq<Outcome<Seq<u8>>>)
    requires
        args.len() > 0,
        !asks_help(args),
        forall|j: int| 0 <= j < args.len() ==> !is_previous(#[trigger] args[j]),
        all_succeed(outs),
        outs.len() >= 2 * args.len(),
    ensures
        requests(initial(args), outs) == pairs(args),
        exit_code_spec(after(initial(args), outs)) == Some(0i32),
{
    lemma_pairs_from(args, 0, outs);
    assert(args.subrange(0, args.len() as int) =~= args);
}

/// Only a pull request that was just marked ready gets to auto-merge.
proof fn lemma_into_merge(m: SessionModel, o: Outcome<Seq<u8>>)
    requires
        step(m, o).phase is EnablingAutoMerge,
    ensures
        m.phase == Phase::MarkingReady(step(m, o).phase->EnablingAutoMerge_0),
        succeeded(o),
{
    reveal(step);
}

proof fn lemma_first_request(m: SessionModel, outs: Seq<Outcome<Seq<u8>>>)
    requires
        outs.len() > 0,
        action_of(m) is Run,
    ensures
        requests(m, outs) == seq![action_of(m)->Run_0] + requests(step(m, outs[0]), outs.drop_first()),
{
}

/// One command at most for each outcome.
pub proof fn lemma_requests_len(m: SessionModel, outs: Seq<Outcome<Seq<u8>>>)
    ensures
        requests(m, outs).len() <= outs.len(),
    decreases outs.len(),
{
    if outs.len() > 0 {
        lemma_requests_len(step(m, outs[0]), outs.drop_first());
    }
}

proof fn lemma_merge_request(m: SessionModel, outs: Seq<Outcome<Seq<u8>>>)
    requires
        requests(m, outs).len() > 0,
        requests(m, outs)[0] is AutoMerge,
    ensures
        m.phase == Phase::EnablingAutoMerge(requests(m, outs)[0]->AutoMerge_0),
{
    lemma_first_request(m, outs);
}

proof fn lemma_merge_after_ready(m: SessionModel, outs: Seq<Outcome<Seq<u8>>>, k: int)
    requires
        1 <= k < requests(m, outs).len(),
        requests(m, outs)[k] is AutoMerge,
    ensures
        requests(m, outs)[k - 1] == Invocation::Ready(requests(m, outs)[k]->AutoMerge_0),
        succeeded(outs[k - 1]),
    decreases outs.len(),
{
    let m1 = step(m, outs[0]);
    let o1 = outs.drop_first();
    lemma_first_request(m, outs);
    if k == 1 {
        lemma_merge_request(m1, o1);
        lemma_into_merge(m, outs[0]);
    } else {
        lemma_merge_after_ready(m1, o1, k - 1);
        lemma_requests_len(m1, o1);
        assert(outs[k - 1] == o1[k - 2]);
    }
}

/// Auto-merge is asked for only right after the same pull request was marked
/// ready, and only if that succeeded.
pub proof fn merge_only_after_ready(args: Seq<Seq<char>>, outs: Seq<Outcome<Seq<u8>>>)
    ensures
        ({
            let r = requests(initial(args), outs);
            forall|k: int| 0 <= k < r.len() && #[trigger] r[k] is AutoMerge ==>
                k >= 1 && r[k - 1] == Invocation::Ready(r[k]->AutoMerge_0) && succeeded(outs[k - 1])
        }),
{
    let r = requests(initial(args), outs);
    assert forall|k: int| 0 <= k < r.len() && #[trigger] r[k] is AutoMerge implies
        k >= 1 && r[k - 1] == Invocation::Ready(r[k]->AutoMerge_0) && succeeded(outs[k - 1]) by {
        if k == 0 {
            lemma_merge_request(initial(args), outs);
        } else {
            lemma_merge_after_ready(initial(args), outs, k);
        }
    }
}

/// Where `-` stands and no previous checkout resolves, the run stops with a
/// resolution error after that one query: no pull request is touched for it.
pub proof fn no_previous_checkout(args: Seq<Seq<char>>, i: nat, outs: Seq<Outcome<Seq<u8>>>)
    requires
        i < args.len(),
        is_previous(args[i as int]),
        outs.len() >= 1,
        !succeeded(outs[0]),
    ensures
        requests(entering(args, i), outs) == seq![Invocation::<Seq<char>>::VerifyPrevious],
        after(entering(args, i), outs).phase == Phase::<Seq<char>>::Done(Err(RunError::Previous(
            if outs[0] is NotLaunched {
                GetPreviousBranchError::CommandFailed(Query::Verify)
            } else {
                GetPreviousBranchError::NoPreviousCheckout
            },
        ))),
{
    reveal(step);
    let m0 = entering(args, i);
    let m1 = step(m0, outs[0]);
    assert(m1.phase is Done);
    lemma_settled(m1, outs.drop_first());
    assert(requests(m0, outs) == seq![Invocation::<Seq<char>>::VerifyPrevious] + requests(m1, outs.drop_first()));
    assert(after(m0, outs) == after(m1, outs.drop_first()));
}

/// Where `-` stands and the previous checkout was a branch, the pull request
/// of that branch, by the name that the query printed, is marked ready.
pub proof fn previous_branch_named(args: Seq<Seq<char>>, i: nat, outs: Seq<Outcome<Seq<u8>>>)
    requires
        i < args.len(),
        is_previous(args[i as int]),
        outs.len() == 3,
        succeeded(outs[0]),
        outs[1] is Exited,
        printed_name(outs[1]->Exited_1) != "HEAD"@,
    ensures
        requests(entering(args, i), outs) == seq![
            Invocation::VerifyPrevious,
            Invocation::AbbrevPrevious,
            Invocation::Ready(Some(printed_name(outs[1]->Exited_1))),
        ],
{
    reveal(step);
    let m0 = entering(args, i);
    let o1 = outs.drop_first();
    let o2 = o1.drop_first();
    let m1 = step(m0, outs[0]);
    let m2 = step(m1, o1[0]);
    let m3 = step(m2, o2[0]);
    assert(requests(m3, o2.drop_first()) == Seq::<Invocation<Seq<char>>>::empty());
    assert(requests(m2, o2) == seq![action_of(m2)->Run_0] + requests(m3, o2.drop_first()));
    assert(requests(m1, o1) == seq![action_of(m1)->Run_0] + requests(m2, o2));
    assert(requests(m0, outs) == seq![action_of(m0)->Run_0] + requests(m1, o1));
    assert(requests(m0, outs) =~= seq![
        Invocation::VerifyPrevious,
        Invocation::AbbrevPrevious,
        Invocation::Ready(Some(printed_name(outs[1]->Exited_1))),
    ]);
}

/// Where `-` stands and the previous checkout was detached, the readable name
/// is used where its query succeeds, else the raw name `HEAD`.
pub proof fn previous_checkout_detached(args: Seq<Seq<char>>, i: nat, outs: Seq<Outcome<Seq<u8>>>)
    requires
        i < args.len(),
        is_previous(args[i as int]),
        outs.len() == 4,
        succeeded(outs[0]),
        outs[1] is Exited,
        printed_name(outs[1]->Exited_1) == "HEAD"@,
    ensures
        requests(entering(args, i), outs) == seq![
            Invocation::VerifyPrevious,
            Invocation::AbbrevPrevious,
            Invocation::DescribePrevious,
            Invocation::Ready(Some(
                if succeeded(outs[2]) { printed_name(outs[2]->Exited_1) } else { "HEAD"@ },
            )),
        ],
{
    reveal(step);
    let m0 = entering(args, i);
    let o1 = outs.drop_first();
    let o2 = o1.drop_first();
    let o3 = o2.drop_first();
    let m1 = step(m0, outs[0]);
    let m2 = step(m1, o1[0]);
    let m3 = step(m2, o2[0]);
    let m4 = step(m3, o3[0]);
    assert(requests(m4, o3.drop_first()) == Seq::<Invocation<Seq<char>>>::empty());
    assert(requests(m3, o3) == seq![action_of(m3)->Run_0] + requests(m4, o3.drop_first()));
    assert(requests(m2, o2) == seq![action_of(m2)->Run_0] + requests(m3, o3));
    assert(requests(m1, o1) == seq![action_of(m1)->Run_0] + requests(m2, o2));
    assert(requests(m0, outs) == seq![action_of(m0)->Run_0] + requests(m1, o1));
    assert(requests(m0, outs) =~= seq![
        Invocation::VerifyPrevious,
        Invocation::AbbrevPrevious,
        Invocation::DescribePrevious,
        Invocation::Ready(Some(
            if succeeded(outs[2]) { printed_name(outs[2]->Exited_1) } else { "HEAD"@ },
        )),
    ]);
}

/// Where marking a pull request ready fails with exit code `c`, auto-merge is
/// not asked for and the run ends with exit code `c`.
pub proof fn ready_failure_code(m: SessionModel, c: i32, out: Seq<u8>, rest: Seq<Outcome<Seq<u8>>>)
    requires
        m.phase is MarkingReady,
        c != 0,
    ensures
        requests(m, seq![Outcome::Exited(Some(c), out)] + rest)
            == seq![Invocation::Ready(m.phase->MarkingReady_0)],
        exit_code_spec(after(m, seq![Outcome::Exited(Some(c), out)] + rest)) == Some(c),
{
    reveal(step);
    let outs = seq![Outcome::Exited(Some(c), out)] + rest;
    let m1 = step(m, outs[0]);
    assert(outs.drop_first() =~= rest);
    assert(m1.phase is Done);
    lemma_settled(m1, rest);
    assert(requests(m, outs) == seq![action_of(m)->Run_0] + requests(m1, rest));
    assert(after(m, outs) == after(m1, rest));
}

/// An upper bound on the outcomes that a session still needs when every
/// command succeeds: five for each identifier still to come.
pub open spec fn budget(m: SessionModel) -> nat {
    let rest: int = m.args.len() - m.current - 1;
    let later: nat = if rest > 0 { (5 * rest) as nat } else { 0 };
    match m.phase {
        Phase::Verifying => 5 + later,
        Phase::Abbreviating => 4 + later,
        Phase::Describing(_) => 3 + later,
        Phase::MarkingReady(_) => 2 + later,
        Phase::EnablingAutoMerge(_) => 1 + later,
        _ => 0,
    }
}

proof fn lemma_success_ends_well(m: SessionModel, outs: Seq<Outcome<Seq<u8>>>)
    requires
        well_formed(m),
        !(m.phase is Help),
        m.phase is Done ==> m.phase == Phase::<Seq<char>>::Done(Ok(())),
        all_succeed(outs),
        outs.len() >= budget(m),
    ensures
        after(m, outs).phase == Phase::<Seq<char>>::Done(Ok(())),
    decreases outs.len(),
{
    if m.phase is Done {
        lemma_settled(m, outs);
    } else {
        reveal(step);
        let m1 = step(m, outs[0]);
        let o1 = outs.drop_first();
        assert(succeeded(outs[0]));
        assert(well_formed(m1));
        assert(budget(m1) < budget(m));
        assert forall|k: int| 0 <= k < o1.len() implies succeeded(#[trigger] o1[k]) by {
            assert(o1[k] == outs[k + 1]);
        }
        lemma_success_ends_well(m1, o1);
    }
}

/// Where every command succeeds, as the hosting tool's commands do on a pull
/// request that is already ready and already set to auto-merge, the run ends
/// with exit code 0: running again over the same identifiers is no error.
pub proof fn success_throughout(args: Seq<Seq<char>>, outs: Seq<Outcome<Seq<u8>>>)
    requires
        !asks_help(args),
        all_succeed(outs),
        outs.len() >= 5 * args.len() + 2,
    ensures
        exit_code_spec(after(initial(args), outs)) == Some(0i32),
{
    lemma_success_ends_well(initial(args), outs);
}

} // verus!
