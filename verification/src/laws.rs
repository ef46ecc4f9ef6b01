//! What holds of every run of a scenario, whatever the node answers.

use crate::failure::{CallKind, Failure};
use crate::scenario::{script, CallView, DriverView, ReplyView, Scenario};
use vstd::prelude::*;

verus! {

/// Which calls `calls` are, without their arguments.
pub open spec fn kinds<A, H>(calls: Seq<CallView<A, H>>) -> Seq<CallKind> {
    calls.map_values(|call: CallView<A, H>| call.kind())
}

/// A scenario begins with all the calls of its script still to be made.
pub proof fn lemma_start_has_script<A, H, T>(scenario: Scenario)
    ensures
        DriverView::<A, H, T>::start(scenario).remaining() == script(scenario),
        !DriverView::<A, H, T>::start(scenario).is_over(),
{
    let start = DriverView::<A, H, T>::start(scenario);
    assert(start.remaining() =~= script(scenario));
}

/// The script of a mined transaction is that of a mempool transaction, then
/// that of mining a block, then the two calls that fetch the newest block.
pub proof fn lemma_mined_script_composes()
    ensures
        script(Scenario::MinedTransaction) == script(Scenario::MempoolTransaction) + script(
            Scenario::MineBlock,
        ) + seq![CallKind::BestBlockHash, CallKind::GetBlock],
{
    assert(script(Scenario::MinedTransaction) =~= script(Scenario::MempoolTransaction) + script(
        Scenario::MineBlock,
    ) + seq![CallKind::BestBlockHash, CallKind::GetBlock]);
}

/// A call is named exactly while the scenario is not over, and it is the
/// first of the calls that remain.
pub proof fn lemma_call_unless_over<A, H, T>(state: DriverView<A, H, T>)
    ensures
        state.call() is None <==> state.is_over(),
        state.is_over() <==> state.remaining().len() == 0,
        state.call() matches Some(call) ==> call.kind() == state.remaining()[0],
{
}

/// One answer either gives the scenario up or leaves the calls that remained
/// but for the one that it answered.
pub proof fn lemma_step_follows_script<A, H, T>(
    state: DriverView<A, H, T>,
    reply: ReplyView<A, H, T>,
)
    requires
        !state.is_over(),
    ensures
        state.step(reply) is Failed || state.step(reply).remaining()
            == state.remaining().drop_first(),
{
    let next = state.step(reply);
    if !(next is Failed) {
        assert(next.remaining() =~= state.remaining().drop_first());
    }
}

/// A call that failed gives the scenario up at once, with the failure that
/// names the call; so does an answer that belongs to another call.
pub proof fn lemma_failed_call_is_fatal<A, H, T>(
    state: DriverView<A, H, T>,
    reply: ReplyView<A, H, T>,
)
    requires
        state.call() is Some,
    ensures
        reply is Failed ==> state.step(reply) == DriverView::<A, H, T>::Failed(
            Failure::Rpc(state.call().unwrap().kind()),
        ),
        state.step(reply) matches DriverView::Failed(failure) ==> failure == Failure::Rpc(
            state.call().unwrap().kind(),
        ) || failure == Failure::Decoding(state.call().unwrap().kind()),
        state.step(reply) matches DriverView::Failed(failure) ==> (failure is Rpc <==> reply
            is Failed),
{
}

/// Once a scenario is over, nothing changes it and no further call is made:
/// there is no retry after a failure and nothing is added to a result.
pub proof fn lemma_over_is_final<A, H, T>(
    state: DriverView<A, H, T>,
    replies: Seq<ReplyView<A, H, T>>,
)
    requires
        state.is_over(),
    ensures
        state.run(replies) == state,
        state.calls(replies) == Seq::<CallView<A, H>>::empty(),
    decreases replies.len(),
{
    if replies.len() > 0 {
        lemma_over_is_final(state.step(replies[0]), replies.drop_first());
    }
}

/// Whatever the node answers, the calls made are the first calls of what
/// remained, in that order; and a scenario that is complete has made them
/// all.
pub proof fn lemma_calls_follow_remaining<A, H, T>(
    state: DriverView<A, H, T>,
    replies: Seq<ReplyView<A, H, T>>,
)
    ensures
        kinds(state.calls(replies)).is_prefix_of(state.remaining()),
        state.run(replies) is Done ==> kinds(state.calls(replies)) == state.remaining(),
    decreases replies.len(),
{
    let made = kinds(state.calls(replies));
    if replies.len() == 0 || state.is_over() {
        assert(made =~= Seq::<CallKind>::empty());
        if state.is_over() {
            lemma_over_is_final(state, replies);
        }
    } else {
        let call = state.call().unwrap();
        let next = state.step(replies[0]);
        let rest = replies.drop_first();
        lemma_calls_follow_remaining(next, rest);
        lemma_step_follows_script(state, replies[0]);
        assert(made =~= seq![call.kind()] + kinds(next.calls(rest)));
        if next is Failed {
            lemma_over_is_final(next, rest);
            assert(made =~= seq![call.kind()]);
        } else {
            assert(state.remaining() =~= seq![call.kind()] + next.remaining());
        }
    }
}

/// Whatever the node answers, a scenario makes the calls of its script, in
/// the script's order and none besides; when it is complete it has made
/// every one of them.
pub proof fn lemma_calls_follow_script<A, H, T>(
    scenario: Scenario,
    replies: Seq<ReplyView<A, H, T>>,
)
    ensures
        kinds(DriverView::<A, H, T>::start(scenario).calls(replies)).is_prefix_of(
            script(scenario),
        ),
        DriverView::<A, H, T>::start(scenario).run(replies) is Done ==> kinds(
            DriverView::<A, H, T>::start(scenario).calls(replies),
        ) == script(scenario),
{
    lemma_start_has_script::<A, H, T>(scenario);
    lemma_calls_follow_remaining(DriverView::<A, H, T>::start(scenario), replies);
}

/// Answers are taken one after the other: the state after one more answer
/// is the step from the state before it, and the call that the answer
/// answered, if any was open, is the last of the calls made.
pub proof fn lemma_run_push<A, H, T>(
    state: DriverView<A, H, T>,
    replies: Seq<ReplyView<A, H, T>>,
    reply: ReplyView<A, H, T>,
)
    ensures
        state.run(replies.push(reply)) == state.run(replies).step(reply),
        state.calls(replies.push(reply)) == state.calls(replies) + (match state.run(
            replies,
        ).call() {
            Some(call) => seq![call],
            None => seq![],
        }),
    decreases replies.len(),
{
    let longer = replies.push(reply);
    assert(longer.drop_first() =~= if replies.len() == 0 {
        replies
    } else {
        replies.drop_first().push(reply)
    });
    if replies.len() == 0 {
        let next = state.step(reply);
        assert(next.run(longer.drop_first()) == next);
        assert(next.calls(longer.drop_first()) =~= Seq::empty());
        assert(state.calls(longer) =~= state.calls(replies) + (match state.call() {
            Some(call) => seq![call],
            None => seq![],
        }));
    } else {
        let next = state.step(replies[0]);
        lemma_run_push(next, replies.drop_first(), reply);
        if state.is_over() {
            lemma_over_is_final(state, replies);
        } else {
            assert(state.calls(longer) =~= state.calls(replies) + (match state.run(
                replies,
            ).call() {
                Some(call) => seq![call],
                None => seq![],
            }));
        }
    }
}

/// A run can be cut anywhere: the state after all the answers is the state
/// that the later answers lead to from the state after the earlier ones.
pub proof fn lemma_run_split<A, H, T>(
    state: DriverView<A, H, T>,
    replies: Seq<ReplyView<A, H, T>>,
    n: int,
)
    requires
        0 <= n <= replies.len(),
    ensures
        state.run(replies) == state.run(replies.take(n)).run(replies.skip(n)),
        state.calls(replies) == state.calls(replies.take(n)) + state.run(replies.take(n)).calls(
            replies.skip(n),
        ),
    decreases n,
{
    if n == 0 {
        assert(replies.take(0) =~= Seq::empty());
        assert(replies.skip(0) =~= replies);
        assert(state.calls(replies) =~= state.calls(replies.take(n)) + state.calls(replies));
    } else {
        let next = state.step(replies[0]);
        let rest = replies.drop_first();
        lemma_run_split(next, rest, n - 1);
        assert(replies.take(n).drop_first() =~= rest.take(n - 1));
        assert(replies.skip(n) =~= rest.skip(n - 1));
        if state.is_over() {
            lemma_over_is_final(state, replies);
            lemma_over_is_final(state, replies.take(n));
            lemma_over_is_final(state, replies.skip(n));
            assert(state.calls(replies) =~= state.calls(replies.take(n)) + state.calls(
                replies.skip(n),
            ));
        } else {
            assert(state.calls(replies) =~= state.calls(replies.take(n)) + state.run(
                replies.take(n),
            ).calls(replies.skip(n)));
        }
    }
}

/// The first call that fails ends the run: whatever was answered before and
/// whatever comes after, the scenario is given up with the failure that names
/// that call, and no call is made after it.
pub proof fn lemma_first_failure_ends_run<A, H, T>(
    state: DriverView<A, H, T>,
    before: Seq<ReplyView<A, H, T>>,
    after: Seq<ReplyView<A, H, T>>,
)
    requires
        state.run(before).call() is Some,
    ensures
        state.run(before.push(ReplyView::Failed) + after) == DriverView::<A, H, T>::Failed(
            Failure::Rpc(state.run(before).call().unwrap().kind()),
        ),
        state.calls(before.push(ReplyView::Failed) + after) == state.calls(before).push(
            state.run(before).call().unwrap(),
        ),
{
    let failed = before.push(ReplyView::<A, H, T>::Failed);
    let all = failed + after;
    lemma_run_push(state, before, ReplyView::Failed);
    lemma_run_split(state, all, failed.len() as int);
    assert(all.take(failed.len() as int) =~= failed);
    assert(all.skip(failed.len() as int) =~= after);
    lemma_over_is_final(state.run(failed), after);
    assert(state.calls(all) =~= state.calls(before).push(state.run(before).call().unwrap()));
}

/// A failure of setting a node up is none that answers lead to: a state that
/// holds no such failure never comes to hold one.
pub proof fn lemma_answers_bring_no_setup_failure<A, H, T>(
    state: DriverView<A, H, T>,
    replies: Seq<ReplyView<A, H, T>>,
)
    requires
        !(state matches DriverView::Failed(failure) && failure is Setup),
    ensures
        !(state.run(replies) matches DriverView::Failed(failure) && failure is Setup),
    decreases replies.len(),
{
    if replies.len() > 0 {
        lemma_answers_bring_no_setup_failure(state.step(replies[0]), replies.drop_first());
    }
}

/// A scenario that is given up names the call that failed: its failure is a
/// failed call or an answer that could not be read, whatever the node said.
pub proof fn lemma_scenario_failures_name_a_call<A, H, T>(
    scenario: Scenario,
    replies: Seq<ReplyView<A, H, T>>,
)
    ensures
        DriverView::<A, H, T>::start(scenario).run(replies) matches DriverView::Failed(failure)
            ==> failure is Rpc || failure is Decoding,
{
    lemma_answers_bring_no_setup_failure(DriverView::<A, H, T>::start(scenario), replies);
}

} // verus!
