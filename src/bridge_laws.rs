use crate::bridge::{
    accepts, next_action, next_stats, run, step, is_wildcard, ActionView, BridgeLoopView,
    LinkState, LoopInput,
};
use crate::stats::StatsView;
use crate::topic::destination_of;
use vstd::prelude::*;

verus! {

/// Every input of the sequence is a message.
pub open spec fn all_messages(inputs: Seq<LoopInput>) -> bool {
    forall|i: int| 0 <= i < inputs.len() ==> #[trigger] inputs[i] is Message
}

/// The deliveries that answer a sequence of messages: one for each, in order.
pub open spec fn deliveries(inputs: Seq<LoopInput>) -> Seq<ActionView> {
    inputs.map_values(
        |i: LoopInput| ActionView::Deliver { destination: destination_of(i->topic), payload: i->payload },
    )
}

/// The outcomes of a reconnection: `failures` failed attempts, followed by a
/// successful one where `succeeded` holds.
pub open spec fn outcomes(failures: nat, succeeded: bool) -> Seq<LoopInput> {
    Seq::new(failures, |k: int| LoopInput::ReconnectOutcome(false)) + if succeeded {
        seq![LoopInput::ReconnectOutcome(true)]
    } else {
        Seq::empty()
    }
}

/// `n` requests for another reconnect attempt.
pub open spec fn reconnects(n: nat) -> Seq<ActionView> {
    Seq::new(n, |k: int| ActionView::Reconnect)
}

/// Feeding two sequences one after the other is feeding their concatenation.
pub proof fn lemma_run_append(b: BridgeLoopView, s: StatsView, x: Seq<LoopInput>, y: Seq<LoopInput>)
    ensures
        run(b, s, x + y) == (
            run(run(b, s, x).0, run(b, s, x).1, y).0,
            run(run(b, s, x).0, run(b, s, x).1, y).1,
            run(b, s, x).2 + run(run(b, s, x).0, run(b, s, x).1, y).2,
        ),
    decreases x.len(),
{
    if x.len() == 0 {
        assert(x + y =~= y);
        assert(Seq::<ActionView>::empty() + run(b, s, y).2 =~= run(b, s, y).2);
    } else {
        let (b0, s0, a) = step(b, s, x[0]);
        lemma_run_append(b0, s0, x.drop_first(), y);
        assert((x + y).drop_first() =~= x.drop_first() + y);
        assert((x + y)[0] == x[0]);
        let a1 = run(b0, s0, x.drop_first()).2;
        let a2 = run(run(b0, s0, x.drop_first()).0, run(b0, s0, x.drop_first()).1, y).2;
        assert(seq![a] + (a1 + a2) =~= (seq![a] + a1) + a2);
    }
}

/// Feeding one input is one step.
pub proof fn lemma_run_single(b: BridgeLoopView, s: StatsView, i: LoopInput)
    ensures
        run(b, s, seq![i]) == (step(b, s, i).0, step(b, s, i).1, seq![step(b, s, i).2]),
{
    let (b0, s0, a) = step(b, s, i);
    assert(seq![i].drop_first() =~= Seq::<LoopInput>::empty());
    assert(run(b0, s0, Seq::<LoopInput>::empty()).2 =~= Seq::<ActionView>::empty());
    assert(seq![a] + Seq::<ActionView>::empty() =~= seq![a]);
}

/// While connected, a sequence of messages leaves the link as it is, routes
/// each message exactly once, skips each one exactly once unless the filter
/// is the wildcard, and answers each with one delivery, in order.
pub proof fn messages_are_routed_once_each(b: BridgeLoopView, s: StatsView, inputs: Seq<LoopInput>)
    requires
        b.link == LinkState::Connected,
        all_messages(inputs),
    ensures
        run(b, s, inputs).0 == b,
        run(b, s, inputs).1 == (StatsView {
            routed: s.routed + inputs.len(),
            skipped: if is_wildcard(b.filter) {
                s.skipped
            } else {
                s.skipped + inputs.len()
            },
            ..s
        }),
        run(b, s, inputs).2 == deliveries(inputs),
    decreases inputs.len(),
{
    if inputs.len() == 0 {
        assert(deliveries(inputs) =~= Seq::<ActionView>::empty());
    } else {
        assert(inputs[0] is Message);
        let rest = inputs.drop_first();
        assert forall|i: int| 0 <= i < rest.len() implies #[trigger] rest[i] is Message by {
            assert(rest[i] == inputs[i + 1]);
        }
        let (b0, s0, a) = step(b, s, inputs[0]);
        messages_are_routed_once_each(b0, s0, rest);
        assert(deliveries(inputs) =~= seq![a] + deliveries(rest));
    }
}

/// From `Reconnecting`, failed attempts that stay within the budget count
/// nothing and each ask for another attempt.
proof fn lemma_failures_within_budget(b: BridgeLoopView, s: StatsView, k: nat)
    requires
        b.wf(),
        b.link is Reconnecting,
        b.link->failed_attempts + k < b.max_attempts,
    ensures
        run(b, s, Seq::new(k, |j: int| LoopInput::ReconnectOutcome(false))) == (
            BridgeLoopView {
                link: LinkState::Reconnecting {
                    failed_attempts: (b.link->failed_attempts + k) as u32,
                },
                ..b
            },
            s,
            reconnects(k),
        ),
    decreases k,
{
    let inputs = Seq::new(k, |j: int| LoopInput::ReconnectOutcome(false));
    if k == 0 {
        assert(reconnects(0) =~= Seq::<ActionView>::empty());
    } else {
        let (b0, s0, a) = step(b, s, inputs[0]);
        assert(inputs.drop_first() =~= Seq::new(
            (k - 1) as nat,
            |j: int| LoopInput::ReconnectOutcome(false),
        ));
        lemma_failures_within_budget(b0, s0, (k - 1) as nat);
        assert(reconnects(k) =~= seq![a] + reconnects((k - 1) as nat));
    }
}

/// A lost connection is counted exactly once, however many reconnect
/// attempts follow and whether or not one of them succeeds.
pub proof fn disconnect_counted_once(b: BridgeLoopView, s: StatsView, failures: nat, succeeded: bool)
    requires
        b.wf(),
        b.link == LinkState::Connected,
        failures < b.max_attempts || (failures == b.max_attempts && !succeeded),
    ensures
        run(b, s, seq![LoopInput::Disconnected] + outcomes(failures, succeeded)).1
            == s.after_connection_loss(),
{
    let d = seq![LoopInput::Disconnected];
    let o = outcomes(failures, succeeded);
    lemma_run_append(b, s, d, o);
    lemma_run_single(b, s, LoopInput::Disconnected);
    let (b1, s1, a1) = run(b, s, d);
    if b.max_attempts == 0 {
        assert(o =~= Seq::<LoopInput>::empty());
    } else {
        let fails = Seq::new(failures, |j: int| LoopInput::ReconnectOutcome(false));
        let tail: Seq<LoopInput> = if succeeded {
            seq![LoopInput::ReconnectOutcome(true)]
        } else {
            Seq::empty()
        };
        if failures < b.max_attempts {
            lemma_failures_within_budget(b1, s1, failures);
            lemma_run_append(b1, s1, fails, tail);
            assert(o =~= fails + tail);
            let r = run(b1, s1, fails);
            if succeeded {
                lemma_run_single(r.0, r.1, LoopInput::ReconnectOutcome(true));
            }
        } else {
            let f1 = (failures - 1) as nat;
            let first = Seq::new(f1, |j: int| LoopInput::ReconnectOutcome(false));
            let last = seq![LoopInput::ReconnectOutcome(false)];
            assert(o =~= first + last);
            lemma_failures_within_budget(b1, s1, f1);
            lemma_run_append(b1, s1, first, last);
            let r = run(b1, s1, first);
            lemma_run_single(r.0, r.1, LoopInput::ReconnectOutcome(false));
        }
    }
}

/// After a lost connection is recovered within the budget, the loop is
/// connected again and goes on with the messages that follow: each message,
/// before and after the loss, is routed and delivered exactly once, in
/// arrival order, and none from before the loss is handled again.
pub proof fn resumes_without_replay(
    b: BridgeLoopView,
    s: StatsView,
    pre: Seq<LoopInput>,
    failures: nat,
    post: Seq<LoopInput>,
)
    requires
        b.wf(),
        b.link == LinkState::Connected,
        all_messages(pre),
        all_messages(post),
        failures < b.max_attempts,
    ensures
        run(b, s, pre + seq![LoopInput::Disconnected] + outcomes(failures, true) + post).0 == b,
        run(b, s, pre + seq![LoopInput::Disconnected] + outcomes(failures, true) + post).1 == (
        StatsView {
            routed: s.routed + pre.len() + post.len(),
            skipped: if is_wildcard(b.filter) {
                s.skipped
            } else {
                s.skipped + pre.len() + post.len()
            },
            losses: s.losses + 1,
            ..s
        }),
        run(b, s, pre + seq![LoopInput::Disconnected] + outcomes(failures, true) + post).2
            == deliveries(pre) + reconnects(failures + 1) + seq![ActionView::Resume] + deliveries(
            post,
        ),
{
    let d = seq![LoopInput::Disconnected];
    let o = outcomes(failures, true);
    let fails = Seq::new(failures, |j: int| LoopInput::ReconnectOutcome(false));
    let ok = seq![LoopInput::ReconnectOutcome(true)];
    assert(o =~= fails + ok);

    messages_are_routed_once_each(b, s, pre);
    let (b1, s1, a1) = run(b, s, pre);
    lemma_run_single(b1, s1, LoopInput::Disconnected);
    let (b2, s2, a2) = run(b1, s1, d);
    lemma_failures_within_budget(b2, s2, failures);
    let (b3, s3, a3) = run(b2, s2, fails);
    lemma_run_single(b3, s3, LoopInput::ReconnectOutcome(true));
    lemma_run_append(b2, s2, fails, ok);
    let (b4, s4, a4) = run(b2, s2, o);
    assert(b4 == b);
    messages_are_routed_once_each(b4, s4, post);
    let (b5, s5, a5) = run(b4, s4, post);

    lemma_run_append(b, s, pre, d);
    lemma_run_append(b, s, pre + d, o);
    lemma_run_append(b, s, pre + d + o, post);
    assert(reconnects(failures + 1) =~= seq![ActionView::Reconnect] + reconnects(failures));
    assert(a2 =~= seq![ActionView::Reconnect]);
    assert(a1 + a2 + (a3 + seq![ActionView::Resume]) + a5 =~= deliveries(pre) + reconnects(
        failures + 1,
    ) + seq![ActionView::Resume] + deliveries(post));
}

/// When every attempt of the budget fails, the loop ends failed: its last
/// action is to stop, and from then on it accepts no input at all, so it
/// cannot go on silently.
pub proof fn exhausted_budget_stops(b: BridgeLoopView, s: StatsView, pre: Seq<LoopInput>)
    requires
        b.wf(),
        b.link == LinkState::Connected,
        all_messages(pre),
    ensures
        run(b, s, pre + seq![LoopInput::Disconnected] + outcomes(b.max_attempts, false)).0.link
            == LinkState::Failed,
        run(b, s, pre + seq![LoopInput::Disconnected] + outcomes(b.max_attempts, false)).2
            == deliveries(pre) + reconnects(b.max_attempts) + seq![ActionView::Stop],
        forall|i: LoopInput|
            !accepts(
                run(b, s, pre + seq![LoopInput::Disconnected] + outcomes(b.max_attempts, false)).0.link,
                i,
            ),
{
    let d = seq![LoopInput::Disconnected];
    let o = outcomes(b.max_attempts, false);
    messages_are_routed_once_each(b, s, pre);
    let (b1, s1, a1) = run(b, s, pre);
    lemma_run_single(b1, s1, LoopInput::Disconnected);
    let (b2, s2, a2) = run(b1, s1, d);
    lemma_run_append(b, s, pre, d);
    lemma_run_append(b, s, pre + d, o);
    if b.max_attempts == 0 {
        assert(o =~= Seq::<LoopInput>::empty());
        assert(reconnects(0) =~= Seq::<ActionView>::empty());
        assert(a1 + a2 + run(b2, s2, o).2 =~= deliveries(pre) + reconnects(b.max_attempts) + seq![
            ActionView::Stop,
        ]);
    } else {
        let f1 = (b.max_attempts - 1) as nat;
        let first = Seq::new(f1, |j: int| LoopInput::ReconnectOutcome(false));
        let last = seq![LoopInput::ReconnectOutcome(false)];
        assert(o =~= first + last);
        lemma_failures_within_budget(b2, s2, f1);
        lemma_run_append(b2, s2, first, last);
        let (b3, s3, a3) = run(b2, s2, first);
        lemma_run_single(b3, s3, LoopInput::ReconnectOutcome(false));
        assert(reconnects(b.max_attempts) =~= seq![ActionView::Reconnect] + reconnects(f1));
        assert(a1 + a2 + (a3 + seq![ActionView::Stop]) =~= deliveries(pre) + reconnects(
            b.max_attempts,
        ) + seq![ActionView::Stop]);
    }
}

/// Handling a message never counts an error; the outcome of its delivery
/// counts at most one, and only when the delivery failed. A successful
/// delivery changes no counter.
pub proof fn delivery_errors_only_on_failure(
    b: BridgeLoopView,
    s: StatsView,
    topic: Seq<char>,
    payload: Seq<u8>,
    delivered: bool,
)
    requires
        b.link == LinkState::Connected,
    ensures
        next_stats(b, s, LoopInput::Message { topic, payload }).errors == s.errors,
        next_stats(b, s, LoopInput::Message { topic, payload }).after_delivery(delivered).errors
            == if delivered {
            s.errors
        } else {
            s.errors + 1
        },
        delivered ==> next_stats(b, s, LoopInput::Message { topic, payload }).after_delivery(
            delivered,
        ) == next_stats(b, s, LoopInput::Message { topic, payload }),
{
}

} // verus!
