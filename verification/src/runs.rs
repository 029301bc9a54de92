use vstd::prelude::*;

use crate::engine::{receive_action, spec_advance, spec_init, spec_step, ActionView, EventView, StateView};

verus! {

/// A whole run of the engine, as the model sees it: starting from `s`, fold
/// in one event after another and record each state and action.  `dedups[i]`
/// stands for the deduplication identity drawn at step `i`, where one is.
pub open spec fn run_trace(
    s: StateView,
    events: Seq<EventView>,
    dedups: Seq<Seq<char>>,
) -> Seq<(StateView, ActionView)>
    decreases events.len(),
{
    if events.len() == 0 {
        Seq::<(StateView, ActionView)>::empty()
    } else {
        let first = spec_step(s, events[0], dedups[0]);
        seq![first] + run_trace(first.0, events.drop_first(), dedups.drop_first())
    }
}

/// One step neither invents nor changes the group id: the new state keeps it,
/// and a send carries exactly it, together with the identity drawn for that
/// step.
pub proof fn lemma_step_group_and_dedup(s: StateView, event: EventView, dedup: Seq<char>)
    ensures
        spec_step(s, event, dedup).0.group_id == s.group_id,
        (spec_step(s, event, dedup).1 matches ActionView::Send { record, .. } ==> record.group_id
            == s.group_id && record.deduplication_id == dedup),
{
}

/// A trace is as long as the events that drive it, and every state in it
/// keeps the group id of the state it started from.
pub proof fn lemma_trace_group_constant(s: StateView, events: Seq<EventView>, dedups: Seq<Seq<char>>)
    ensures
        run_trace(s, events, dedups).len() == events.len(),
        forall|i: int|
            0 <= i < events.len() ==> (#[trigger] run_trace(s, events, dedups)[i]).0.group_id
                == s.group_id,
    decreases events.len(),
{
    if events.len() != 0 {
        let first = spec_step(s, events[0], dedups[0]);
        lemma_step_group_and_dedup(s, events[0], dedups[0]);
        lemma_trace_group_constant(first.0, events.drop_first(), dedups.drop_first());
    }
}

/// Group consistency: every message transferred in one run carries the single
/// caller-supplied group id, regardless of batch or message index.
pub proof fn group_consistency(group_id: Seq<char>, events: Seq<EventView>, dedups: Seq<Seq<char>>)
    ensures
        forall|i: int|
            0 <= i < events.len() ==> ((#[trigger] run_trace(
                spec_init(group_id).0,
                events,
                dedups,
            )[i]).1 matches ActionView::Send { record, .. } ==> record.group_id == group_id),
{
    lemma_trace_sends_keep_group(spec_init(group_id).0, events, dedups);
}

/// Every send in a trace carries the group id of the state the trace started
/// from.
pub proof fn lemma_trace_sends_keep_group(
    s: StateView,
    events: Seq<EventView>,
    dedups: Seq<Seq<char>>,
)
    ensures
        forall|i: int|
            0 <= i < events.len() ==> ((#[trigger] run_trace(s, events, dedups)[i]).1
                matches ActionView::Send { record, .. } ==> record.group_id == s.group_id),
    decreases events.len(),
{
    if events.len() != 0 {
        let first = spec_step(s, events[0], dedups[0]);
        lemma_step_group_and_dedup(s, events[0], dedups[0]);
        lemma_trace_sends_keep_group(first.0, events.drop_first(), dedups.drop_first());
        lemma_trace_group_constant(first.0, events.drop_first(), dedups.drop_first());
        let rest = run_trace(first.0, events.drop_first(), dedups.drop_first());
        assert(run_trace(s, events, dedups) == seq![first] + rest);
        assert forall|i: int| 0 <= i < events.len() implies ((#[trigger] run_trace(
            s,
            events,
            dedups,
        )[i]).1 matches ActionView::Send { record, .. } ==> record.group_id == s.group_id) by {
            if i > 0 {
                assert((seq![first] + rest)[i] == rest[i - 1]);
            }
        }
    }
}

/// Every send in a trace carries exactly the identity drawn at its own step.
pub proof fn lemma_trace_sends_use_own_draw(
    s: StateView,
    events: Seq<EventView>,
    dedups: Seq<Seq<char>>,
)
    requires
        events.len() <= dedups.len(),
    ensures
        forall|i: int|
            0 <= i < events.len() ==> ((#[trigger] run_trace(s, events, dedups)[i]).1
                matches ActionView::Send { record, .. } ==> record.deduplication_id == dedups[i]),
    decreases events.len(),
{
    if events.len() != 0 {
        let first = spec_step(s, events[0], dedups[0]);
        lemma_step_group_and_dedup(s, events[0], dedups[0]);
        lemma_trace_sends_use_own_draw(first.0, events.drop_first(), dedups.drop_first());
        lemma_trace_group_constant(first.0, events.drop_first(), dedups.drop_first());
        let rest = run_trace(first.0, events.drop_first(), dedups.drop_first());
        assert(run_trace(s, events, dedups) == seq![first] + rest);
        assert forall|i: int| 0 <= i < events.len() implies ((#[trigger] run_trace(
            s,
            events,
            dedups,
        )[i]).1 matches ActionView::Send { record, .. } ==> record.deduplication_id == dedups[i])
            by {
            if i > 0 {
                assert((seq![first] + rest)[i] == rest[i - 1]);
                assert(dedups.drop_first()[i - 1] == dedups[i]);
            }
        }
    }
}

/// Deduplication identities are not reused within a run: each send uses the
/// identity drawn for its own step, so as long as the drawn identities are
/// pairwise distinct, no two sends of the run share one.  (The draws are
/// random 128-bit values; that they collide at all has negligible
/// probability, but it cannot be ruled out, hence the premise.)
pub proof fn distinct_draws_give_distinct_identities(
    s: StateView,
    events: Seq<EventView>,
    dedups: Seq<Seq<char>>,
)
    requires
        forall|i: int, j: int|
            0 <= i < j < dedups.len() ==> dedups[i] != dedups[j],
        events.len() <= dedups.len(),
    ensures
        forall|i: int, j: int|
            0 <= i < j < events.len() && (#[trigger] run_trace(s, events, dedups)[i]).1 is Send
                && (#[trigger] run_trace(s, events, dedups)[j]).1 is Send ==> run_trace(
                s,
                events,
                dedups,
            )[i].1->Send_record.deduplication_id != run_trace(
                s,
                events,
                dedups,
            )[j].1->Send_record.deduplication_id,
{
    lemma_trace_sends_use_own_draw(s, events, dedups);
}

/// Skip on missing token: a fetched message without an acknowledgment token
/// is dropped from the pending batch and reported as skipped; it is neither
/// sent nor deleted, and the run goes on.
pub proof fn missing_token_is_skipped(s: StateView, dedup: Seq<char>)
    requires
        s.pending.len() > 0,
        s.pending[0].acknowledgment_token is None,
    ensures
        spec_advance(s, dedup).1 == (ActionView::Skip { identity: s.pending[0].identity@ }),
        !(spec_advance(s, dedup).1 is Send),
        !(spec_advance(s, dedup).1 is Delete),
        spec_advance(s, dedup).0.pending == s.pending.remove(0),
        !(spec_advance(s, dedup).0.phase is Finished),
{
}

/// The continuation decision: once the pending batch is drained, the engine
/// asks for exactly one more batch when the last one was full, and otherwise
/// finishes, taking no further event.  Together with `spec_step`, which marks
/// a batch full exactly when it reached `MAX_BATCH_SIZE`, this is why a short
/// or empty batch ends the run after it is processed.
pub proof fn drained_batch_decides_continuation(s: StateView, dedup: Seq<char>)
    requires
        s.pending.len() == 0,
    ensures
        s.more_expected ==> spec_advance(s, dedup).1 == receive_action(),
        s.more_expected ==> spec_advance(s, dedup).0.phase is AwaitingBatch,
        !s.more_expected ==> spec_advance(s, dedup).1 is Finish,
        !s.more_expected ==> forall|event: EventView|
            !(#[trigger] spec_advance(s, dedup).0.accepts(event)),
{
}

/// A failed send is fatal: the engine emits the fatal-send action, deletes
/// nothing -- the message whose send failed stays at the front of the pending
/// batch -- and the run is over, so no further batch is fetched.
pub proof fn send_failure_is_fatal(s: StateView, dedup: Seq<char>)
    requires
        s.phase is AwaitingSend,
    ensures
        spec_step(s, EventView::SendFailed, dedup).1 is FailSend,
        spec_step(s, EventView::SendFailed, dedup).0.phase is Finished,
        spec_step(s, EventView::SendFailed, dedup).0.pending == s.pending,
        forall|event: EventView|
            !(#[trigger] spec_step(s, EventView::SendFailed, dedup).0.accepts(event)),
{
}

} // verus!
