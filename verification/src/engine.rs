use vstd::prelude::*;

use crate::messages::{FetchedMessage, RecordView, TransferRecord, DEDUPLICATION_ID_LEN};

verus! {

/// Most messages to request in one receive call; a batch that comes back
/// smaller than this signals queue exhaustion.
pub const MAX_BATCH_SIZE: u32 = 10;

/// Seconds one receive call waits for messages to arrive.
pub const RECEIVE_WAIT_SECONDS: u32 = 3;

/// Seconds a fetched-but-unacknowledged message stays hidden from other
/// receivers of the source queue.
pub const VISIBILITY_TIMEOUT_SECONDS: u32 = 5;

/// Where the engine stands between two queue operations.
#[derive(Clone, Copy, PartialEq, Eq, Structural, Debug)]
pub enum Phase {
    /// A receive call against the source queue is out.
    AwaitingBatch,
    /// A send of the front pending message is out.
    AwaitingSend,
    /// A delete of the front pending message is out.
    AwaitingDelete,
    /// A skipped message is being reported.
    AwaitingSkip,
    /// The run is over; no further event is taken.
    Finished,
}

/// The engine's state: local to one replay run, owned by the caller between
/// steps.
pub struct ReplayState {
    /// The caller-supplied group id, fixed for the whole run.
    pub group_id: String,
    /// Counts receive calls, for the caller's progress reports.
    pub batch_number: u64,
    /// Whether the last batch was full, so another receive is owed.
    pub more_expected: bool,
    /// Messages of the current batch not yet transferred or skipped, in
    /// arrival order.
    pub pending: Vec<FetchedMessage>,
    pub phase: Phase,
}

/// Spec-level image of the engine's state.
pub struct StateView {
    pub group_id: Seq<char>,
    pub batch_number: u64,
    pub more_expected: bool,
    pub pending: Seq<FetchedMessage>,
    pub phase: Phase,
}

impl View for ReplayState {
    type V = StateView;

    open spec fn view(&self) -> StateView {
        StateView {
            group_id: self.group_id@,
            batch_number: self.batch_number,
            more_expected: self.more_expected,
            pending: self.pending@,
            phase: self.phase,
        }
    }
}

/// The outcome of the queue operation the caller was asked to perform.
pub enum Event {
    /// The receive call returned this batch (possibly empty).
    BatchReceived(Vec<FetchedMessage>),
    /// The receive call failed with a transport error.
    ReceiveFailed,
    /// The send call returned a sequence number.
    SendSucceeded,
    /// The send call failed with a transport error.
    SendFailed,
    /// The delete call succeeded.
    DeleteSucceeded,
    /// The delete call failed; by design this is not fatal.
    DeleteFailed,
    /// The skipped message has been reported.
    SkipLogged,
}

/// Spec-level image of an event.
pub enum EventView {
    BatchReceived(Seq<FetchedMessage>),
    ReceiveFailed,
    SendSucceeded,
    SendFailed,
    DeleteSucceeded,
    DeleteFailed,
    SkipLogged,
}

impl View for Event {
    type V = EventView;

    open spec fn view(&self) -> EventView {
        match self {
            Event::BatchReceived(messages) => EventView::BatchReceived(messages@),
            Event::ReceiveFailed => EventView::ReceiveFailed,
            Event::SendSucceeded => EventView::SendSucceeded,
            Event::SendFailed => EventView::SendFailed,
            Event::DeleteSucceeded => EventView::DeleteSucceeded,
            Event::DeleteFailed => EventView::DeleteFailed,
            Event::SkipLogged => EventView::SkipLogged,
        }
    }
}

/// The queue operation the caller must perform next.
pub enum Action {
    /// Issue a bounded receive against the source queue.
    Receive { max_count: u32, wait_time_seconds: u32, visibility_timeout: u32 },
    /// Send this record to the destination queue; `identity` names the source
    /// message it was made from.
    Send { identity: String, record: TransferRecord },
    /// Delete the acknowledged message from the source queue.
    Delete { acknowledgment_token: String },
    /// Report this message as skipped: it had no acknowledgment token and
    /// stays on the source queue.
    Skip { identity: String },
    /// The run is complete.
    Finish,
    /// The run failed on a receive call; fatal.
    FailReceive,
    /// The run failed on a send call; fatal.
    FailSend,
}

/// Spec-level image of an action.
pub enum ActionView {
    Receive { max_count: u32, wait_time_seconds: u32, visibility_timeout: u32 },
    Send { identity: Seq<char>, record: RecordView },
    Delete { acknowledgment_token: Seq<char> },
    Skip { identity: Seq<char> },
    Finish,
    FailReceive,
    FailSend,
}

impl View for Action {
    type V = ActionView;

    open spec fn view(&self) -> ActionView {
        match self {
            Action::Receive { max_count, wait_time_seconds, visibility_timeout } => {
                ActionView::Receive {
                    max_count: *max_count,
                    wait_time_seconds: *wait_time_seconds,
                    visibility_timeout: *visibility_timeout,
                }
            },
            Action::Send { identity, record } => {
                ActionView::Send { identity: identity@, record: record@ }
            },
            Action::Delete { acknowledgment_token } => {
                ActionView::Delete { acknowledgment_token: acknowledgment_token@ }
            },
            Action::Skip { identity } => ActionView::Skip { identity: identity@ },
            Action::Finish => ActionView::Finish,
            Action::FailReceive => ActionView::FailReceive,
            Action::FailSend => ActionView::FailSend,
        }
    }
}

impl StateView {
    /// Which events the engine takes in its current phase: exactly the
    /// possible outcomes of the action it last emitted.
    pub open spec fn accepts(self, event: EventView) -> bool {
        match (self.phase, event) {
            (Phase::AwaitingBatch, EventView::BatchReceived(_)) => true,
            (Phase::AwaitingBatch, EventView::ReceiveFailed) => true,
            (Phase::AwaitingSend, EventView::SendSucceeded) => true,
            (Phase::AwaitingSend, EventView::SendFailed) => true,
            (Phase::AwaitingDelete, EventView::DeleteSucceeded) => true,
            (Phase::AwaitingDelete, EventView::DeleteFailed) => true,
            (Phase::AwaitingSkip, EventView::SkipLogged) => true,
            _ => false,
        }
    }

    /// While a send or delete is out, the message it concerns is still at the
    /// front of the pending batch and carries an acknowledgment token.
    pub open spec fn well_formed(self) -> bool {
        (self.phase is AwaitingSend || self.phase is AwaitingDelete) ==> (self.pending.len() > 0
            && self.pending[0].acknowledgment_token is Some)
    }
}

/// The one receive request the engine ever issues.
pub open spec fn receive_action() -> ActionView {
    ActionView::Receive {
        max_count: MAX_BATCH_SIZE,
        wait_time_seconds: RECEIVE_WAIT_SECONDS,
        visibility_timeout: VISIBILITY_TIMEOUT_SECONDS,
    }
}

/// The batch counter grows by one per receive call; it saturates instead of
/// wrapping, since a run has no upper bound on batches.
pub open spec fn next_batch_number(n: u64) -> u64 {
    if n == u64::MAX {
        n
    } else {
        (n + 1) as u64
    }
}

/// The deduplication identity inside a send action, or the empty sequence for
/// every other action.  It names the freshly drawn identity when one step of
/// the engine is related to the model.
pub open spec fn sent_dedup(action: ActionView) -> Seq<char> {
    match action {
        ActionView::Send { record, .. } => record.deduplication_id,
        _ => Seq::<char>::empty(),
    }
}

/// Moves past the front of the pending batch: skip a token-less message,
/// start a send for one with a token, ask for the next batch, or finish.
/// `dedup` stands for the identity drawn for the send, if one is started; it
/// is ignored otherwise.
pub open spec fn spec_advance(s: StateView, dedup: Seq<char>) -> (StateView, ActionView) {
    if s.pending.len() == 0 {
        if s.more_expected {
            (
                StateView {
                    batch_number: next_batch_number(s.batch_number),
                    phase: Phase::AwaitingBatch,
                    ..s
                },
                receive_action(),
            )
        } else {
            (StateView { phase: Phase::Finished, ..s }, ActionView::Finish)
        }
    } else if s.pending[0].acknowledgment_token is None {
        (
            StateView { pending: s.pending.remove(0), phase: Phase::AwaitingSkip, ..s },
            ActionView::Skip { identity: s.pending[0].identity@ },
        )
    } else {
        (
            StateView { phase: Phase::AwaitingSend, ..s },
            ActionView::Send {
                identity: s.pending[0].identity@,
                record: RecordView {
                    body: s.pending[0].body@,
                    deduplication_id: dedup,
                    group_id: s.group_id,
                },
            },
        )
    }
}

/// One step of the engine: fold the event into the state and name the next
/// queue operation.  A batch smaller than `MAX_BATCH_SIZE` marks the source
/// exhausted; receive and send failures are fatal; a delete failure is not.
pub open spec fn spec_step(s: StateView, event: EventView, dedup: Seq<char>) -> (
    StateView,
    ActionView,
) {
    match (s.phase, event) {
        (Phase::AwaitingBatch, EventView::BatchReceived(messages)) => spec_advance(
            StateView {
                pending: messages,
                more_expected: messages.len() >= MAX_BATCH_SIZE,
                ..s
            },
            dedup,
        ),
        (Phase::AwaitingBatch, EventView::ReceiveFailed) => (
            StateView { phase: Phase::Finished, ..s },
            ActionView::FailReceive,
        ),
        (Phase::AwaitingSend, EventView::SendSucceeded) => (
            StateView { phase: Phase::AwaitingDelete, ..s },
            ActionView::Delete {
                acknowledgment_token: (s.pending[0].acknowledgment_token->0)@,
            },
        ),
        (Phase::AwaitingSend, EventView::SendFailed) => (
            StateView { phase: Phase::Finished, ..s },
            ActionView::FailSend,
        ),
        (Phase::AwaitingDelete, EventView::DeleteSucceeded) => spec_advance(
            StateView { pending: s.pending.remove(0), ..s },
            dedup,
        ),
        (Phase::AwaitingDelete, EventView::DeleteFailed) => spec_advance(
            StateView { pending: s.pending.remove(0), ..s },
            dedup,
        ),
        (Phase::AwaitingSkip, EventView::SkipLogged) => spec_advance(s, dedup),
        _ => (s, ActionView::Finish),
    }
}

/// The state and first action of a fresh run.
pub open spec fn spec_init(group_id: Seq<char>) -> (StateView, ActionView) {
    (
        StateView {
            group_id: group_id,
            batch_number: 1,
            more_expected: true,
            pending: Seq::<FetchedMessage>::empty(),
            phase: Phase::AwaitingBatch,
        },
        receive_action(),
    )
}

/// Starts a replay run for the given group id.  The returned action is the
/// first receive request; the caller performs it and hands the outcome to
/// `step`.
pub fn init(group_id: String) -> (r: (ReplayState, Action))
    ensures
        (r.0@, r.1@) == spec_init(group_id@),
        r.0@.well_formed(),
{
    let state = ReplayState {
        group_id,
        batch_number: 1,
        more_expected: true,
        pending: Vec::new(),
        phase: Phase::AwaitingBatch,
    };
    let action = Action::Receive {
        max_count: MAX_BATCH_SIZE,
        wait_time_seconds: RECEIVE_WAIT_SECONDS,
        visibility_timeout: VISIBILITY_TIMEOUT_SECONDS,
    };
    (state, action)
}

/// Exec twin of `spec_advance`; draws the deduplication identity where the
/// model takes it as a parameter.
fn advance(state: ReplayState) -> (r: (ReplayState, Action))
    ensures
        (r.0@, r.1@) == spec_advance(state@, sent_dedup(r.1@)),
        (r.1@ matches ActionView::Send { record, .. } ==> record.deduplication_id.len()
            == DEDUPLICATION_ID_LEN),
        r.0@.well_formed(),
{
    let mut state = state;
    if state.pending.len() == 0 {
        if state.more_expected {
            state.batch_number = if state.batch_number < u64::MAX {
                state.batch_number + 1
            } else {
                state.batch_number
            };
            state.phase = Phase::AwaitingBatch;
            (
                state,
                Action::Receive {
                    max_count: MAX_BATCH_SIZE,
                    wait_time_seconds: RECEIVE_WAIT_SECONDS,
                    visibility_timeout: VISIBILITY_TIMEOUT_SECONDS,
                },
            )
        } else {
            state.phase = Phase::Finished;
            (state, Action::Finish)
        }
    } else if state.pending[0].acknowledgment_token.is_some() {
        let identity = state.pending[0].identity.clone();
        let body = state.pending[0].body.clone();
        let record = TransferRecord::new(body, state.group_id.clone());
        state.phase = Phase::AwaitingSend;
        (state, Action::Send { identity, record })
    } else {
        let skipped = state.pending.remove(0);
        state.phase = Phase::AwaitingSkip;
        (state, Action::Skip { identity: skipped.identity })
    }
}

/// One step of a run: takes the outcome of the action it last emitted and
/// returns the new state with the next action.  The pair is exactly what
/// `spec_step` gives, with the freshly drawn deduplication identity (36
/// characters, nothing else assumed of it) standing where the model leaves it
/// open.
pub fn step(state: ReplayState, event: Event) -> (r: (ReplayState, Action))
    requires
        state@.well_formed(),
        state@.accepts(event@),
    ensures
        (r.0@, r.1@) == spec_step(state@, event@, sent_dedup(r.1@)),
        (r.1@ matches ActionView::Send { record, .. } ==> record.deduplication_id.len()
            == DEDUPLICATION_ID_LEN),
        r.0@.well_formed(),
{
    let mut state = state;
    match (state.phase, event) {
        (Phase::AwaitingBatch, Event::BatchReceived(messages)) => {
            state.more_expected = messages.len() >= MAX_BATCH_SIZE as usize;
            state.pending = messages;
            advance(state)
        },
        (Phase::AwaitingBatch, Event::ReceiveFailed) => {
            state.phase = Phase::Finished;
            (state, Action::FailReceive)
        },
        (Phase::AwaitingSend, Event::SendSucceeded) => {
            let acknowledgment_token = state.pending[0].acknowledgment_token.as_ref().unwrap().clone();
            state.phase = Phase::AwaitingDelete;
            (state, Action::Delete { acknowledgment_token })
        },
        (Phase::AwaitingSend, Event::SendFailed) => {
            state.phase = Phase::Finished;
            (state, Action::FailSend)
        },
        (Phase::AwaitingDelete, Event::DeleteSucceeded) => {
            let _acknowledged = state.pending.remove(0);
            advance(state)
        },
        (Phase::AwaitingDelete, Event::DeleteFailed) => {
            let _kept = state.pending.remove(0);
            advance(state)
        },
        (Phase::AwaitingSkip, Event::SkipLogged) => advance(state),
        _ => {
            proof {
                assert(false);
            }
            (state, Action::Finish)
        },
    }
}

/// True when the engine takes this event in its current phase; the caller can
/// test it before calling `step`.
pub fn event_matches(state: &ReplayState, event: &Event) -> (r: bool)
    ensures
        r == state@.accepts(event@),
{
    match (state.phase, event) {
        (Phase::AwaitingBatch, Event::BatchReceived(_)) => true,
        (Phase::AwaitingBatch, Event::ReceiveFailed) => true,
        (Phase::AwaitingSend, Event::SendSucceeded) => true,
        (Phase::AwaitingSend, Event::SendFailed) => true,
        (Phase::AwaitingDelete, Event::DeleteSucceeded) => true,
        (Phase::AwaitingDelete, Event::DeleteFailed) => true,
        (Phase::AwaitingSkip, Event::SkipLogged) => true,
        _ => false,
    }
}

impl ReplayState {
    /// Runtime twin of the `well_formed` spec, for callers outside the
    /// verified world.
    pub fn is_well_formed(&self) -> (r: bool)
        ensures
            r == self@.well_formed(),
    {
        match self.phase {
            Phase::AwaitingSend | Phase::AwaitingDelete => self.pending.len() > 0
                && self.pending[0].acknowledgment_token.is_some(),
            _ => true,
        }
    }

    /// True once the run is over and no further event is taken.
    pub fn is_finished(&self) -> (r: bool)
        ensures
            r == (self@.phase is Finished),
    {
        match self.phase {
            Phase::Finished => true,
            _ => false,
        }
    }
}

} // verus!
