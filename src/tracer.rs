use vstd::prelude::*;
use crate::exclusion::TxHash;

verus! {

/// The transaction body as the chain's RPC returns it, carried through to the
/// caller untouched.
#[verifier::external_type_specification]
#[verifier::external_body]
pub struct ExTransactionView(ckb_jsonrpc_types::TransactionView);

/// Seconds to wait between two rounds of polling.
pub const POLL_INTERVAL_SECS: u64 = 5;

/// Where the chain says a transaction stands.
#[derive(Clone, Copy, Debug, PartialEq, Eq, Structural)]
pub enum Status {
    Pending,
    Proposed,
    Committed,
    Unknown,
    Rejected,
}

/// A transaction's status as the chain reports it.
#[derive(Clone, Debug)]
pub struct TxStatus {
    pub status: Status,
    /// The number of the block that committed the transaction.
    pub block_number: Option<u64>,
    pub block_hash: Option<[u8; 32]>,
    pub tx_index: Option<u32>,
    /// Why the transaction was rejected.
    pub reason: Option<String>,
}

/// A request to follow a transaction until it is deep enough in the chain.
#[derive(Clone, Copy, Debug)]
pub struct TraceTxRequest {
    pub tx_hash: TxHash,
    /// How many blocks must follow the committing block.
    pub confirmations: u64,
}

/// The final answer of a trace.
#[derive(Debug)]
pub struct TraceTxResponse {
    pub tx: Option<ckb_jsonrpc_types::TransactionView>,
    pub status: TxStatus,
}

impl TraceTxResponse {
    pub fn new(tx: Option<ckb_jsonrpc_types::TransactionView>, status: TxStatus) -> (r: Self)
        ensures
            r.tx == tx,
            r.status == status,
    {
        TraceTxResponse { tx, status }
    }
}

/// The block number that committed a transaction, zero where none is given.
pub open spec fn commit_number(s: TxStatus) -> u64 {
    match s.block_number {
        Some(n) => n,
        None => 0,
    }
}

/// A transaction committed at block `commit` has `confirmations` blocks on
/// top of it once the tip has reached `tip`.
pub open spec fn deep_enough(tip: u64, commit: u64, confirmations: u64) -> bool {
    tip as int >= commit as int + confirmations as int
}

pub fn is_deep_enough(tip: u64, commit: u64, confirmations: u64) -> (r: bool)
    ensures
        r == deep_enough(tip, commit, confirmations),
{
    if commit > u64::MAX - confirmations {
        false
    } else {
        tip >= commit + confirmations
    }
}

/// What the tracer has asked for and waits on.
#[derive(Debug)]
pub enum TracePhase {
    /// About to start a round: the reply channel is looked at next.
    Idle,
    /// The transaction's status was asked for.
    AwaitingStatus,
    /// The transaction is committed; the tip block number was asked for.
    AwaitingTip { status: TxStatus, tx: Option<ckb_jsonrpc_types::TransactionView> },
    /// The trace is over; nothing more is done.
    Done,
}

/// What the world tells the tracer.
#[derive(Debug)]
pub enum TraceEvent {
    /// A round starts; `reply_closed` says whether the caller has given up.
    Wake { reply_closed: bool },
    /// The status lookup failed.
    StatusFailed,
    /// The status lookup answered, with the transaction body if it decoded.
    StatusFound { status: TxStatus, tx: Option<ckb_jsonrpc_types::TransactionView> },
    /// The tip block number lookup failed.
    TipFailed,
    /// The tip block number.
    TipFound { tip: u64 },
}

/// What the tracer asks the world to do next.
#[derive(Debug)]
pub enum TraceAction {
    QueryStatus,
    QueryTip,
    /// Wait this many seconds, then wake the tracer again.
    Sleep { secs: u64 },
    /// Send the response, if the reply channel is still open, and stop.
    Reply { response: TraceTxResponse },
    /// Stop without sending anything.
    Stop,
}

/// The event is one the phase waits on.
pub open spec fn expects(phase: TracePhase, event: TraceEvent) -> bool {
    match phase {
        TracePhase::Idle => event is Wake,
        TracePhase::AwaitingStatus => event is StatusFailed || event is StatusFound,
        TracePhase::AwaitingTip { .. } => event is TipFailed || event is TipFound,
        TracePhase::Done => false,
    }
}

/// A round that ends without an answer: wait, then start over.
pub open spec fn retry() -> (TracePhase, TraceAction) {
    (TracePhase::Idle, TraceAction::Sleep { secs: POLL_INTERVAL_SECS })
}

/// The tracer's transition: the next phase and the action, given the phase,
/// the confirmations asked for and the event.
pub open spec fn trace_next(phase: TracePhase, confirmations: u64, event: TraceEvent) -> (
    TracePhase,
    TraceAction,
) {
    match event {
        TraceEvent::Wake { reply_closed } => if reply_closed {
            (TracePhase::Done, TraceAction::Stop)
        } else {
            (TracePhase::AwaitingStatus, TraceAction::QueryStatus)
        },
        TraceEvent::StatusFailed => retry(),
        TraceEvent::StatusFound { status, tx } => match status.status {
            Status::Committed => (TracePhase::AwaitingTip { status, tx }, TraceAction::QueryTip),
            Status::Rejected => (
                TracePhase::Done,
                TraceAction::Reply { response: TraceTxResponse { tx: None, status } },
            ),
            _ => retry(),
        },
        TraceEvent::TipFailed => retry(),
        TraceEvent::TipFound { tip } => match phase {
            TracePhase::AwaitingTip { status, tx } => if deep_enough(
                tip,
                commit_number(status),
                confirmations,
            ) {
                (TracePhase::Done, TraceAction::Reply { response: TraceTxResponse { tx, status } })
            } else {
                retry()
            },
            _ => retry(),
        },
    }
}

/// The polling state of one trace request.
#[derive(Debug)]
pub struct TxTracer {
    pub request: TraceTxRequest,
    pub phase: TracePhase,
}

impl TxTracer {
    pub fn new(request: TraceTxRequest) -> (r: Self)
        ensures
            r.request == request,
            r.phase is Idle,
    {
        TxTracer { request, phase: TracePhase::Idle }
    }

    pub fn is_done(&self) -> (r: bool)
        ensures
            r == (self.phase is Done),
    {
        match self.phase {
            TracePhase::Done => true,
            _ => false,
        }
    }

    /// Takes the event that the last action brought about and returns the next
    /// action.
    pub fn step(&mut self, event: TraceEvent) -> (action: TraceAction)
        requires
            expects(old(self).phase, event),
        ensures
            final(self).request == old(self).request,
            (final(self).phase, action) == trace_next(
                old(self).phase,
                old(self).request.confirmations,
                event,
            ),
    {
        let mut phase = TracePhase::Done;
        std::mem::swap(&mut self.phase, &mut phase);
        match event {
            TraceEvent::Wake { reply_closed } => {
                if reply_closed {
                    TraceAction::Stop
                } else {
                    self.phase = TracePhase::AwaitingStatus;
                    TraceAction::QueryStatus
                }
            },
            TraceEvent::StatusFailed => self.retry(),
            TraceEvent::StatusFound { status, tx } => match status.status {
                Status::Committed => {
                    self.phase = TracePhase::AwaitingTip { status, tx };
                    TraceAction::QueryTip
                },
                Status::Rejected => TraceAction::Reply { response: TraceTxResponse::new(None, status) },
                _ => self.retry(),
            },
            TraceEvent::TipFailed => self.retry(),
            TraceEvent::TipFound { tip } => match phase {
                TracePhase::AwaitingTip { status, tx } => {
                    let commit: u64 = match status.block_number {
                        Some(n) => n,
                        None => 0,
                    };
                    if is_deep_enough(tip, commit, self.request.confirmations) {
                        TraceAction::Reply { response: TraceTxResponse::new(tx, status) }
                    } else {
                        self.retry()
                    }
                },
                _ => self.retry(),
            },
        }
    }

    fn retry(&mut self) -> (action: TraceAction)
        ensures
            final(self).request == old(self).request,
            (final(self).phase, action) == retry(),
    {
        self.phase = TracePhase::Idle;
        TraceAction::Sleep { secs: POLL_INTERVAL_SECS }
    }
}

/// A rejected transaction ends the trace with a response that carries no
/// body, whatever depth was asked for and whatever body came with the status.
pub proof fn lemma_rejected_has_no_body(
    confirmations: u64,
    status: TxStatus,
    tx: Option<ckb_jsonrpc_types::TransactionView>,
)
    requires
        status.status == Status::Rejected,
    ensures
        trace_next(TracePhase::AwaitingStatus, confirmations, TraceEvent::StatusFound { status, tx })
            == (TracePhase::Done, TraceAction::Reply {
            response: TraceTxResponse { tx: None, status },
        }),
{
}

/// Once a committed transaction's tip block number is known, the trace ends
/// with the response exactly when the tip is at least the committing block
/// plus the confirmations; otherwise it waits and polls again.
pub proof fn lemma_committed_depth(
    confirmations: u64,
    status: TxStatus,
    tx: Option<ckb_jsonrpc_types::TransactionView>,
    tip: u64,
)
    requires
        status.status == Status::Committed,
    ensures
        ({
            let (phase, action) = trace_next(
                TracePhase::AwaitingTip { status, tx },
                confirmations,
                TraceEvent::TipFound { tip },
            );
            if tip as int >= commit_number(status) as int + confirmations as int {
                phase is Done && action == (TraceAction::Reply {
                    response: TraceTxResponse { tx, status },
                })
            } else {
                phase is Idle && action == (TraceAction::Sleep { secs: POLL_INTERVAL_SECS })
            }
        }),
{
}

/// A round that finds the reply channel closed stops the trace without a
/// send, and a stopped trace takes no further event.
pub proof fn lemma_closed_channel_stops(confirmations: u64, event: TraceEvent)
    ensures
        trace_next(TracePhase::Idle, confirmations, TraceEvent::Wake { reply_closed: true }) == (
            TracePhase::Done,
            TraceAction::Stop,
        ),
        !expects(TracePhase::Done, event),
{
}

} // verus!
