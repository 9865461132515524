use vstd::prelude::*;

verus! {

/// Error code of the chain's RPC for a transaction that is already in the pool.
pub const DUPLICATED_TX_CODE: i64 = -1107;

/// Error code of the chain's RPC for a transaction whose replacement by fee
/// was refused because it conflicts with one already in the pool.
pub const RBF_REJECTED_CODE: i64 = -1111;

/// A failure talking to the chain's RPC endpoint.
#[derive(Clone, Debug, PartialEq, Eq)]
pub enum RpcError {
    /// The endpoint answered with a JSON-RPC error; `data` is its optional
    /// payload as JSON text.
    Rpc { code: i64, message: String, data: Option<String> },
    /// The request did not get a JSON-RPC answer (transport, decoding, ...).
    Transport { message: String },
}

/// The endpoint's answer means that the transaction is already known to the
/// network.
pub open spec fn already_known(e: RpcError) -> bool {
    match e {
        RpcError::Rpc { code, .. } => code == DUPLICATED_TX_CODE || code == RBF_REJECTED_CODE,
        RpcError::Transport { .. } => false,
    }
}

/// What the caller of a submission is told, given what the endpoint answered.
pub open spec fn send_outcome(r: Result<(), RpcError>) -> Result<(), RpcError> {
    match r {
        Ok(()) => Ok(()),
        Err(e) => if already_known(e) {
            Ok(())
        } else {
            Err(e)
        },
    }
}

pub fn is_already_known(e: &RpcError) -> (r: bool)
    ensures
        r == already_known(*e),
{
    match e {
        RpcError::Rpc { code, .. } => *code == DUPLICATED_TX_CODE || *code == RBF_REJECTED_CODE,
        RpcError::Transport { .. } => false,
    }
}

/// Turns the endpoint's answer to a submission into the caller's result: an
/// answer saying that the transaction is already in the pool is a success,
/// and any other error is handed on as it came.
pub fn settle_send_result(r: Result<(), RpcError>) -> (out: Result<(), RpcError>)
    ensures
        out == send_outcome(r),
        r is Ok ==> out is Ok,
        r matches Err(e) ==> {
            &&& already_known(e) ==> out is Ok
            &&& !already_known(e) ==> out == Err::<(), RpcError>(e)
        },
{
    match r {
        Ok(()) => Ok(()),
        Err(e) => {
            if is_already_known(&e) {
                Ok(())
            } else {
                Err(e)
            }
        },
    }
}

/// A submission refused with either pool code counts as a success, whatever
/// the message and data.
pub proof fn lemma_known_codes_succeed(code: i64, message: String, data: Option<String>)
    requires
        code == DUPLICATED_TX_CODE || code == RBF_REJECTED_CODE,
    ensures
        send_outcome(Err(RpcError::Rpc { code, message, data })) == Ok::<(), RpcError>(()),
{
}

/// Any other refusal reaches the caller unchanged.
pub proof fn lemma_other_errors_kept(e: RpcError)
    requires
        !already_known(e),
    ensures
        send_outcome(Err(e)) == Err::<(), RpcError>(e),
{
}

} // verus!
