//! On-chain interaction layer of a payment-channel node: the funding
//! exclusion set, transaction submission outcomes, the confirmation
//! tracer and the chain actor's owned state.

pub mod chain;
pub mod exclusion;
pub mod submit;
pub mod tracer;

pub use chain::{
    lock_args_from_digest, CkbChainState, CkbConfig, FundingContext, Script, ScriptHashType,
};
pub use exclusion::{FundingExclusion, TxHash};
pub use submit::{settle_send_result, RpcError};
pub use tracer::{TraceTxRequest, TraceTxResponse};
