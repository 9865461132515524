use ckb_chain::submit::{is_already_known, DUPLICATED_TX_CODE, RBF_REJECTED_CODE};
use ckb_chain::{settle_send_result, RpcError};

fn rpc(code: i64) -> RpcError {
    RpcError::Rpc { code, message: "refused".to_string(), data: Some("\"0xabcd\"".to_string()) }
}

#[test]
fn accepted_submission_succeeds() {
    assert_eq!(settle_send_result(Ok(())), Ok(()));
}

#[test]
fn duplicated_transaction_counts_as_success() {
    assert_eq!(DUPLICATED_TX_CODE, -1107);
    assert_eq!(settle_send_result(Err(rpc(-1107))), Ok(()));
}

#[test]
fn rbf_rejection_counts_as_success() {
    assert_eq!(RBF_REJECTED_CODE, -1111);
    assert_eq!(settle_send_result(Err(rpc(-1111))), Ok(()));
}

#[test]
fn other_rpc_error_is_handed_on() {
    assert_eq!(settle_send_result(Err(rpc(-1108))), Err(rpc(-1108)));
    assert_eq!(settle_send_result(Err(rpc(-301))), Err(rpc(-301)));
    assert!(!is_already_known(&rpc(1107)));
}

#[test]
fn transport_error_is_handed_on() {
    let e = RpcError::Transport { message: "connection refused".to_string() };
    assert_eq!(settle_send_result(Err(e.clone())), Err(e));
}
