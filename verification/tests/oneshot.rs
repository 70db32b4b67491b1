use cosmos_gravity::amount::Amount;
use cosmos_gravity::artifacts::Valset;
use cosmos_gravity::coin::Coin;
use cosmos_gravity::eth::{EthAddress, ValsetMember};
use cosmos_gravity::msgs::{
    BadSignatureEvidence, GravityMsg, MsgCancelSendToEth, MsgExecuteIbcAutoForwards,
    MsgRequestBatch, MsgSetOrchestratorAddress, MsgSubmitBadSignatureEvidence, Submission, MEMO,
    TIMEOUT_SECS,
};
use cosmos_gravity::oneshot::{
    cancel_send_to_eth, execute_pending_ibc_auto_forwards, send_request_batch,
    set_gravity_delegate_addresses, submit_bad_signature_evidence, valoper_prefix,
};

fn fee() -> Coin {
    Coin { denom: "ugraviton".to_string(), amount: Amount::from_u64(125) }
}

fn sender() -> String {
    "gravity1sender".to_string()
}

#[test]
fn delegate_addresses_are_registered_in_one_message() {
    let eth = EthAddress {
        bytes: [
            0xd8, 0xda, 0x6b, 0xf2, 0x69, 0x64, 0xaf, 0x9d, 0x7e, 0xed, 0x9e, 0x03, 0xe5, 0x34,
            0x15, 0xd3, 0x7a, 0xa9, 0x60, 0x45,
        ],
    };
    let submission = set_gravity_delegate_addresses(
        &"gravityvaloper1validator".to_string(),
        &eth,
        &"gravity1delegate".to_string(),
        fee(),
    );
    assert_eq!(
        submission,
        Submission {
            messages: vec![GravityMsg::SetOrchestratorAddress(MsgSetOrchestratorAddress {
                validator: "gravityvaloper1validator".to_string(),
                orchestrator: "gravity1delegate".to_string(),
                eth_address: "0xd8dA6BF26964aF9D7eEd9e03E53415D37aA96045".to_string(),
            })],
            memo: Some("Sent using Althea Gravity Bridge Orchestrator".to_string()),
            fees: vec![fee()],
            timeout_secs: 60,
        }
    );
    assert_eq!(submission.messages[0].type_url(), "/gravity.v1.MsgSetOrchestratorAddress");
}

#[test]
fn the_valoper_prefix_extends_the_account_prefix() {
    assert_eq!(valoper_prefix("gravity"), "gravityvaloper");
    assert_eq!(valoper_prefix(""), "valoper");
}

#[test]
fn a_batch_request_carries_the_fee_if_there_is_one() {
    let with_fee = send_request_batch(&sender(), "ugraviton".to_string(), Some(fee()));
    assert_eq!(
        with_fee,
        Submission {
            messages: vec![GravityMsg::RequestBatch(MsgRequestBatch {
                sender: sender(),
                denom: "ugraviton".to_string(),
            })],
            memo: Some(MEMO.to_string()),
            fees: vec![fee()],
            timeout_secs: TIMEOUT_SECS,
        }
    );
    let without_fee = send_request_batch(&sender(), "ugraviton".to_string(), None);
    assert_eq!(without_fee.fees, vec![]);
    assert_eq!(without_fee.messages, with_fee.messages);
    assert_eq!(with_fee.messages[0].type_url(), "/gravity.v1.MsgRequestBatch");
}

#[test]
fn bad_signature_evidence_carries_the_signature_in_hexadecimal() {
    let valset = Valset {
        nonce: 3,
        members: vec![ValsetMember { power: 10, eth_address: EthAddress { bytes: [7; 20] } }],
        reward_amount: Amount::zero(),
        reward_token: None,
    };
    let signature = [0x00u8, 0x0f, 0xf0, 0xff, 0xde, 0xad, 0xbe, 0xef, 0x1b];
    let submission = submit_bad_signature_evidence(
        &sender(),
        fee(),
        BadSignatureEvidence::Valset(valset.clone()),
        &signature,
    );
    assert_eq!(
        submission,
        Submission {
            messages: vec![GravityMsg::SubmitBadSignatureEvidence(MsgSubmitBadSignatureEvidence {
                subject: BadSignatureEvidence::Valset(valset),
                signature: "000ff0ffdeadbeef1b".to_string(),
                sender: sender(),
            })],
            memo: Some(MEMO.to_string()),
            fees: vec![fee()],
            timeout_secs: 60,
        }
    );
    assert_eq!(submission.messages[0].type_url(), "/gravity.v1.MsgSubmitBadSignatureEvidence");
}

#[test]
fn an_empty_signature_has_empty_text() {
    let valset =
        Valset { nonce: 3, members: vec![], reward_amount: Amount::zero(), reward_token: None };
    let submission =
        submit_bad_signature_evidence(&sender(), fee(), BadSignatureEvidence::Valset(valset), &[]);
    match &submission.messages[0] {
        GravityMsg::SubmitBadSignatureEvidence(msg) => assert_eq!(msg.signature, ""),
        _ => panic!("not evidence"),
    }
}

#[test]
fn a_cancellation_names_the_transfer() {
    let submission = cancel_send_to_eth(&sender(), fee(), 42);
    assert_eq!(
        submission,
        Submission {
            messages: vec![GravityMsg::CancelSendToEth(MsgCancelSendToEth {
                transaction_id: 42,
                sender: sender(),
            })],
            memo: Some(MEMO.to_string()),
            fees: vec![fee()],
            timeout_secs: 60,
        }
    );
    assert_eq!(submission.messages[0].type_url(), "/gravity.v1.MsgCancelSendToEth");
}

#[test]
fn auto_forwards_are_executed_without_a_memo() {
    let submission = execute_pending_ibc_auto_forwards(&sender(), fee(), 17);
    assert_eq!(
        submission,
        Submission {
            messages: vec![GravityMsg::ExecuteIbcAutoForwards(MsgExecuteIbcAutoForwards {
                forwards_to_clear: 17,
                executor: sender(),
            })],
            memo: None,
            fees: vec![fee()],
            timeout_secs: 60,
        }
    );
    assert_eq!(submission.messages[0].type_url(), "/gravity.v1.MsgExecuteIbcAutoForwards");
}
