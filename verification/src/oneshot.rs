//! Transactions of a single message.

use crate::coin::{coin_views, Coin, CoinView};
use crate::eth::{eth_address_text, eth_address_to_string, EthAddress};
use crate::hex::{bytes_to_hex_str, hex_text};
use crate::msgs::{
    msg_views, BadSignatureEvidence, GravityMsg, GravityMsgView, MsgCancelSendToEth,
    MsgCancelSendToEthView, MsgExecuteIbcAutoForwards, MsgExecuteIbcAutoForwardsView,
    MsgRequestBatch, MsgRequestBatchView, MsgSetOrchestratorAddress, MsgSetOrchestratorAddressView,
    MsgSubmitBadSignatureEvidence, MsgSubmitBadSignatureEvidenceView, Submission, SubmissionView,
    MEMO, TIMEOUT_SECS,
};
use vstd::prelude::*;

verus! {

/// The transaction of one message, with the given memo and fees.
pub open spec fn single_message(
    message: GravityMsgView,
    memo: Option<Seq<char>>,
    fees: Seq<CoinView>,
) -> SubmissionView {
    SubmissionView { messages: seq![message], memo, fees, timeout_secs: TIMEOUT_SECS }
}

/// Wraps one message as a transaction.
fn submit_one(message: GravityMsg, with_memo: bool, fees: Vec<Coin>) -> (submission: Submission)
    ensures
        submission@ == single_message(
            message@,
            if with_memo {
                Some(MEMO@)
            } else {
                None
            },
            coin_views(fees@),
        ),
{
    let mut messages: Vec<GravityMsg> = Vec::new();
    messages.push(message);
    assert(msg_views(messages@) =~= seq![message@]);
    let memo = if with_memo {
        Some(MEMO.to_owned())
    } else {
        None
    };
    Submission { messages, memo, fees, timeout_secs: TIMEOUT_SECS }
}

/// A list of one coin.
fn one_fee(fee: Coin) -> (fees: Vec<Coin>)
    ensures
        coin_views(fees@) == seq![fee@],
{
    let mut fees: Vec<Coin> = Vec::new();
    fees.push(fee);
    assert(coin_views(fees@) =~= seq![fee@]);
    fees
}

/// The prefix of validator operator addresses on a chain whose account
/// addresses have the prefix `prefix`.
pub fn valoper_prefix(prefix: &str) -> (valoper: String)
    ensures
        valoper@ == prefix@ + "valoper"@,
{
    let mut valoper = prefix.to_owned();
    valoper.append("valoper");
    valoper
}

/// Prepares the transaction that registers, for the validator `validator`,
/// the Cosmos address and the Ethereum address that act for it. A validator
/// can do this once.
pub fn set_gravity_delegate_addresses(
    validator: &String,
    delegate_eth_address: &EthAddress,
    delegate_cosmos_address: &String,
    fee: Coin,
) -> (submission: Submission)
    ensures
        submission@ == single_message(
            GravityMsgView::SetOrchestratorAddress(
                MsgSetOrchestratorAddressView {
                    validator: validator@,
                    orchestrator: delegate_cosmos_address@,
                    eth_address: eth_address_text(delegate_eth_address.bytes@),
                },
            ),
            Some(MEMO@),
            seq![fee@],
        ),
{
    let msg_set_orch_address = MsgSetOrchestratorAddress {
        validator: validator.clone(),
        orchestrator: delegate_cosmos_address.clone(),
        eth_address: eth_address_to_string(delegate_eth_address),
    };
    submit_one(GravityMsg::SetOrchestratorAddress(msg_set_orch_address), true, one_fee(fee))
}

/// Prepares the transaction that asks the chain to form a batch of `denom`.
/// It carries the fee, if one is given, and no fee otherwise.
pub fn send_request_batch(sender: &String, denom: String, fee: Option<Coin>) -> (submission:
    Submission)
    ensures
        submission@ == single_message(
            GravityMsgView::RequestBatch(MsgRequestBatchView { sender: sender@, denom: denom@ }),
            Some(MEMO@),
            match fee {
                Some(fee) => seq![fee@],
                None => Seq::empty(),
            },
        ),
{
    let msg_request_batch = MsgRequestBatch { sender: sender.clone(), denom };
    let fees: Vec<Coin> = match fee {
        Some(fee) => one_fee(fee),
        None => {
            let none: Vec<Coin> = Vec::new();
            assert(coin_views(none@) =~= Seq::empty());
            none
        },
    };
    submit_one(GravityMsg::RequestBatch(msg_request_batch), true, fees)
}

/// Prepares the transaction that shows the chain a signature, given as its
/// bytes, which a validator made over `signed_object`.
pub fn submit_bad_signature_evidence(
    sender: &String,
    fee: Coin,
    signed_object: BadSignatureEvidence,
    signature: &[u8],
) -> (submission: Submission)
    ensures
        submission@ == single_message(
            GravityMsgView::SubmitBadSignatureEvidence(
                MsgSubmitBadSignatureEvidenceView {
                    subject: signed_object@,
                    signature: hex_text(signature@),
                    sender: sender@,
                },
            ),
            Some(MEMO@),
            seq![fee@],
        ),
{
    let msg_submit_bad_signature_evidence = MsgSubmitBadSignatureEvidence {
        subject: signed_object,
        signature: bytes_to_hex_str(signature),
        sender: sender.clone(),
    };
    submit_one(
        GravityMsg::SubmitBadSignatureEvidence(msg_submit_bad_signature_evidence),
        true,
        one_fee(fee),
    )
}

/// Prepares the transaction that withdraws the transfer `transaction_id`,
/// which must not be in a batch yet.
pub fn cancel_send_to_eth(sender: &String, fee: Coin, transaction_id: u64) -> (submission:
    Submission)
    ensures
        submission@ == single_message(
            GravityMsgView::CancelSendToEth(
                MsgCancelSendToEthView { transaction_id, sender: sender@ },
            ),
            Some(MEMO@),
            seq![fee@],
        ),
{
    let msg_cancel_send_to_eth = MsgCancelSendToEth { transaction_id, sender: sender.clone() };
    submit_one(GravityMsg::CancelSendToEth(msg_cancel_send_to_eth), true, one_fee(fee))
}

/// Prepares the transaction that has the chain process `forwards_to_clear`
/// pending IBC auto forwards. It carries no memo.
pub fn execute_pending_ibc_auto_forwards(executor: &String, fee: Coin, forwards_to_clear: u64) -> (
    submission: Submission)
    ensures
        submission@ == single_message(
            GravityMsgView::ExecuteIbcAutoForwards(
                MsgExecuteIbcAutoForwardsView { forwards_to_clear, executor: executor@ },
            ),
            None,
            seq![fee@],
        ),
{
    let msg = MsgExecuteIbcAutoForwards { forwards_to_clear, executor: executor.clone() };
    submit_one(GravityMsg::ExecuteIbcAutoForwards(msg), false, one_fee(fee))
}

} // verus!
