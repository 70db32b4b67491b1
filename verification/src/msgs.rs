//! The messages that go to the Gravity chain, and the transaction that carries them.
//!
//! The types here hold what each message says. Encoding them for the wire is
//! the caller's business.

use crate::artifacts::{LogicCall, LogicCallView, TransactionBatch, TransactionBatchView, Valset, ValsetView};
use crate::coin::{Coin, CoinView};
use crate::eth::Erc20Token;
use crate::events::{BridgeEvent, BridgeEventView};
use vstd::prelude::*;

verus! {

/// The memo of the transactions that carry one.
pub const MEMO: &'static str = "Sent using Althea Gravity Bridge Orchestrator";

/// How long a transaction may wait for inclusion, in seconds.
pub const TIMEOUT_SECS: u64 = 60;

pub const MSG_SET_ORCHESTRATOR_ADDRESS_TYPE_URL: &'static str = "/gravity.v1.MsgSetOrchestratorAddress";

pub const MSG_VALSET_CONFIRM_TYPE_URL: &'static str = "/gravity.v1.MsgValsetConfirm";

pub const MSG_CONFIRM_BATCH_TYPE_URL: &'static str = "/gravity.v1.MsgConfirmBatch";

pub const MSG_CONFIRM_LOGIC_CALL_TYPE_URL: &'static str = "/gravity.v1.MsgConfirmLogicCall";

pub const MSG_SEND_TO_ETH_TYPE_URL: &'static str = "/gravity.v1.MsgSendToEth";

pub const MSG_REQUEST_BATCH_TYPE_URL: &'static str = "/gravity.v1.MsgRequestBatch";

pub const MSG_SUBMIT_BAD_SIGNATURE_EVIDENCE_TYPE_URL: &'static str = "/gravity.v1.MsgSubmitBadSignatureEvidence";

pub const MSG_CANCEL_SEND_TO_ETH_TYPE_URL: &'static str = "/gravity.v1.MsgCancelSendToEth";

pub const MSG_EXECUTE_IBC_AUTO_FORWARDS_TYPE_URL: &'static str = "/gravity.v1.MsgExecuteIbcAutoForwards";

pub const MSG_SEND_TO_COSMOS_CLAIM_TYPE_URL: &'static str = "/gravity.v1.MsgSendToCosmosClaim";

pub const MSG_BATCH_SEND_TO_ETH_CLAIM_TYPE_URL: &'static str = "/gravity.v1.MsgBatchSendToEthClaim";

pub const MSG_ERC20_DEPLOYED_CLAIM_TYPE_URL: &'static str = "/gravity.v1.MsgERC20DeployedClaim";

pub const MSG_LOGIC_CALL_EXECUTED_CLAIM_TYPE_URL: &'static str = "/gravity.v1.MsgLogicCallExecutedClaim";

pub const MSG_VALSET_UPDATED_CLAIM_TYPE_URL: &'static str = "/gravity.v1.MsgValsetUpdatedClaim";

/// Something a validator is said to have signed.
#[derive(Clone, Debug, PartialEq, Eq)]
pub enum BadSignatureEvidence {
    Valset(Valset),
    Batch(TransactionBatch),
    LogicCall(LogicCall),
}

/// What a `BadSignatureEvidence` holds.
pub enum BadSignatureEvidenceView {
    Valset(ValsetView),
    Batch(TransactionBatchView),
    LogicCall(LogicCallView),
}

impl View for BadSignatureEvidence {
    type V = BadSignatureEvidenceView;

    open spec fn view(&self) -> BadSignatureEvidenceView {
        match self {
            BadSignatureEvidence::Valset(v) => BadSignatureEvidenceView::Valset(v@),
            BadSignatureEvidence::Batch(b) => BadSignatureEvidenceView::Batch(b@),
            BadSignatureEvidence::LogicCall(c) => BadSignatureEvidenceView::LogicCall(c@),
        }
    }
}

/// Registers the addresses that act for a validator.
#[derive(Clone, Debug, PartialEq, Eq)]
pub struct MsgSetOrchestratorAddress {
    pub validator: String,
    pub orchestrator: String,
    pub eth_address: String,
}

/// What a `MsgSetOrchestratorAddress` holds.
pub struct MsgSetOrchestratorAddressView {
    pub validator: Seq<char>,
    pub orchestrator: Seq<char>,
    pub eth_address: Seq<char>,
}

impl View for MsgSetOrchestratorAddress {
    type V = MsgSetOrchestratorAddressView;

    open spec fn view(&self) -> MsgSetOrchestratorAddressView {
        MsgSetOrchestratorAddressView {
            validator: self.validator@,
            orchestrator: self.orchestrator@,
            eth_address: self.eth_address@,
        }
    }
}

/// One orchestrator's signature over a validator set.
#[derive(Clone, Debug, PartialEq, Eq)]
pub struct MsgValsetConfirm {
    pub orchestrator: String,
    pub eth_address: String,
    pub nonce: u64,
    pub signature: String,
}

/// What a `MsgValsetConfirm` holds.
pub struct MsgValsetConfirmView {
    pub orchestrator: Seq<char>,
    pub eth_address: Seq<char>,
    pub nonce: u64,
    pub signature: Seq<char>,
}

impl View for MsgValsetConfirm {
    type V = MsgValsetConfirmView;

    open spec fn view(&self) -> MsgValsetConfirmView {
        MsgValsetConfirmView {
            orchestrator: self.orchestrator@,
            eth_address: self.eth_address@,
            nonce: self.nonce,
            signature: self.signature@,
        }
    }
}

/// One orchestrator's signature over a transaction batch.
#[derive(Clone, Debug, PartialEq, Eq)]
pub struct MsgConfirmBatch {
    pub token_contract: String,
    pub orchestrator: String,
    pub eth_signer: String,
    pub nonce: u64,
    pub signature: String,
}

/// What a `MsgConfirmBatch` holds.
pub struct MsgConfirmBatchView {
    pub token_contract: Seq<char>,
    pub orchestrator: Seq<char>,
    pub eth_signer: Seq<char>,
    pub nonce: u64,
    pub signature: Seq<char>,
}

impl View for MsgConfirmBatch {
    type V = MsgConfirmBatchView;

    open spec fn view(&self) -> MsgConfirmBatchView {
        MsgConfirmBatchView {
            token_contract: self.token_contract@,
            orchestrator: self.orchestrator@,
            eth_signer: self.eth_signer@,
            nonce: self.nonce,
            signature: self.signature@,
        }
    }
}

/// One orchestrator's signature over a logic call.
#[derive(Clone, Debug, PartialEq, Eq)]
pub struct MsgConfirmLogicCall {
    pub orchestrator: String,
    pub eth_signer: String,
    pub signature: String,
    pub invalidation_id: String,
    pub invalidation_nonce: u64,
}

/// What a `MsgConfirmLogicCall` holds.
pub struct MsgConfirmLogicCallView {
    pub orchestrator: Seq<char>,
    pub eth_signer: Seq<char>,
    pub signature: Seq<char>,
    pub invalidation_id: Seq<char>,
    pub invalidation_nonce: u64,
}

impl View for MsgConfirmLogicCall {
    type V = MsgConfirmLogicCallView;

    open spec fn view(&self) -> MsgConfirmLogicCallView {
        MsgConfirmLogicCallView {
            orchestrator: self.orchestrator@,
            eth_signer: self.eth_signer@,
            signature: self.signature@,
            invalidation_id: self.invalidation_id@,
            invalidation_nonce: self.invalidation_nonce,
        }
    }
}

/// Sends tokens from Cosmos to an Ethereum address.
#[derive(Clone, Debug, PartialEq, Eq)]
pub struct MsgSendToEth {
    pub sender: String,
    pub eth_dest: String,
    pub amount: Coin,
    pub bridge_fee: Coin,
    pub chain_fee: Coin,
}

/// What a `MsgSendToEth` holds.
pub struct MsgSendToEthView {
    pub sender: Seq<char>,
    pub eth_dest: Seq<char>,
    pub amount: CoinView,
    pub bridge_fee: CoinView,
    pub chain_fee: CoinView,
}

impl View for MsgSendToEth {
    type V = MsgSendToEthView;

    open spec fn view(&self) -> MsgSendToEthView {
        MsgSendToEthView {
            sender: self.sender@,
            eth_dest: self.eth_dest@,
            amount: self.amount@,
            bridge_fee: self.bridge_fee@,
            chain_fee: self.chain_fee@,
        }
    }
}

/// Asks the chain to form a batch of one denomination.
#[derive(Clone, Debug, PartialEq, Eq)]
pub struct MsgRequestBatch {
    pub sender: String,
    pub denom: String,
}

/// What a `MsgRequestBatch` holds.
pub struct MsgRequestBatchView {
    pub sender: Seq<char>,
    pub denom: Seq<char>,
}

impl View for MsgRequestBatch {
    type V = MsgRequestBatchView;

    open spec fn view(&self) -> MsgRequestBatchView {
        MsgRequestBatchView {
            sender: self.sender@,
            denom: self.denom@,
        }
    }
}

/// Shows that a validator signed something the chain never produced.
#[derive(Clone, Debug, PartialEq, Eq)]
pub struct MsgSubmitBadSignatureEvidence {
    pub subject: BadSignatureEvidence,
    pub signature: String,
    pub sender: String,
}

/// What a `MsgSubmitBadSignatureEvidence` holds.
pub struct MsgSubmitBadSignatureEvidenceView {
    pub subject: BadSignatureEvidenceView,
    pub signature: Seq<char>,
    pub sender: Seq<char>,
}

impl View for MsgSubmitBadSignatureEvidence {
    type V = MsgSubmitBadSignatureEvidenceView;

    open spec fn view(&self) -> MsgSubmitBadSignatureEvidenceView {
        MsgSubmitBadSignatureEvidenceView {
            subject: self.subject@,
            signature: self.signature@,
            sender: self.sender@,
        }
    }
}

/// Withdraws a transfer that is not yet in a batch.
#[derive(Clone, Debug, PartialEq, Eq)]
pub struct MsgCancelSendToEth {
    pub transaction_id: u64,
    pub sender: String,
}

/// What a `MsgCancelSendToEth` holds.
pub struct MsgCancelSendToEthView {
    pub transaction_id: u64,
    pub sender: Seq<char>,
}

impl View for MsgCancelSendToEth {
    type V = MsgCancelSendToEthView;

    open spec fn view(&self) -> MsgCancelSendToEthView {
        MsgCancelSendToEthView {
            transaction_id: self.transaction_id,
            sender: self.sender@,
        }
    }
}

/// Processes pending IBC auto forwards.
#[derive(Clone, Debug, PartialEq, Eq)]
pub struct MsgExecuteIbcAutoForwards {
    pub forwards_to_clear: u64,
    pub executor: String,
}

/// What a `MsgExecuteIbcAutoForwards` holds.
pub struct MsgExecuteIbcAutoForwardsView {
    pub forwards_to_clear: u64,
    pub executor: Seq<char>,
}

impl View for MsgExecuteIbcAutoForwards {
    type V = MsgExecuteIbcAutoForwardsView;

    open spec fn view(&self) -> MsgExecuteIbcAutoForwardsView {
        MsgExecuteIbcAutoForwardsView {
            forwards_to_clear: self.forwards_to_clear,
            executor: self.executor@,
        }
    }
}

/// Attests that an event happened on Ethereum. `bridge_balances` holds what
/// the bridge contract owned at the event's block, where the chain asks for it.
#[derive(Clone, Debug, PartialEq, Eq)]
pub struct ClaimMsg {
    pub orchestrator: String,
    pub event: BridgeEvent,
    pub bridge_balances: Vec<Erc20Token>,
}

/// What a `ClaimMsg` holds.
pub struct ClaimMsgView {
    pub orchestrator: Seq<char>,
    pub event: BridgeEventView,
    pub bridge_balances: Seq<Erc20Token>,
}

impl View for ClaimMsg {
    type V = ClaimMsgView;

    open spec fn view(&self) -> ClaimMsgView {
        ClaimMsgView {
            orchestrator: self.orchestrator@,
            event: self.event@,
            bridge_balances: self.bridge_balances@,
        }
    }
}

/// A message to the Gravity chain.
#[derive(Clone, Debug, PartialEq, Eq)]
pub enum GravityMsg {
    SetOrchestratorAddress(MsgSetOrchestratorAddress),
    ValsetConfirm(MsgValsetConfirm),
    ConfirmBatch(MsgConfirmBatch),
    ConfirmLogicCall(MsgConfirmLogicCall),
    SendToEth(MsgSendToEth),
    RequestBatch(MsgRequestBatch),
    SubmitBadSignatureEvidence(MsgSubmitBadSignatureEvidence),
    CancelSendToEth(MsgCancelSendToEth),
    ExecuteIbcAutoForwards(MsgExecuteIbcAutoForwards),
    Claim(ClaimMsg),
}

/// What a `GravityMsg` holds.
pub enum GravityMsgView {
    SetOrchestratorAddress(MsgSetOrchestratorAddressView),
    ValsetConfirm(MsgValsetConfirmView),
    ConfirmBatch(MsgConfirmBatchView),
    ConfirmLogicCall(MsgConfirmLogicCallView),
    SendToEth(MsgSendToEthView),
    RequestBatch(MsgRequestBatchView),
    SubmitBadSignatureEvidence(MsgSubmitBadSignatureEvidenceView),
    CancelSendToEth(MsgCancelSendToEthView),
    ExecuteIbcAutoForwards(MsgExecuteIbcAutoForwardsView),
    Claim(ClaimMsgView),
}

impl View for GravityMsg {
    type V = GravityMsgView;

    open spec fn view(&self) -> GravityMsgView {
        match self {
            GravityMsg::SetOrchestratorAddress(m) => GravityMsgView::SetOrchestratorAddress(m@),
            GravityMsg::ValsetConfirm(m) => GravityMsgView::ValsetConfirm(m@),
            GravityMsg::ConfirmBatch(m) => GravityMsgView::ConfirmBatch(m@),
            GravityMsg::ConfirmLogicCall(m) => GravityMsgView::ConfirmLogicCall(m@),
            GravityMsg::SendToEth(m) => GravityMsgView::SendToEth(m@),
            GravityMsg::RequestBatch(m) => GravityMsgView::RequestBatch(m@),
            GravityMsg::SubmitBadSignatureEvidence(m) => GravityMsgView::SubmitBadSignatureEvidence(m@),
            GravityMsg::CancelSendToEth(m) => GravityMsgView::CancelSendToEth(m@),
            GravityMsg::ExecuteIbcAutoForwards(m) => GravityMsgView::ExecuteIbcAutoForwards(m@),
            GravityMsg::Claim(m) => GravityMsgView::Claim(m@),
        }
    }
}

impl GravityMsgView {
    /// The identifier under which the chain knows this kind of message.
    pub open spec fn type_url(self) -> Seq<char> {
        match self {
            GravityMsgView::SetOrchestratorAddress(_) => MSG_SET_ORCHESTRATOR_ADDRESS_TYPE_URL@,
            GravityMsgView::ValsetConfirm(_) => MSG_VALSET_CONFIRM_TYPE_URL@,
            GravityMsgView::ConfirmBatch(_) => MSG_CONFIRM_BATCH_TYPE_URL@,
            GravityMsgView::ConfirmLogicCall(_) => MSG_CONFIRM_LOGIC_CALL_TYPE_URL@,
            GravityMsgView::SendToEth(_) => MSG_SEND_TO_ETH_TYPE_URL@,
            GravityMsgView::RequestBatch(_) => MSG_REQUEST_BATCH_TYPE_URL@,
            GravityMsgView::SubmitBadSignatureEvidence(_) => MSG_SUBMIT_BAD_SIGNATURE_EVIDENCE_TYPE_URL@,
            GravityMsgView::CancelSendToEth(_) => MSG_CANCEL_SEND_TO_ETH_TYPE_URL@,
            GravityMsgView::ExecuteIbcAutoForwards(_) => MSG_EXECUTE_IBC_AUTO_FORWARDS_TYPE_URL@,
            GravityMsgView::Claim(m) => match m.event {
                BridgeEventView::SendToCosmos(_) => MSG_SEND_TO_COSMOS_CLAIM_TYPE_URL@,
                BridgeEventView::TransactionBatchExecuted(_) => MSG_BATCH_SEND_TO_ETH_CLAIM_TYPE_URL@,
                BridgeEventView::Erc20Deployed(_) => MSG_ERC20_DEPLOYED_CLAIM_TYPE_URL@,
                BridgeEventView::LogicCallExecuted(_) => MSG_LOGIC_CALL_EXECUTED_CLAIM_TYPE_URL@,
                BridgeEventView::ValsetUpdated(_) => MSG_VALSET_UPDATED_CLAIM_TYPE_URL@,
            },
        }
    }
}

impl GravityMsg {
    /// The identifier under which the chain knows this kind of message.
    pub fn type_url(&self) -> (url: &'static str)
        ensures
            url@ == self@.type_url(),
    {
        match self {
            GravityMsg::SetOrchestratorAddress(_) => MSG_SET_ORCHESTRATOR_ADDRESS_TYPE_URL,
            GravityMsg::ValsetConfirm(_) => MSG_VALSET_CONFIRM_TYPE_URL,
            GravityMsg::ConfirmBatch(_) => MSG_CONFIRM_BATCH_TYPE_URL,
            GravityMsg::ConfirmLogicCall(_) => MSG_CONFIRM_LOGIC_CALL_TYPE_URL,
            GravityMsg::SendToEth(_) => MSG_SEND_TO_ETH_TYPE_URL,
            GravityMsg::RequestBatch(_) => MSG_REQUEST_BATCH_TYPE_URL,
            GravityMsg::SubmitBadSignatureEvidence(_) => MSG_SUBMIT_BAD_SIGNATURE_EVIDENCE_TYPE_URL,
            GravityMsg::CancelSendToEth(_) => MSG_CANCEL_SEND_TO_ETH_TYPE_URL,
            GravityMsg::ExecuteIbcAutoForwards(_) => MSG_EXECUTE_IBC_AUTO_FORWARDS_TYPE_URL,
            GravityMsg::Claim(m) => match &m.event {
                BridgeEvent::SendToCosmos(_) => MSG_SEND_TO_COSMOS_CLAIM_TYPE_URL,
                BridgeEvent::TransactionBatchExecuted(_) => MSG_BATCH_SEND_TO_ETH_CLAIM_TYPE_URL,
                BridgeEvent::Erc20Deployed(_) => MSG_ERC20_DEPLOYED_CLAIM_TYPE_URL,
                BridgeEvent::LogicCallExecuted(_) => MSG_LOGIC_CALL_EXECUTED_CLAIM_TYPE_URL,
                BridgeEvent::ValsetUpdated(_) => MSG_VALSET_UPDATED_CLAIM_TYPE_URL,
            },
        }
    }
}

/// What each message of a list holds.
pub open spec fn msg_views(msgs: Seq<GravityMsg>) -> Seq<GravityMsgView> {
    msgs.map_values(|m: GravityMsg| m@)
}

/// One transaction for the Gravity chain: the messages in the order in which
/// they are to be submitted, and what goes with them. It is submitted whole
/// or not at all.
#[derive(Clone, Debug, PartialEq, Eq)]
pub struct Submission {
    pub messages: Vec<GravityMsg>,
    pub memo: Option<String>,
    pub fees: Vec<Coin>,
    pub timeout_secs: u64,
}

/// What a `Submission` holds.
pub struct SubmissionView {
    pub messages: Seq<GravityMsgView>,
    pub memo: Option<Seq<char>>,
    pub fees: Seq<CoinView>,
    pub timeout_secs: u64,
}

impl View for Submission {
    type V = SubmissionView;

    open spec fn view(&self) -> SubmissionView {
        SubmissionView {
            messages: msg_views(self.messages@),
            memo: match self.memo {
                Some(m) => Some(m@),
                None => None,
            },
            fees: crate::coin::coin_views(self.fees@),
            timeout_secs: self.timeout_secs,
        }
    }
}

} // verus!
