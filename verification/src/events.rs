//! Events that the bridge contract emits on Ethereum.
//!
//! All five kinds draw their `event_nonce` from one counter, so a nonce names
//! one event whatever its kind.

use crate::amount::Amount;
use crate::eth::{EthAddress, ValsetMember};
use vstd::prelude::*;

verus! {

/// Tokens were locked in the bridge to be sent to a Cosmos address.
#[derive(Clone, Debug, PartialEq, Eq)]
pub struct SendToCosmosEvent {
    pub erc20: EthAddress,
    pub sender: EthAddress,
    pub destination: String,
    pub amount: Amount,
    pub event_nonce: u64,
    pub block_height: u64,
}

/// What a `SendToCosmosEvent` holds.
pub struct SendToCosmosEventView {
    pub erc20: EthAddress,
    pub sender: EthAddress,
    pub destination: Seq<char>,
    pub amount: Amount,
    pub event_nonce: u64,
    pub block_height: u64,
}

impl View for SendToCosmosEvent {
    type V = SendToCosmosEventView;

    open spec fn view(&self) -> SendToCosmosEventView {
        SendToCosmosEventView {
            erc20: self.erc20,
            sender: self.sender,
            destination: self.destination@,
            amount: self.amount,
            event_nonce: self.event_nonce,
            block_height: self.block_height,
        }
    }
}

/// A transaction batch was executed by the bridge.
#[derive(Clone, Copy, Debug, PartialEq, Eq)]
pub struct TransactionBatchExecutedEvent {
    pub batch_nonce: u64,
    pub block_height: u64,
    pub erc20: EthAddress,
    pub event_nonce: u64,
}

/// The bridge deployed an ERC20 contract for a Cosmos denomination.
#[derive(Clone, Debug, PartialEq, Eq)]
pub struct Erc20DeployedEvent {
    pub cosmos_denom: String,
    pub erc20_address: EthAddress,
    pub name: String,
    pub symbol: String,
    pub decimals: u8,
    pub event_nonce: u64,
    pub block_height: u64,
}

/// What an `Erc20DeployedEvent` holds.
pub struct Erc20DeployedEventView {
    pub cosmos_denom: Seq<char>,
    pub erc20_address: EthAddress,
    pub name: Seq<char>,
    pub symbol: Seq<char>,
    pub decimals: u8,
    pub event_nonce: u64,
    pub block_height: u64,
}

impl View for Erc20DeployedEvent {
    type V = Erc20DeployedEventView;

    open spec fn view(&self) -> Erc20DeployedEventView {
        Erc20DeployedEventView {
            cosmos_denom: self.cosmos_denom@,
            erc20_address: self.erc20_address,
            name: self.name@,
            symbol: self.symbol@,
            decimals: self.decimals,
            event_nonce: self.event_nonce,
            block_height: self.block_height,
        }
    }
}

/// A logic call was executed by the bridge.
#[derive(Clone, Debug, PartialEq, Eq)]
pub struct LogicCallExecutedEvent {
    pub invalidation_id: Vec<u8>,
    pub invalidation_nonce: u64,
    pub return_data: Vec<u8>,
    pub event_nonce: u64,
    pub block_height: u64,
}

/// What a `LogicCallExecutedEvent` holds.
pub struct LogicCallExecutedEventView {
    pub invalidation_id: Seq<u8>,
    pub invalidation_nonce: u64,
    pub return_data: Seq<u8>,
    pub event_nonce: u64,
    pub block_height: u64,
}

impl View for LogicCallExecutedEvent {
    type V = LogicCallExecutedEventView;

    open spec fn view(&self) -> LogicCallExecutedEventView {
        LogicCallExecutedEventView {
            invalidation_id: self.invalidation_id@,
            invalidation_nonce: self.invalidation_nonce,
            return_data: self.return_data@,
            event_nonce: self.event_nonce,
            block_height: self.block_height,
        }
    }
}

/// The bridge adopted a new validator set.
#[derive(Clone, Debug, PartialEq, Eq)]
pub struct ValsetUpdatedEvent {
    pub valset_nonce: u64,
    pub event_nonce: u64,
    pub block_height: u64,
    pub reward_amount: Amount,
    pub reward_token: Option<EthAddress>,
    pub members: Vec<ValsetMember>,
}

/// What a `ValsetUpdatedEvent` holds.
pub struct ValsetUpdatedEventView {
    pub valset_nonce: u64,
    pub event_nonce: u64,
    pub block_height: u64,
    pub reward_amount: Amount,
    pub reward_token: Option<EthAddress>,
    pub members: Seq<ValsetMember>,
}

impl View for ValsetUpdatedEvent {
    type V = ValsetUpdatedEventView;

    open spec fn view(&self) -> ValsetUpdatedEventView {
        ValsetUpdatedEventView {
            valset_nonce: self.valset_nonce,
            event_nonce: self.event_nonce,
            block_height: self.block_height,
            reward_amount: self.reward_amount,
            reward_token: self.reward_token,
            members: self.members@,
        }
    }
}

/// An event of any of the five kinds.
#[derive(Clone, Debug, PartialEq, Eq)]
pub enum BridgeEvent {
    SendToCosmos(SendToCosmosEvent),
    TransactionBatchExecuted(TransactionBatchExecutedEvent),
    Erc20Deployed(Erc20DeployedEvent),
    LogicCallExecuted(LogicCallExecutedEvent),
    ValsetUpdated(ValsetUpdatedEvent),
}

/// What a `BridgeEvent` holds.
pub enum BridgeEventView {
    SendToCosmos(SendToCosmosEventView),
    TransactionBatchExecuted(TransactionBatchExecutedEvent),
    Erc20Deployed(Erc20DeployedEventView),
    LogicCallExecuted(LogicCallExecutedEventView),
    ValsetUpdated(ValsetUpdatedEventView),
}

impl BridgeEventView {
    /// The event's number in the bridge's one sequence of events.
    pub open spec fn event_nonce(self) -> u64 {
        match self {
            BridgeEventView::SendToCosmos(e) => e.event_nonce,
            BridgeEventView::TransactionBatchExecuted(e) => e.event_nonce,
            BridgeEventView::Erc20Deployed(e) => e.event_nonce,
            BridgeEventView::LogicCallExecuted(e) => e.event_nonce,
            BridgeEventView::ValsetUpdated(e) => e.event_nonce,
        }
    }

    /// The Ethereum block in which the event happened.
    pub open spec fn block_height(self) -> u64 {
        match self {
            BridgeEventView::SendToCosmos(e) => e.block_height,
            BridgeEventView::TransactionBatchExecuted(e) => e.block_height,
            BridgeEventView::Erc20Deployed(e) => e.block_height,
            BridgeEventView::LogicCallExecuted(e) => e.block_height,
            BridgeEventView::ValsetUpdated(e) => e.block_height,
        }
    }
}

impl View for BridgeEvent {
    type V = BridgeEventView;

    open spec fn view(&self) -> BridgeEventView {
        match self {
            BridgeEvent::SendToCosmos(e) => BridgeEventView::SendToCosmos(e@),
            BridgeEvent::TransactionBatchExecuted(e) => BridgeEventView::TransactionBatchExecuted(
                *e,
            ),
            BridgeEvent::Erc20Deployed(e) => BridgeEventView::Erc20Deployed(e@),
            BridgeEvent::LogicCallExecuted(e) => BridgeEventView::LogicCallExecuted(e@),
            BridgeEvent::ValsetUpdated(e) => BridgeEventView::ValsetUpdated(e@),
        }
    }
}

impl BridgeEvent {
    /// The event's number in the bridge's one sequence of events.
    pub fn get_event_nonce(&self) -> (nonce: u64)
        ensures
            nonce == self@.event_nonce(),
    {
        match self {
            BridgeEvent::SendToCosmos(e) => e.event_nonce,
            BridgeEvent::TransactionBatchExecuted(e) => e.event_nonce,
            BridgeEvent::Erc20Deployed(e) => e.event_nonce,
            BridgeEvent::LogicCallExecuted(e) => e.event_nonce,
            BridgeEvent::ValsetUpdated(e) => e.event_nonce,
        }
    }

    /// The Ethereum block in which the event happened.
    pub fn get_block_height(&self) -> (height: u64)
        ensures
            height == self@.block_height(),
    {
        match self {
            BridgeEvent::SendToCosmos(e) => e.block_height,
            BridgeEvent::TransactionBatchExecuted(e) => e.block_height,
            BridgeEvent::Erc20Deployed(e) => e.block_height,
            BridgeEvent::LogicCallExecuted(e) => e.block_height,
            BridgeEvent::ValsetUpdated(e) => e.block_height,
        }
    }
}

/// An event of one of the five kinds.
pub trait EthereumEvent: Sized {
    /// The event, as one of any kind.
    spec fn bridge_event(self) -> BridgeEventView;

    /// Wraps the event as one of any kind.
    fn into_bridge_event(self) -> (event: BridgeEvent)
        ensures
            event@ == self.bridge_event(),
    ;
}

impl EthereumEvent for SendToCosmosEvent {
    open spec fn bridge_event(self) -> BridgeEventView {
        BridgeEventView::SendToCosmos(self@)
    }

    fn into_bridge_event(self) -> (event: BridgeEvent) {
        BridgeEvent::SendToCosmos(self)
    }
}

impl EthereumEvent for TransactionBatchExecutedEvent {
    open spec fn bridge_event(self) -> BridgeEventView {
        BridgeEventView::TransactionBatchExecuted(self)
    }

    fn into_bridge_event(self) -> (event: BridgeEvent) {
        BridgeEvent::TransactionBatchExecuted(self)
    }
}

impl EthereumEvent for Erc20DeployedEvent {
    open spec fn bridge_event(self) -> BridgeEventView {
        BridgeEventView::Erc20Deployed(self@)
    }

    fn into_bridge_event(self) -> (event: BridgeEvent) {
        BridgeEvent::Erc20Deployed(self)
    }
}

impl EthereumEvent for LogicCallExecutedEvent {
    open spec fn bridge_event(self) -> BridgeEventView {
        BridgeEventView::LogicCallExecuted(self@)
    }

    fn into_bridge_event(self) -> (event: BridgeEvent) {
        BridgeEvent::LogicCallExecuted(self)
    }
}

impl EthereumEvent for ValsetUpdatedEvent {
    open spec fn bridge_event(self) -> BridgeEventView {
        BridgeEventView::ValsetUpdated(self@)
    }

    fn into_bridge_event(self) -> (event: BridgeEvent) {
        BridgeEvent::ValsetUpdated(self)
    }
}

/// The events of a list, each as one of any kind.
pub open spec fn bridge_events<E: EthereumEvent>(events: Seq<E>) -> Seq<BridgeEventView> {
    events.map_values(|e: E| e.bridge_event())
}

} // verus!
