//! What an orchestrator confirms: validator sets, transaction batches and
//! logic calls that are to be executed on Ethereum.

use crate::amount::Amount;
use crate::eth::{Erc20Token, EthAddress, ValsetMember};
use vstd::prelude::*;

verus! {

/// A validator set that the bridge contract is to adopt.
#[derive(Clone, Debug, PartialEq, Eq)]
pub struct Valset {
    pub nonce: u64,
    pub members: Vec<ValsetMember>,
    pub reward_amount: Amount,
    pub reward_token: Option<EthAddress>,
}

/// What a `Valset` holds.
pub struct ValsetView {
    pub nonce: u64,
    pub members: Seq<ValsetMember>,
    pub reward_amount: Amount,
    pub reward_token: Option<EthAddress>,
}

impl View for Valset {
    type V = ValsetView;

    open spec fn view(&self) -> ValsetView {
        ValsetView {
            nonce: self.nonce,
            members: self.members@,
            reward_amount: self.reward_amount,
            reward_token: self.reward_token,
        }
    }
}

/// One transfer out of the bridge, as part of a batch.
#[derive(Clone, Debug, PartialEq, Eq)]
pub struct BatchTransaction {
    pub id: u64,
    pub sender: String,
    pub destination: EthAddress,
    pub erc20_token: Erc20Token,
    pub erc20_fee: Erc20Token,
}

/// What a `BatchTransaction` holds.
pub struct BatchTransactionView {
    pub id: u64,
    pub sender: Seq<char>,
    pub destination: EthAddress,
    pub erc20_token: Erc20Token,
    pub erc20_fee: Erc20Token,
}

impl View for BatchTransaction {
    type V = BatchTransactionView;

    open spec fn view(&self) -> BatchTransactionView {
        BatchTransactionView {
            id: self.id,
            sender: self.sender@,
            destination: self.destination,
            erc20_token: self.erc20_token,
            erc20_fee: self.erc20_fee,
        }
    }
}

/// A batch of transfers of one token out of the bridge.
#[derive(Clone, Debug, PartialEq, Eq)]
pub struct TransactionBatch {
    pub nonce: u64,
    pub batch_timeout: u64,
    pub transactions: Vec<BatchTransaction>,
    pub total_fee: Erc20Token,
    pub token_contract: EthAddress,
}

/// What a `TransactionBatch` holds.
pub struct TransactionBatchView {
    pub nonce: u64,
    pub batch_timeout: u64,
    pub transactions: Seq<BatchTransactionView>,
    pub total_fee: Erc20Token,
    pub token_contract: EthAddress,
}

impl View for TransactionBatch {
    type V = TransactionBatchView;

    open spec fn view(&self) -> TransactionBatchView {
        TransactionBatchView {
            nonce: self.nonce,
            batch_timeout: self.batch_timeout,
            transactions: self.transactions@.map_values(|t: BatchTransaction| t@),
            total_fee: self.total_fee,
            token_contract: self.token_contract,
        }
    }
}

/// An arbitrary call that the bridge contract is to make.
#[derive(Clone, Debug, PartialEq, Eq)]
pub struct LogicCall {
    pub transfers: Vec<Erc20Token>,
    pub fees: Vec<Erc20Token>,
    pub logic_contract_address: EthAddress,
    pub payload: Vec<u8>,
    pub timeout: u64,
    pub invalidation_id: Vec<u8>,
    pub invalidation_nonce: u64,
}

/// What a `LogicCall` holds.
pub struct LogicCallView {
    pub transfers: Seq<Erc20Token>,
    pub fees: Seq<Erc20Token>,
    pub logic_contract_address: EthAddress,
    pub payload: Seq<u8>,
    pub timeout: u64,
    pub invalidation_id: Seq<u8>,
    pub invalidation_nonce: u64,
}

impl View for LogicCall {
    type V = LogicCallView;

    open spec fn view(&self) -> LogicCallView {
        LogicCallView {
            transfers: self.transfers@,
            fees: self.fees@,
            logic_contract_address: self.logic_contract_address,
            payload: self.payload@,
            timeout: self.timeout,
            invalidation_id: self.invalidation_id@,
            invalidation_nonce: self.invalidation_nonce,
        }
    }
}

} // verus!
