//! Confirming validator sets, transaction batches and logic calls.
//!
//! An orchestrator confirms an artifact by signing its checkpoint with its
//! Ethereum key. The checkpoint starts with the identifier of the bridge
//! instance, so that a signature made for one bridge says nothing to another.

use crate::abi::{abi_encoding, abi_views, all_encodable, encode_tokens, is_encodable, AbiValue, AbiValueView};
use crate::amount::{amount_values, Amount};
use crate::artifacts::{BatchTransaction, BatchTransactionView, LogicCall, TransactionBatch, Valset};
use crate::coin::Coin;
use crate::copy::copy_vec;
use crate::eth::{
    address_bytes, eth_address_of_key, eth_address_text, eth_address_to_string, eth_key_address,
    ethereum_signature, sign_ethereum_msg, zero_address, Erc20Token, EthAddress, EthPrivateKey,
    ValsetMember,
};
use crate::hex::{bytes_to_hex_str, hex_text};
use crate::msgs::{
    msg_views, GravityMsg, GravityMsgView, MsgConfirmBatch, MsgConfirmBatchView,
    MsgConfirmLogicCall, MsgConfirmLogicCallView, MsgValsetConfirm, MsgValsetConfirmView,
    Submission, SubmissionView, MEMO, TIMEOUT_SECS,
};
use vstd::prelude::*;

verus! {

/// Why no confirmations could be prepared.
#[derive(Clone, Copy, Debug, PartialEq, Eq)]
pub enum ConfirmError {
    /// The bytes given as the Ethereum key are not a usable key.
    UnusableKey,
    /// The checkpoint of the artifact at this index cannot be encoded: the
    /// bridge identifier or an invalidation id exceeds 32 bytes, or a logic
    /// call has an empty payload.
    NotEncodable(usize),
}

/// The addresses of the members of a validator set, as bytes.
pub open spec fn member_addresses(members: Seq<ValsetMember>) -> Seq<Seq<u8>> {
    members.map_values(|m: ValsetMember| m.eth_address.bytes@)
}

/// The powers of the members of a validator set.
pub open spec fn member_powers(members: Seq<ValsetMember>) -> Seq<nat> {
    members.map_values(|m: ValsetMember| m.power as nat)
}

/// The amounts of a list of tokens.
pub open spec fn token_amounts(tokens: Seq<Erc20Token>) -> Seq<nat> {
    tokens.map_values(|t: Erc20Token| t.amount@)
}

/// The contracts of a list of tokens, as bytes.
pub open spec fn token_contracts(tokens: Seq<Erc20Token>) -> Seq<Seq<u8>> {
    tokens.map_values(|t: Erc20Token| t.token_contract_address.bytes@)
}

/// The amounts that the transfers of a batch send.
pub open spec fn batch_amounts(transactions: Seq<BatchTransactionView>) -> Seq<nat> {
    transactions.map_values(|t: BatchTransactionView| t.erc20_token.amount@)
}

/// The addresses that the transfers of a batch send to, as bytes.
pub open spec fn batch_destinations(transactions: Seq<BatchTransactionView>) -> Seq<Seq<u8>> {
    transactions.map_values(|t: BatchTransactionView| t.destination.bytes@)
}

/// The fees that the transfers of a batch pay.
pub open spec fn batch_fees(transactions: Seq<BatchTransactionView>) -> Seq<nat> {
    transactions.map_values(|t: BatchTransactionView| t.erc20_fee.amount@)
}

/// The text of a signature over the checkpoint made of `tokens`: the
/// hexadecimal form of the signature that `key` makes of the tokens' encoding.
pub open spec fn checkpoint_signature(key: Seq<u8>, tokens: Seq<AbiValueView>) -> Seq<char> {
    hex_text(ethereum_signature(key, abi_encoding(tokens)))
}

/// An artifact that orchestrators confirm.
pub trait Confirmable: Sized {
    /// The values whose encoding is the artifact's checkpoint under the
    /// bridge identifier `gravity_id`.
    spec fn checkpoint_tokens(&self, gravity_id: Seq<char>) -> Seq<AbiValueView>;

    /// The message that confirms the artifact: who confirms, the signature,
    /// and what identifies the artifact.
    spec fn confirm_msg(
        &self,
        orchestrator: Seq<char>,
        eth_signer: Seq<char>,
        signature: Seq<char>,
    ) -> GravityMsgView;

    /// Makes the values of the checkpoint.
    fn checkpoint(&self, gravity_id: &String) -> (tokens: Vec<AbiValue>)
        ensures
            abi_views(tokens@) == self.checkpoint_tokens(gravity_id@),
    ;

    /// Makes the message that confirms the artifact.
    fn to_confirm_msg(&self, orchestrator: &String, eth_signer: &String, signature: String) -> (msg:
        GravityMsg)
        ensures
            msg@ == self.confirm_msg(orchestrator@, eth_signer@, signature@),
    ;
}

/// The confirmation of `artifact` by the holder of `key`, for the bridge `gravity_id`.
pub open spec fn confirmation<A: Confirmable>(
    artifact: A,
    orchestrator: Seq<char>,
    key: Seq<u8>,
    gravity_id: Seq<char>,
) -> GravityMsgView {
    artifact.confirm_msg(
        orchestrator,
        eth_address_text(eth_address_of_key(key)->0),
        checkpoint_signature(key, artifact.checkpoint_tokens(gravity_id)),
    )
}

/// The confirmations of a list of artifacts, one for each, in order.
pub open spec fn confirmations<A: Confirmable>(
    artifacts: Seq<A>,
    orchestrator: Seq<char>,
    key: Seq<u8>,
    gravity_id: Seq<char>,
) -> Seq<GravityMsgView> {
    artifacts.map_values(|a: A| confirmation(a, orchestrator, key, gravity_id))
}

/// The checkpoint of an artifact names the bridge it is for: under two
/// different bridge identifiers the values to be encoded and signed differ,
/// for a validator set, a batch and a logic call alike.
pub proof fn lemma_checkpoint_names_bridge(
    valset: Valset,
    batch: TransactionBatch,
    call: LogicCall,
    first: Seq<char>,
    second: Seq<char>,
)
    requires
        first != second,
    ensures
        valset.checkpoint_tokens(first) != valset.checkpoint_tokens(second),
        batch.checkpoint_tokens(first) != batch.checkpoint_tokens(second),
        call.checkpoint_tokens(first) != call.checkpoint_tokens(second),
{
    assert(valset.checkpoint_tokens(first)[0] == AbiValueView::FixedString(first));
    assert(valset.checkpoint_tokens(second)[0] == AbiValueView::FixedString(second));
    assert(batch.checkpoint_tokens(first)[0] == AbiValueView::FixedString(first));
    assert(batch.checkpoint_tokens(second)[0] == AbiValueView::FixedString(second));
    assert(call.checkpoint_tokens(first)[0] == AbiValueView::FixedString(first));
    assert(call.checkpoint_tokens(second)[0] == AbiValueView::FixedString(second));
}

fn member_address_list(members: &Vec<ValsetMember>) -> (addresses: Vec<EthAddress>)
    ensures
        address_bytes(addresses@) == member_addresses(members@),
{
    let mut addresses: Vec<EthAddress> = Vec::new();
    let mut i: usize = 0;
    while i < members.len()
        invariant
            i <= members.len(),
            addresses@.len() == i,
            forall|j: int| 0 <= j < i ==> addresses@[j] == (#[trigger] members@[j]).eth_address,
        decreases members.len() - i,
    {
        addresses.push(members[i].eth_address);
        i += 1;
    }
    assert(address_bytes(addresses@) =~= member_addresses(members@));
    addresses
}

fn member_power_list(members: &Vec<ValsetMember>) -> (powers: Vec<Amount>)
    ensures
        amount_values(powers@) == member_powers(members@),
{
    let mut powers: Vec<Amount> = Vec::new();
    let mut i: usize = 0;
    while i < members.len()
        invariant
            i <= members.len(),
            powers@.len() == i,
            forall|j: int| 0 <= j < i ==> powers@[j]@ == (#[trigger] members@[j]).power,
        decreases members.len() - i,
    {
        powers.push(Amount::from_u64(members[i].power));
        i += 1;
    }
    assert(amount_values(powers@) =~= member_powers(members@));
    powers
}

fn token_amount_list(tokens: &Vec<Erc20Token>) -> (amounts: Vec<Amount>)
    ensures
        amount_values(amounts@) == token_amounts(tokens@),
{
    let mut amounts: Vec<Amount> = Vec::new();
    let mut i: usize = 0;
    while i < tokens.len()
        invariant
            i <= tokens.len(),
            amounts@.len() == i,
            forall|j: int| 0 <= j < i ==> amounts@[j] == (#[trigger] tokens@[j]).amount,
        decreases tokens.len() - i,
    {
        amounts.push(tokens[i].amount);
        i += 1;
    }
    assert(amount_values(amounts@) =~= token_amounts(tokens@));
    amounts
}

fn token_contract_list(tokens: &Vec<Erc20Token>) -> (contracts: Vec<EthAddress>)
    ensures
        address_bytes(contracts@) == token_contracts(tokens@),
{
    let mut contracts: Vec<EthAddress> = Vec::new();
    let mut i: usize = 0;
    while i < tokens.len()
        invariant
            i <= tokens.len(),
            contracts@.len() == i,
            forall|j: int|
                0 <= j < i ==> contracts@[j] == (#[trigger] tokens@[j]).token_contract_address,
        decreases tokens.len() - i,
    {
        contracts.push(tokens[i].token_contract_address);
        i += 1;
    }
    assert(address_bytes(contracts@) =~= token_contracts(tokens@));
    contracts
}

/// What each transfer of a list holds.
pub open spec fn transaction_views(transactions: Seq<BatchTransaction>) -> Seq<BatchTransactionView> {
    transactions.map_values(|t: BatchTransaction| t@)
}

/// The three lists that a batch's checkpoint holds: amounts, destinations and fees.
fn batch_columns(transactions: &Vec<BatchTransaction>) -> (columns: (
    Vec<Amount>,
    Vec<EthAddress>,
    Vec<Amount>,
))
    ensures
        amount_values(columns.0@) == batch_amounts(transaction_views(transactions@)),
        address_bytes(columns.1@) == batch_destinations(transaction_views(transactions@)),
        amount_values(columns.2@) == batch_fees(transaction_views(transactions@)),
{
    let mut amounts: Vec<Amount> = Vec::new();
    let mut destinations: Vec<EthAddress> = Vec::new();
    let mut fees: Vec<Amount> = Vec::new();
    let mut i: usize = 0;
    while i < transactions.len()
        invariant
            i <= transactions.len(),
            amounts@.len() == i,
            destinations@.len() == i,
            fees@.len() == i,
            forall|j: int|
                0 <= j < i ==> {
                    &&& amounts@[j] == (#[trigger] transactions@[j]).erc20_token.amount
                    &&& destinations@[j] == transactions@[j].destination
                    &&& fees@[j] == transactions@[j].erc20_fee.amount
                },
        decreases transactions.len() - i,
    {
        amounts.push(transactions[i].erc20_token.amount);
        destinations.push(transactions[i].destination);
        fees.push(transactions[i].erc20_fee.amount);
        i += 1;
    }
    assert(amount_values(amounts@) =~= batch_amounts(transaction_views(transactions@)));
    assert(address_bytes(destinations@) =~= batch_destinations(transaction_views(transactions@)));
    assert(amount_values(fees@) =~= batch_fees(transaction_views(transactions@)));
    (amounts, destinations, fees)
}

impl Confirmable for Valset {
    /// The bridge, the word `checkpoint`, the set's nonce, its members'
    /// addresses and powers, and the reward with its token (the zero address
    /// where there is none).
    open spec fn checkpoint_tokens(&self, gravity_id: Seq<char>) -> Seq<AbiValueView> {
        seq![
            AbiValueView::FixedString(gravity_id),
            AbiValueView::FixedString("checkpoint"@),
            AbiValueView::Uint(self.nonce as nat),
            AbiValueView::AddressArray(member_addresses(self.members@)),
            AbiValueView::UintArray(member_powers(self.members@)),
            AbiValueView::Uint(self.reward_amount@),
            AbiValueView::Address(
                match self.reward_token {
                    Some(token) => token.bytes@,
                    None => zero_address(),
                },
            ),
        ]
    }

    open spec fn confirm_msg(
        &self,
        orchestrator: Seq<char>,
        eth_signer: Seq<char>,
        signature: Seq<char>,
    ) -> GravityMsgView {
        GravityMsgView::ValsetConfirm(
            MsgValsetConfirmView {
                orchestrator,
                eth_address: eth_signer,
                nonce: self.nonce,
                signature,
            },
        )
    }

    fn checkpoint(&self, gravity_id: &String) -> (tokens: Vec<AbiValue>) {
        let reward_token = match self.reward_token {
            Some(token) => token,
            None => EthAddress::zero(),
        };
        let mut tokens: Vec<AbiValue> = Vec::new();
        tokens.push(AbiValue::FixedString(gravity_id.clone()));
        tokens.push(AbiValue::FixedString("checkpoint".to_owned()));
        tokens.push(AbiValue::Uint(Amount::from_u64(self.nonce)));
        tokens.push(AbiValue::AddressArray(member_address_list(&self.members)));
        tokens.push(AbiValue::UintArray(member_power_list(&self.members)));
        tokens.push(AbiValue::Uint(self.reward_amount));
        tokens.push(AbiValue::Address(reward_token));
        assert(abi_views(tokens@) =~= self.checkpoint_tokens(gravity_id@));
        tokens
    }

    fn to_confirm_msg(&self, orchestrator: &String, eth_signer: &String, signature: String) -> (msg:
        GravityMsg) {
        GravityMsg::ValsetConfirm(
            MsgValsetConfirm {
                orchestrator: orchestrator.clone(),
                eth_address: eth_signer.clone(),
                nonce: self.nonce,
                signature,
            },
        )
    }
}

impl Confirmable for TransactionBatch {
    /// The bridge, the word `transactionBatch`, the transfers' amounts,
    /// destinations and fees, the batch's nonce, its token and its timeout.
    open spec fn checkpoint_tokens(&self, gravity_id: Seq<char>) -> Seq<AbiValueView> {
        seq![
            AbiValueView::FixedString(gravity_id),
            AbiValueView::FixedString("transactionBatch"@),
            AbiValueView::UintArray(batch_amounts(self@.transactions)),
            AbiValueView::AddressArray(batch_destinations(self@.transactions)),
            AbiValueView::UintArray(batch_fees(self@.transactions)),
            AbiValueView::Uint(self.nonce as nat),
            AbiValueView::Address(self.token_contract.bytes@),
            AbiValueView::Uint(self.batch_timeout as nat),
        ]
    }

    open spec fn confirm_msg(
        &self,
        orchestrator: Seq<char>,
        eth_signer: Seq<char>,
        signature: Seq<char>,
    ) -> GravityMsgView {
        GravityMsgView::ConfirmBatch(
            MsgConfirmBatchView {
                token_contract: eth_address_text(self.token_contract.bytes@),
                orchestrator,
                eth_signer,
                nonce: self.nonce,
                signature,
            },
        )
    }

    fn checkpoint(&self, gravity_id: &String) -> (tokens: Vec<AbiValue>) {
        let (amounts, destinations, fees) = batch_columns(&self.transactions);
        let mut tokens: Vec<AbiValue> = Vec::new();
        tokens.push(AbiValue::FixedString(gravity_id.clone()));
        tokens.push(AbiValue::FixedString("transactionBatch".to_owned()));
        tokens.push(AbiValue::UintArray(amounts));
        tokens.push(AbiValue::AddressArray(destinations));
        tokens.push(AbiValue::UintArray(fees));
        tokens.push(AbiValue::Uint(Amount::from_u64(self.nonce)));
        tokens.push(AbiValue::Address(self.token_contract));
        tokens.push(AbiValue::Uint(Amount::from_u64(self.batch_timeout)));
        assert(abi_views(tokens@) =~= self.checkpoint_tokens(gravity_id@));
        tokens
    }

    fn to_confirm_msg(&self, orchestrator: &String, eth_signer: &String, signature: String) -> (msg:
        GravityMsg) {
        GravityMsg::ConfirmBatch(
            MsgConfirmBatch {
                token_contract: eth_address_to_string(&self.token_contract),
                orchestrator: orchestrator.clone(),
                eth_signer: eth_signer.clone(),
                nonce: self.nonce,
                signature,
            },
        )
    }
}

impl Confirmable for LogicCall {
    /// The bridge, the word `logicCall`, the amounts and tokens of the
    /// transfers and of the fees, the contract to call, the payload, the
    /// timeout, and the invalidation id and nonce.
    open spec fn checkpoint_tokens(&self, gravity_id: Seq<char>) -> Seq<AbiValueView> {
        seq![
            AbiValueView::FixedString(gravity_id),
            AbiValueView::FixedString("logicCall"@),
            AbiValueView::UintArray(token_amounts(self.transfers@)),
            AbiValueView::AddressArray(token_contracts(self.transfers@)),
            AbiValueView::UintArray(token_amounts(self.fees@)),
            AbiValueView::AddressArray(token_contracts(self.fees@)),
            AbiValueView::Address(self.logic_contract_address.bytes@),
            AbiValueView::UnboundedBytes(self.payload@),
            AbiValueView::Uint(self.timeout as nat),
            AbiValueView::Bytes(self.invalidation_id@),
            AbiValueView::Uint(self.invalidation_nonce as nat),
        ]
    }

    open spec fn confirm_msg(
        &self,
        orchestrator: Seq<char>,
        eth_signer: Seq<char>,
        signature: Seq<char>,
    ) -> GravityMsgView {
        GravityMsgView::ConfirmLogicCall(
            MsgConfirmLogicCallView {
                orchestrator,
                eth_signer,
                signature,
                invalidation_id: hex_text(self.invalidation_id@),
                invalidation_nonce: self.invalidation_nonce,
            },
        )
    }

    fn checkpoint(&self, gravity_id: &String) -> (tokens: Vec<AbiValue>) {
        let mut tokens: Vec<AbiValue> = Vec::new();
        tokens.push(AbiValue::FixedString(gravity_id.clone()));
        tokens.push(AbiValue::FixedString("logicCall".to_owned()));
        tokens.push(AbiValue::UintArray(token_amount_list(&self.transfers)));
        tokens.push(AbiValue::AddressArray(token_contract_list(&self.transfers)));
        tokens.push(AbiValue::UintArray(token_amount_list(&self.fees)));
        tokens.push(AbiValue::AddressArray(token_contract_list(&self.fees)));
        tokens.push(AbiValue::Address(self.logic_contract_address));
        tokens.push(AbiValue::UnboundedBytes(copy_vec(&self.payload)));
        tokens.push(AbiValue::Uint(Amount::from_u64(self.timeout)));
        tokens.push(AbiValue::Bytes(copy_vec(&self.invalidation_id)));
        tokens.push(AbiValue::Uint(Amount::from_u64(self.invalidation_nonce)));
        assert(abi_views(tokens@) =~= self.checkpoint_tokens(gravity_id@));
        tokens
    }

    fn to_confirm_msg(&self, orchestrator: &String, eth_signer: &String, signature: String) -> (msg:
        GravityMsg) {
        GravityMsg::ConfirmLogicCall(
            MsgConfirmLogicCall {
                orchestrator: orchestrator.clone(),
                eth_signer: eth_signer.clone(),
                signature,
                invalidation_id: bytes_to_hex_str(self.invalidation_id.as_slice()),
                invalidation_nonce: self.invalidation_nonce,
            },
        )
    }
}

/// What `confirm_all` and the three functions built on it promise.
pub open spec fn confirms<A: Confirmable>(
    result: Result<Submission, ConfirmError>,
    orchestrator: Seq<char>,
    key: Seq<u8>,
    fee: Coin,
    artifacts: Seq<A>,
    gravity_id: Seq<char>,
) -> bool {
    match result {
        Err(ConfirmError::UnusableKey) => eth_address_of_key(key) is None,
        Err(ConfirmError::NotEncodable(index)) => {
            &&& eth_address_of_key(key) is Some
            &&& index < artifacts.len()
            &&& !all_encodable(artifacts[index as int].checkpoint_tokens(gravity_id))
            &&& forall|j: int|
                0 <= j < index ==> all_encodable(
                    (#[trigger] artifacts[j]).checkpoint_tokens(gravity_id),
                )
        },
        Ok(submission) => {
            &&& eth_address_of_key(key) is Some
            &&& forall|j: int|
                0 <= j < artifacts.len() ==> all_encodable(
                    (#[trigger] artifacts[j]).checkpoint_tokens(gravity_id),
                )
            &&& submission@ == (SubmissionView {
                messages: confirmations(artifacts, orchestrator, key, gravity_id),
                memo: Some(MEMO@),
                fees: seq![fee@],
                timeout_secs: TIMEOUT_SECS,
            })
        },
    }
}

/// Prepares the transaction that confirms each of `artifacts`: one message
/// for each, in order, signed with `eth_private_key`.
pub fn confirm_all<A: Confirmable>(
    orchestrator: &String,
    eth_private_key: &EthPrivateKey,
    fee: Coin,
    artifacts: &Vec<A>,
    gravity_id: &String,
) -> (result: Result<Submission, ConfirmError>)
    ensures
        confirms(result, orchestrator@, eth_private_key.bytes@, fee, artifacts@, gravity_id@),
{
    let our_eth_address = match eth_key_address(eth_private_key) {
        Some(address) => address,
        None => {
            return Err(ConfirmError::UnusableKey);
        },
    };
    let eth_signer = eth_address_to_string(&our_eth_address);
    let ghost key = eth_private_key.bytes@;
    let mut messages: Vec<GravityMsg> = Vec::new();
    let mut i: usize = 0;
    while i < artifacts.len()
        invariant
            i <= artifacts.len(),
            key == eth_private_key.bytes@,
            eth_address_of_key(key) == Some(our_eth_address.bytes@),
            eth_signer@ == eth_address_text(our_eth_address.bytes@),
            forall|j: int|
                0 <= j < i ==> all_encodable(
                    (#[trigger] artifacts@[j]).checkpoint_tokens(gravity_id@),
                ),
            messages@.len() == i,
            forall|j: int|
                0 <= j < i ==> (#[trigger] messages@[j])@ == confirmation(
                    artifacts@[j],
                    orchestrator@,
                    key,
                    gravity_id@,
                ),
        decreases artifacts.len() - i,
    {
        let tokens = artifacts[i].checkpoint(gravity_id);
        if !is_encodable(&tokens) {
            return Err(ConfirmError::NotEncodable(i));
        }
        let message = encode_tokens(&tokens);
        let eth_signature = match sign_ethereum_msg(eth_private_key, message.as_slice()) {
            Some(signature) => signature,
            None => {
                return Err(ConfirmError::UnusableKey);
            },
        };
        let signature = bytes_to_hex_str(eth_signature.as_slice());
        let msg = artifacts[i].to_confirm_msg(orchestrator, &eth_signer, signature);
        messages.push(msg);
        i += 1;
    }
    assert(msg_views(messages@) =~= confirmations(artifacts@, orchestrator@, key, gravity_id@));
    let mut fees: Vec<Coin> = Vec::new();
    fees.push(fee);
    assert(crate::coin::coin_views(fees@) =~= seq![fee@]);
    Ok(Submission { messages, memo: Some(MEMO.to_owned()), fees, timeout_secs: TIMEOUT_SECS })
}

/// Prepares the transaction that confirms the given validator sets: all of
/// them in one transaction, one message for each.
pub fn send_valset_confirms(
    orchestrator: &String,
    eth_private_key: &EthPrivateKey,
    fee: Coin,
    valsets: Vec<Valset>,
    gravity_id: &String,
) -> (result: Result<Submission, ConfirmError>)
    ensures
        confirms(result, orchestrator@, eth_private_key.bytes@, fee, valsets@, gravity_id@),
{
    confirm_all(orchestrator, eth_private_key, fee, &valsets, gravity_id)
}

/// Prepares the transaction that confirms the given transaction batches.
pub fn send_batch_confirm(
    orchestrator: &String,
    eth_private_key: &EthPrivateKey,
    fee: Coin,
    transaction_batches: Vec<TransactionBatch>,
    gravity_id: &String,
) -> (result: Result<Submission, ConfirmError>)
    ensures
        confirms(
            result,
            orchestrator@,
            eth_private_key.bytes@,
            fee,
            transaction_batches@,
            gravity_id@,
        ),
{
    confirm_all(orchestrator, eth_private_key, fee, &transaction_batches, gravity_id)
}

/// Prepares the transaction that confirms the given logic calls.
pub fn send_logic_call_confirm(
    orchestrator: &String,
    eth_private_key: &EthPrivateKey,
    fee: Coin,
    logic_calls: Vec<LogicCall>,
    gravity_id: &String,
) -> (result: Result<Submission, ConfirmError>)
    ensures
        confirms(result, orchestrator@, eth_private_key.bytes@, fee, logic_calls@, gravity_id@),
{
    confirm_all(orchestrator, eth_private_key, fee, &logic_calls, gravity_id)
}

} // verus!
