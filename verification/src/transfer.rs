//! Sending tokens from Cosmos to Ethereum.
//!
//! A transfer names three fees. The bridge fee pays for the Ethereum
//! transaction and the chain fee goes to the Gravity chain; both are paid in
//! the token that is sent. The transaction fee is the Cosmos fee of the
//! message itself and may be of another denomination.
//!
//! Two things may have to be asked of the chain on the way: a chain fee, where
//! the caller gave none, and the sender's balances. `send_to_eth` is told what
//! is known so far and answers with the next step.

use crate::amount::{amount_limit, lemma_amount_bound, uint256_checked_add, uint256_lt, Amount};
use crate::coin::{coin_views, Coin, CoinView};
use crate::eth::{eth_address_text, eth_address_to_string, EthAddress};
use crate::msgs::{
    GravityMsg, GravityMsgView, MsgSendToEth, MsgSendToEthView, Submission, SubmissionView, MEMO,
    TIMEOUT_SECS,
};
use vstd::prelude::*;

verus! {

/// Why a transfer is refused.
#[derive(Clone, Debug, PartialEq, Eq)]
pub enum SendToEthError {
    /// The bridge fee is not in the denomination of the amount.
    BridgeFeeDenom { amount_denom: String, fee_denom: String },
    /// The chain fee is not in the denomination of the amount.
    ChainFeeDenom { amount_denom: String, fee_denom: String },
    /// The sender holds less than `required` of the denomination. `required`
    /// is missing where it exceeds every amount of 256 bits.
    InsufficientBalance { denom: String, required: Option<Amount> },
    /// The sender holds nothing of the denomination.
    NoBalance { denom: String },
}

/// What a `SendToEthError` holds.
pub enum SendToEthErrorView {
    BridgeFeeDenom { amount_denom: Seq<char>, fee_denom: Seq<char> },
    ChainFeeDenom { amount_denom: Seq<char>, fee_denom: Seq<char> },
    InsufficientBalance { denom: Seq<char>, required: Option<nat> },
    NoBalance { denom: Seq<char> },
}

impl View for SendToEthError {
    type V = SendToEthErrorView;

    open spec fn view(&self) -> SendToEthErrorView {
        match self {
            SendToEthError::BridgeFeeDenom { amount_denom, fee_denom } => {
                SendToEthErrorView::BridgeFeeDenom {
                    amount_denom: amount_denom@,
                    fee_denom: fee_denom@,
                }
            },
            SendToEthError::ChainFeeDenom { amount_denom, fee_denom } => {
                SendToEthErrorView::ChainFeeDenom {
                    amount_denom: amount_denom@,
                    fee_denom: fee_denom@,
                }
            },
            SendToEthError::InsufficientBalance { denom, required } => {
                SendToEthErrorView::InsufficientBalance {
                    denom: denom@,
                    required: match required {
                        Some(r) => Some(r@),
                        None => None,
                    },
                }
            },
            SendToEthError::NoBalance { denom } => SendToEthErrorView::NoBalance { denom: denom@ },
        }
    }
}

/// What is to happen next with a transfer.
#[derive(Clone, Debug, PartialEq, Eq)]
pub enum SendToEthStep {
    /// The transfer is refused.
    Reject(SendToEthError),
    /// No chain fee was given: ask the chain for one that fits the amount.
    QueryChainFee,
    /// The fees are in order: ask the chain for the sender's balances.
    QueryBalances,
    /// The transfer is in order: submit this transaction.
    Submit(Submission),
}

/// What a `SendToEthStep` holds.
pub enum SendToEthStepView {
    Reject(SendToEthErrorView),
    QueryChainFee,
    QueryBalances,
    Submit(SubmissionView),
}

impl View for SendToEthStep {
    type V = SendToEthStepView;

    open spec fn view(&self) -> SendToEthStepView {
        match self {
            SendToEthStep::Reject(e) => SendToEthStepView::Reject(e@),
            SendToEthStep::QueryChainFee => SendToEthStepView::QueryChainFee,
            SendToEthStep::QueryBalances => SendToEthStepView::QueryBalances,
            SendToEthStep::Submit(s) => SendToEthStepView::Submit(s@),
        }
    }
}

/// What the sender must hold of the token: the amount, and the transaction
/// fee twice over.
pub open spec fn required_balance(amount: nat, fee: nat) -> nat {
    amount + 2 * fee
}

/// Some balance of `denom` falls short of `required`.
pub open spec fn falls_short(balances: Seq<CoinView>, denom: Seq<char>, required: nat) -> bool {
    exists|i: int|
        0 <= i < balances.len() && (#[trigger] balances[i]).denom == denom && balances[i].amount@
            < required
}

/// Some balance is of `denom`.
pub open spec fn holds_denom(balances: Seq<CoinView>, denom: Seq<char>) -> bool {
    exists|i: int| 0 <= i < balances.len() && (#[trigger] balances[i]).denom == denom
}

/// The chain fee of the transfer: the one given, else the recommended amount
/// in the denomination of the amount sent, else none yet.
pub open spec fn chain_fee_in_use(
    amount: CoinView,
    chain_fee: Option<CoinView>,
    recommended: Option<Amount>,
) -> Option<CoinView> {
    match chain_fee {
        Some(given) => Some(given),
        None => match recommended {
            Some(r) => Some(CoinView { denom: amount.denom, amount: r }),
            None => None,
        },
    }
}

/// The transaction that makes the transfer.
pub open spec fn transfer_submission(
    sender: Seq<char>,
    destination: EthAddress,
    amount: CoinView,
    bridge_fee: CoinView,
    chain_fee: CoinView,
    fee: CoinView,
) -> SubmissionView {
    SubmissionView {
        messages: seq![
            GravityMsgView::SendToEth(
                MsgSendToEthView {
                    sender,
                    eth_dest: eth_address_text(destination.bytes@),
                    amount,
                    bridge_fee,
                    chain_fee,
                },
            ),
        ],
        memo: Some(MEMO@),
        fees: seq![fee],
        timeout_secs: TIMEOUT_SECS,
    }
}

/// The next step of a transfer, given what is known so far. The checks come
/// in this order: the bridge fee's denomination, the chain fee's, then the
/// sender's balance.
pub open spec fn next_step(
    sender: Seq<char>,
    destination: EthAddress,
    amount: CoinView,
    bridge_fee: CoinView,
    chain_fee: Option<CoinView>,
    fee: CoinView,
    recommended: Option<Amount>,
    balances: Option<Seq<CoinView>>,
) -> SendToEthStepView {
    let required = required_balance(amount.amount@, fee.amount@);
    if amount.denom != bridge_fee.denom {
        SendToEthStepView::Reject(
            SendToEthErrorView::BridgeFeeDenom {
                amount_denom: amount.denom,
                fee_denom: bridge_fee.denom,
            },
        )
    } else {
        match chain_fee_in_use(amount, chain_fee, recommended) {
            None => SendToEthStepView::QueryChainFee,
            Some(chain) => if amount.denom != chain.denom {
                SendToEthStepView::Reject(
                    SendToEthErrorView::ChainFeeDenom {
                        amount_denom: amount.denom,
                        fee_denom: chain.denom,
                    },
                )
            } else {
                match balances {
                    None => SendToEthStepView::QueryBalances,
                    Some(held) => if falls_short(held, amount.denom, required) {
                        SendToEthStepView::Reject(
                            SendToEthErrorView::InsufficientBalance {
                                denom: amount.denom,
                                required: if required < amount_limit() {
                                    Some(required)
                                } else {
                                    None
                                },
                            },
                        )
                    } else if !holds_denom(held, amount.denom) {
                        SendToEthStepView::Reject(
                            SendToEthErrorView::NoBalance { denom: amount.denom },
                        )
                    } else {
                        SendToEthStepView::Submit(
                            transfer_submission(
                                sender,
                                destination,
                                amount,
                                bridge_fee,
                                chain,
                                fee,
                            ),
                        )
                    },
                }
            },
        }
    }
}

/// The view of an optional coin.
pub open spec fn optional_coin_view(coin: Option<Coin>) -> Option<CoinView> {
    match coin {
        Some(c) => Some(c@),
        None => None,
    }
}

/// The views of an optional list of coins.
pub open spec fn optional_coin_views(coins: Option<&Vec<Coin>>) -> Option<Seq<CoinView>> {
    match coins {
        Some(held) => Some(coin_views(held@)),
        None => None,
    }
}

/// A transfer whose bridge fee is in another denomination than the amount is
/// refused for that reason whatever else is known: no fee is asked for and no
/// balance is looked at.
pub proof fn lemma_denomination_guard(
    sender: Seq<char>,
    destination: EthAddress,
    amount: CoinView,
    bridge_fee: CoinView,
    chain_fee: Option<CoinView>,
    fee: CoinView,
    recommended: Option<Amount>,
    balances: Option<Seq<CoinView>>,
)
    requires
        amount.denom != bridge_fee.denom,
    ensures
        next_step(sender, destination, amount, bridge_fee, chain_fee, fee, recommended, balances)
            == SendToEthStepView::Reject(
            SendToEthErrorView::BridgeFeeDenom {
                amount_denom: amount.denom,
                fee_denom: bridge_fee.denom,
            },
        ),
{
}

/// A transfer is submitted only if the sender holds the token and every
/// balance of it covers the amount and twice the transaction fee.
pub proof fn lemma_sufficiency_guard(
    sender: Seq<char>,
    destination: EthAddress,
    amount: CoinView,
    bridge_fee: CoinView,
    chain_fee: Option<CoinView>,
    fee: CoinView,
    recommended: Option<Amount>,
    balances: Seq<CoinView>,
)
    requires
        next_step(
            sender,
            destination,
            amount,
            bridge_fee,
            chain_fee,
            fee,
            recommended,
            Some(balances),
        ) is Submit,
    ensures
        holds_denom(balances, amount.denom),
        forall|i: int|
            0 <= i < balances.len() && (#[trigger] balances[i]).denom == amount.denom
                ==> balances[i].amount@ >= amount.amount@ + 2 * fee.amount@,
{
}

/// Says what is to happen next with a transfer of `amount` from `sender` to
/// `destination`.
///
/// `recommended_chain_fee` is the chain's answer to `QueryChainFee` and
/// `balances` its answer to `QueryBalances`, each `None` until it was asked.
pub fn send_to_eth(
    sender: &String,
    destination: &EthAddress,
    amount: &Coin,
    bridge_fee: &Coin,
    chain_fee: &Option<Coin>,
    fee: &Coin,
    recommended_chain_fee: Option<Amount>,
    balances: Option<&Vec<Coin>>,
) -> (step: SendToEthStep)
    ensures
        step@ == next_step(
            sender@,
            *destination,
            amount@,
            bridge_fee@,
            optional_coin_view(*chain_fee),
            fee@,
            recommended_chain_fee,
            optional_coin_views(balances),
        ),
{
    if amount.denom != bridge_fee.denom {
        return SendToEthStep::Reject(
            SendToEthError::BridgeFeeDenom {
                amount_denom: amount.denom.clone(),
                fee_denom: bridge_fee.denom.clone(),
            },
        );
    }
    let chain_fee_used: Coin = match chain_fee {
        Some(given) => given.duplicate(),
        None => match recommended_chain_fee {
            Some(recommended) => Coin { denom: amount.denom.clone(), amount: recommended },
            None => {
                return SendToEthStep::QueryChainFee;
            },
        },
    };
    if amount.denom != chain_fee_used.denom {
        return SendToEthStep::Reject(
            SendToEthError::ChainFeeDenom {
                amount_denom: amount.denom.clone(),
                fee_denom: chain_fee_used.denom.clone(),
            },
        );
    }
    let held: &Vec<Coin> = match balances {
        Some(held) => held,
        None => {
            return SendToEthStep::QueryBalances;
        },
    };
    let ghost required = required_balance(amount.amount@, fee.amount@);
    let total_amount: Option<Amount> = match uint256_checked_add(&fee.amount, &fee.amount) {
        Some(twice) => uint256_checked_add(&amount.amount, &twice),
        None => None,
    };
    assert(match total_amount {
        Some(t) => t@ == required && required < amount_limit(),
        None => required >= amount_limit(),
    });
    let mut found = false;
    let mut i: usize = 0;
    while i < held.len()
        invariant
            i <= held.len(),
            amount.denom@ == bridge_fee.denom@,
            chain_fee_in_use(amount@, optional_coin_view(*chain_fee), recommended_chain_fee)
                == Some(chain_fee_used@),
            amount.denom@ == chain_fee_used.denom@,
            balances == Some(held),
            required == required_balance(amount.amount@, fee.amount@),
            match total_amount {
                Some(t) => t@ == required && required < amount_limit(),
                None => required >= amount_limit(),
            },
            found == holds_denom(coin_views(held@.take(i as int)), amount.denom@),
            !falls_short(coin_views(held@.take(i as int)), amount.denom@, required),
        decreases held.len() - i,
    {
        let ghost seen = coin_views(held@.take(i as int));
        let ghost grown = coin_views(held@.take(i + 1));
        assert(grown.len() == i + 1 && grown[i as int] == held@[i as int]@);
        assert(forall|j: int| 0 <= j < i ==> grown[j] == seen[j]);
        if held[i].denom == amount.denom {
            let short = match &total_amount {
                Some(t) => uint256_lt(&held[i].amount, t),
                None => true,
            };
            proof {
                lemma_amount_bound(held@[i as int].amount);
            }
            if short {
                proof {
                    let all = coin_views(held@);
                    assert(all[i as int] == held@[i as int]@);
                    assert(falls_short(all, amount.denom@, required));
                }
                return SendToEthStep::Reject(
                    SendToEthError::InsufficientBalance {
                        denom: amount.denom.clone(),
                        required: total_amount,
                    },
                );
            }
            found = true;
            assert(holds_denom(grown, amount.denom@));
        } else {
            assert(holds_denom(grown, amount.denom@) == holds_denom(seen, amount.denom@)) by {
                if holds_denom(grown, amount.denom@) {
                    let j = choose|j: int|
                        0 <= j < grown.len() && (#[trigger] grown[j]).denom == amount.denom@;
                    assert(seen[j].denom == amount.denom@);
                }
                if holds_denom(seen, amount.denom@) {
                    let j = choose|j: int|
                        0 <= j < seen.len() && (#[trigger] seen[j]).denom == amount.denom@;
                    assert(grown[j].denom == amount.denom@);
                }
            }
        }
        assert(!falls_short(grown, amount.denom@, required)) by {
            if falls_short(grown, amount.denom@, required) {
                let j = choose|j: int|
                    0 <= j < grown.len() && (#[trigger] grown[j]).denom == amount.denom@
                        && grown[j].amount@ < required;
                if j < i {
                    assert(seen[j].denom == amount.denom@);
                }
            }
        }
        i += 1;
    }
    assert(held@.take(held.len() as int) =~= held@);
    if !found {
        return SendToEthStep::Reject(SendToEthError::NoBalance { denom: amount.denom.clone() });
    }
    let msg_send_to_eth = MsgSendToEth {
        sender: sender.clone(),
        eth_dest: eth_address_to_string(destination),
        amount: amount.duplicate(),
        bridge_fee: bridge_fee.duplicate(),
        chain_fee: chain_fee_used,
    };
    let mut messages: Vec<GravityMsg> = Vec::new();
    messages.push(GravityMsg::SendToEth(msg_send_to_eth));
    let mut fees: Vec<Coin> = Vec::new();
    fees.push(fee.duplicate());
    let submission = Submission {
        messages,
        memo: Some(MEMO.to_owned()),
        fees,
        timeout_secs: TIMEOUT_SECS,
    };
    proof {
        assert(crate::msgs::msg_views(messages@) =~= seq![GravityMsg::SendToEth(msg_send_to_eth)@]);
        assert(coin_views(fees@) =~= seq![fee@]);
    }
    SendToEthStep::Submit(submission)
}

} // verus!
