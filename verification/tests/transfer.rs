use cosmos_gravity::amount::Amount;
use cosmos_gravity::coin::Coin;
use cosmos_gravity::eth::EthAddress;
use cosmos_gravity::msgs::{GravityMsg, MsgSendToEth, Submission, MEMO};
use cosmos_gravity::transfer::{send_to_eth, SendToEthError, SendToEthStep};

fn coin(denom: &str, amount: u64) -> Coin {
    Coin { denom: denom.to_string(), amount: Amount::from_u64(amount) }
}

fn sender() -> String {
    "gravity1sender".to_string()
}

fn destination() -> EthAddress {
    EthAddress {
        bytes: [
            0xd8, 0xda, 0x6b, 0xf2, 0x69, 0x64, 0xaf, 0x9d, 0x7e, 0xed, 0x9e, 0x03, 0xe5, 0x34,
            0x15, 0xd3, 0x7a, 0xa9, 0x60, 0x45,
        ],
    }
}

#[test]
fn a_bridge_fee_of_another_denomination_is_refused_before_any_balance_check() {
    let expected = SendToEthStep::Reject(SendToEthError::BridgeFeeDenom {
        amount_denom: "ugraviton".to_string(),
        fee_denom: "uatom".to_string(),
    });
    let without_balances = send_to_eth(
        &sender(),
        &destination(),
        &coin("ugraviton", 90),
        &coin("uatom", 1),
        &None,
        &coin("ugraviton", 10),
        None,
        None,
    );
    assert_eq!(without_balances, expected);
    let balances = vec![coin("ugraviton", 1_000_000)];
    let with_balances = send_to_eth(
        &sender(),
        &destination(),
        &coin("ugraviton", 90),
        &coin("uatom", 1),
        &Some(coin("ugraviton", 1)),
        &coin("ugraviton", 10),
        None,
        Some(&balances),
    );
    assert_eq!(with_balances, expected);
}

#[test]
fn a_balance_below_amount_and_twice_the_fee_is_refused() {
    let balances = vec![coin("ugraviton", 100)];
    let step = send_to_eth(
        &sender(),
        &destination(),
        &coin("ugraviton", 90),
        &coin("ugraviton", 1),
        &Some(coin("ugraviton", 1)),
        &coin("ugraviton", 10),
        None,
        Some(&balances),
    );
    assert_eq!(
        step,
        SendToEthStep::Reject(SendToEthError::InsufficientBalance {
            denom: "ugraviton".to_string(),
            required: Some(Amount::from_u64(110)),
        })
    );
}

#[test]
fn a_balance_of_exactly_amount_and_twice_the_fee_is_enough() {
    let balances = vec![coin("uatom", 3), coin("ugraviton", 110)];
    let step = send_to_eth(
        &sender(),
        &destination(),
        &coin("ugraviton", 90),
        &coin("ugraviton", 2),
        &Some(coin("ugraviton", 3)),
        &coin("ugraviton", 10),
        None,
        Some(&balances),
    );
    assert_eq!(
        step,
        SendToEthStep::Submit(Submission {
            messages: vec![GravityMsg::SendToEth(MsgSendToEth {
                sender: sender(),
                eth_dest: "0xd8dA6BF26964aF9D7eEd9e03E53415D37aA96045".to_string(),
                amount: coin("ugraviton", 90),
                bridge_fee: coin("ugraviton", 2),
                chain_fee: coin("ugraviton", 3),
            })],
            memo: Some(MEMO.to_string()),
            fees: vec![coin("ugraviton", 10)],
            timeout_secs: 60,
        })
    );
}

#[test]
fn a_balance_one_short_is_refused() {
    let balances = vec![coin("ugraviton", 109)];
    let step = send_to_eth(
        &sender(),
        &destination(),
        &coin("ugraviton", 90),
        &coin("ugraviton", 2),
        &Some(coin("ugraviton", 3)),
        &coin("ugraviton", 10),
        None,
        Some(&balances),
    );
    assert!(matches!(step, SendToEthStep::Reject(SendToEthError::InsufficientBalance { .. })));
}

#[test]
fn the_transaction_fee_counts_twice_whatever_its_denomination() {
    let balances = vec![coin("ugraviton", 100)];
    let step = send_to_eth(
        &sender(),
        &destination(),
        &coin("ugraviton", 90),
        &coin("ugraviton", 2),
        &Some(coin("ugraviton", 3)),
        &coin("uatom", 6),
        None,
        Some(&balances),
    );
    assert_eq!(
        step,
        SendToEthStep::Reject(SendToEthError::InsufficientBalance {
            denom: "ugraviton".to_string(),
            required: Some(Amount::from_u64(102)),
        })
    );
}

#[test]
fn no_balance_of_the_denomination_is_refused() {
    let balances = vec![coin("uatom", 1_000_000)];
    let step = send_to_eth(
        &sender(),
        &destination(),
        &coin("ugraviton", 90),
        &coin("ugraviton", 2),
        &Some(coin("ugraviton", 3)),
        &coin("ugraviton", 10),
        None,
        Some(&balances),
    );
    assert_eq!(
        step,
        SendToEthStep::Reject(SendToEthError::NoBalance { denom: "ugraviton".to_string() })
    );
    let nothing: Vec<Coin> = vec![];
    let step = send_to_eth(
        &sender(),
        &destination(),
        &coin("ugraviton", 90),
        &coin("ugraviton", 2),
        &Some(coin("ugraviton", 3)),
        &coin("ugraviton", 10),
        None,
        Some(&nothing),
    );
    assert_eq!(
        step,
        SendToEthStep::Reject(SendToEthError::NoBalance { denom: "ugraviton".to_string() })
    );
}

#[test]
fn a_chain_fee_of_another_denomination_is_refused() {
    let step = send_to_eth(
        &sender(),
        &destination(),
        &coin("ugraviton", 90),
        &coin("ugraviton", 2),
        &Some(coin("uatom", 3)),
        &coin("ugraviton", 10),
        Some(Amount::from_u64(4)),
        None,
    );
    assert_eq!(
        step,
        SendToEthStep::Reject(SendToEthError::ChainFeeDenom {
            amount_denom: "ugraviton".to_string(),
            fee_denom: "uatom".to_string(),
        })
    );
}

#[test]
fn without_a_chain_fee_one_is_asked_for() {
    let step = send_to_eth(
        &sender(),
        &destination(),
        &coin("ugraviton", 90),
        &coin("ugraviton", 2),
        &None,
        &coin("ugraviton", 10),
        None,
        None,
    );
    assert_eq!(step, SendToEthStep::QueryChainFee);
}

#[test]
fn with_fees_in_order_the_balances_are_asked_for() {
    let step = send_to_eth(
        &sender(),
        &destination(),
        &coin("ugraviton", 90),
        &coin("ugraviton", 2),
        &None,
        &coin("ugraviton", 10),
        Some(Amount::from_u64(4)),
        None,
    );
    assert_eq!(step, SendToEthStep::QueryBalances);
}

#[test]
fn a_recommended_chain_fee_is_paid_in_the_token_sent() {
    let balances = vec![coin("ugraviton", 500)];
    let step = send_to_eth(
        &sender(),
        &destination(),
        &coin("ugraviton", 90),
        &coin("ugraviton", 2),
        &None,
        &coin("ugraviton", 10),
        Some(Amount::from_u64(4)),
        Some(&balances),
    );
    match step {
        SendToEthStep::Submit(submission) => match &submission.messages[0] {
            GravityMsg::SendToEth(msg) => assert_eq!(msg.chain_fee, coin("ugraviton", 4)),
            _ => panic!("not a transfer"),
        },
        _ => panic!("not submitted"),
    }
}

#[test]
fn a_given_chain_fee_wins_over_a_recommended_one() {
    let balances = vec![coin("ugraviton", 500)];
    let step = send_to_eth(
        &sender(),
        &destination(),
        &coin("ugraviton", 90),
        &coin("ugraviton", 2),
        &Some(coin("ugraviton", 3)),
        &coin("ugraviton", 10),
        Some(Amount::from_u64(4)),
        Some(&balances),
    );
    match step {
        SendToEthStep::Submit(submission) => match &submission.messages[0] {
            GravityMsg::SendToEth(msg) => assert_eq!(msg.chain_fee, coin("ugraviton", 3)),
            _ => panic!("not a transfer"),
        },
        _ => panic!("not submitted"),
    }
}

#[test]
fn a_requirement_beyond_256_bits_is_never_met() {
    let largest = Amount { bytes: [0xff; 32] };
    let balances = vec![Coin { denom: "ugraviton".to_string(), amount: largest }];
    let step = send_to_eth(
        &sender(),
        &destination(),
        &Coin { denom: "ugraviton".to_string(), amount: largest },
        &coin("ugraviton", 2),
        &Some(coin("ugraviton", 3)),
        &coin("ugraviton", 1),
        None,
        Some(&balances),
    );
    assert_eq!(
        step,
        SendToEthStep::Reject(SendToEthError::InsufficientBalance {
            denom: "ugraviton".to_string(),
            required: None,
        })
    );
    let step = send_to_eth(
        &sender(),
        &destination(),
        &coin("ugraviton", 1),
        &coin("ugraviton", 2),
        &Some(coin("ugraviton", 3)),
        &Coin { denom: "ugraviton".to_string(), amount: largest },
        None,
        Some(&balances),
    );
    assert_eq!(
        step,
        SendToEthStep::Reject(SendToEthError::InsufficientBalance {
            denom: "ugraviton".to_string(),
            required: None,
        })
    );
}

#[test]
fn the_largest_amount_can_be_sent_without_a_fee() {
    let largest = Amount { bytes: [0xff; 32] };
    let balances = vec![Coin { denom: "ugraviton".to_string(), amount: largest }];
    let step = send_to_eth(
        &sender(),
        &destination(),
        &Coin { denom: "ugraviton".to_string(), amount: largest },
        &coin("ugraviton", 2),
        &Some(coin("ugraviton", 3)),
        &coin("ugraviton", 0),
        None,
        Some(&balances),
    );
    assert!(matches!(step, SendToEthStep::Submit(_)));
}

#[test]
fn amounts_above_64_bits_are_compared_by_value() {
    let mut high = [0u8; 32];
    high[0] = 1;
    let mut low = [0u8; 32];
    low[31] = 0xff;
    low[1] = 0xff;
    let balances = vec![Coin { denom: "ugraviton".to_string(), amount: Amount { bytes: low } }];
    let step = send_to_eth(
        &sender(),
        &destination(),
        &Coin { denom: "ugraviton".to_string(), amount: Amount { bytes: high } },
        &coin("ugraviton", 2),
        &Some(coin("ugraviton", 3)),
        &coin("ugraviton", 0),
        None,
        Some(&balances),
    );
    assert_eq!(
        step,
        SendToEthStep::Reject(SendToEthError::InsufficientBalance {
            denom: "ugraviton".to_string(),
            required: Some(Amount { bytes: high }),
        })
    );
}

#[test]
fn any_short_balance_of_the_denomination_refuses_the_transfer() {
    let balances = vec![coin("ugraviton", 500), coin("ugraviton", 5)];
    let step = send_to_eth(
        &sender(),
        &destination(),
        &coin("ugraviton", 90),
        &coin("ugraviton", 2),
        &Some(coin("ugraviton", 3)),
        &coin("ugraviton", 10),
        None,
        Some(&balances),
    );
    assert!(matches!(step, SendToEthStep::Reject(SendToEthError::InsufficientBalance { .. })));
}

#[test]
fn amounts_from_integers_are_big_endian() {
    assert_eq!(Amount::zero().bytes, [0u8; 32]);
    let mut expected = [0u8; 32];
    expected[30] = 4;
    assert_eq!(Amount::from_u64(1024).bytes, expected);
    let mut expected = [0u8; 32];
    expected[24..].copy_from_slice(&[0x01, 0x23, 0x45, 0x67, 0x89, 0xab, 0xcd, 0xef]);
    assert_eq!(Amount::from_u64(0x0123_4567_89ab_cdef).bytes, expected);
    let mut expected = [0u8; 32];
    expected[24..].copy_from_slice(&[0xff; 8]);
    assert_eq!(Amount::from_u64(u64::MAX).bytes, expected);
    assert_eq!(
        num256::Uint256::from_be_bytes(&Amount::from_u64(987_654_321).bytes),
        num256::Uint256::from(987_654_321u64)
    );
}

#[test]
fn a_duplicate_coin_equals_the_coin() {
    let coin_77 = coin("ugraviton", 77);
    assert_eq!(coin_77.duplicate(), coin_77);
}
