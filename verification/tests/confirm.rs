use clarity::abi::{encode_tokens, get_hash, AbiToken};
use cosmos_gravity::abi::{is_encodable, AbiValue};
use cosmos_gravity::amount::Amount;
use cosmos_gravity::artifacts::{BatchTransaction, LogicCall, TransactionBatch, Valset};
use cosmos_gravity::coin::Coin;
use cosmos_gravity::confirm::{
    send_batch_confirm, send_logic_call_confirm, send_valset_confirms, ConfirmError,
};
use cosmos_gravity::eth::{Erc20Token, EthAddress, EthPrivateKey, ValsetMember};
use cosmos_gravity::msgs::{
    GravityMsg, MsgConfirmBatch, MsgConfirmLogicCall, MsgValsetConfirm, MEMO,
};

const KEY: [u8; 32] = [
    0x01, 0x02, 0x03, 0x04, 0x05, 0x06, 0x07, 0x08, 0x09, 0x0a, 0x0b, 0x0c, 0x0d, 0x0e, 0x0f, 0x10,
    0x11, 0x12, 0x13, 0x14, 0x15, 0x16, 0x17, 0x18, 0x19, 0x1a, 0x1b, 0x1c, 0x1d, 0x1e, 0x1f, 0x1e,
];

fn key() -> EthPrivateKey {
    EthPrivateKey { bytes: KEY }
}

fn clarity_key() -> clarity::PrivateKey {
    clarity::PrivateKey::from_bytes(KEY).unwrap()
}

fn orchestrator() -> String {
    "gravity1orchestrator".to_string()
}

fn fee() -> Coin {
    Coin { denom: "ugraviton".to_string(), amount: Amount::from_u64(3) }
}

fn address(tag: u8) -> EthAddress {
    EthAddress { bytes: [tag; 20] }
}

fn token(tag: u8, amount: u64) -> Erc20Token {
    Erc20Token { token_contract_address: address(tag), amount: Amount::from_u64(amount) }
}

fn valset(nonce: u64) -> Valset {
    Valset {
        nonce,
        members: vec![
            ValsetMember { power: 3_000_000_000, eth_address: address(0xa1) },
            ValsetMember { power: 1_294_967_295, eth_address: address(0xb2) },
        ],
        reward_amount: Amount::from_u64(1_000),
        reward_token: Some(address(0xc3)),
    }
}

fn batch(nonce: u64) -> TransactionBatch {
    TransactionBatch {
        nonce,
        batch_timeout: 4_000,
        transactions: vec![
            BatchTransaction {
                id: 1,
                sender: "gravity1a".to_string(),
                destination: address(0x11),
                erc20_token: token(0x77, 100),
                erc20_fee: token(0x77, 2),
            },
            BatchTransaction {
                id: 2,
                sender: "gravity1b".to_string(),
                destination: address(0x22),
                erc20_token: token(0x77, 200),
                erc20_fee: token(0x77, 3),
            },
        ],
        total_fee: token(0x77, 5),
        token_contract: EthAddress {
            bytes: [
                0xd8, 0xda, 0x6b, 0xf2, 0x69, 0x64, 0xaf, 0x9d, 0x7e, 0xed, 0x9e, 0x03, 0xe5,
                0x34, 0x15, 0xd3, 0x7a, 0xa9, 0x60, 0x45,
            ],
        },
    }
}

fn call(invalidation_nonce: u64) -> LogicCall {
    LogicCall {
        transfers: vec![token(0x31, 10), token(0x32, 20)],
        fees: vec![token(0x33, 1)],
        logic_contract_address: address(0x44),
        payload: vec![0xde, 0xad, 0xbe, 0xef],
        timeout: 9_000,
        invalidation_id: vec![0xab, 0xcd],
        invalidation_nonce,
    }
}

fn uint(value: u64) -> AbiToken {
    AbiToken::Uint(value.into())
}

fn addr(a: EthAddress) -> AbiToken {
    AbiToken::Address(clarity::Address::from(a.bytes))
}

fn valset_checkpoint(gravity_id: &str, v: &Valset) -> Vec<u8> {
    encode_tokens(&[
        AbiToken::FixedString(gravity_id.to_string()),
        AbiToken::FixedString("checkpoint".to_string()),
        uint(v.nonce),
        AbiToken::Dynamic(v.members.iter().map(|m| addr(m.eth_address)).collect()),
        AbiToken::Dynamic(v.members.iter().map(|m| uint(m.power)).collect()),
        AbiToken::Uint(num256::Uint256::from_be_bytes(&v.reward_amount.bytes)),
        addr(v.reward_token.unwrap_or(EthAddress { bytes: [0; 20] })),
    ])
}

fn hex(bytes: &[u8]) -> String {
    let mut text = String::new();
    for b in bytes {
        text.push_str(&format!("{:02x}", b));
    }
    text
}

fn unhex(text: &str) -> Vec<u8> {
    (0..text.len() / 2).map(|i| u8::from_str_radix(&text[2 * i..2 * i + 2], 16).unwrap()).collect()
}

fn signed_digest(message: &[u8]) -> [u8; 32] {
    let mut salted = "\x19Ethereum Signed Message:\n32".as_bytes().to_vec();
    salted.extend_from_slice(&get_hash(message));
    get_hash(&salted)
}

fn signer_of(signature_text: &str, message: &[u8]) -> Option<clarity::Address> {
    let signature = clarity::Signature::from_bytes(&unhex(signature_text)).unwrap();
    signature.recover(&signed_digest(message)).ok()
}

fn valset_confirm_of(msg: &GravityMsg) -> &MsgValsetConfirm {
    match msg {
        GravityMsg::ValsetConfirm(confirm) => confirm,
        _ => panic!("not a valset confirmation"),
    }
}

#[test]
fn each_valset_gets_one_confirmation_in_order() {
    let submission = send_valset_confirms(
        &orchestrator(),
        &key(),
        fee(),
        vec![valset(5), valset(2), valset(9)],
        &"foo".to_string(),
    )
    .unwrap();
    assert_eq!(submission.messages.len(), 3);
    assert_eq!(submission.memo, Some(MEMO.to_string()));
    assert_eq!(submission.fees, vec![fee()]);
    assert_eq!(submission.timeout_secs, 60);
    let got: Vec<u64> = submission.messages.iter().map(|m| valset_confirm_of(m).nonce).collect();
    assert_eq!(got, vec![5, 2, 9]);
    for msg in submission.messages.iter() {
        assert_eq!(msg.type_url(), "/gravity.v1.MsgValsetConfirm");
        let confirm = valset_confirm_of(msg);
        assert_eq!(confirm.orchestrator, orchestrator());
        assert_eq!(confirm.eth_address, clarity_key().to_address().to_string());
    }
}

#[test]
fn a_valset_confirmation_is_the_signature_over_the_checkpoint() {
    let submission =
        send_valset_confirms(&orchestrator(), &key(), fee(), vec![valset(5)], &"foo".to_string())
            .unwrap();
    let checkpoint = valset_checkpoint("foo", &valset(5));
    let expected = clarity_key().sign_ethereum_msg(&checkpoint).to_bytes();
    assert_eq!(
        submission.messages,
        vec![GravityMsg::ValsetConfirm(MsgValsetConfirm {
            orchestrator: orchestrator(),
            eth_address: clarity_key().to_address().to_string(),
            nonce: 5,
            signature: hex(&expected),
        })]
    );
    let signature = &valset_confirm_of(&submission.messages[0]).signature;
    assert_eq!(signature.len(), 130);
    assert_eq!(signer_of(signature, &checkpoint), Some(clarity_key().to_address()));
}

#[test]
fn a_valset_without_reward_token_names_the_zero_address() {
    let mut v = valset(1);
    v.reward_token = None;
    let submission =
        send_valset_confirms(&orchestrator(), &key(), fee(), vec![v.clone()], &"foo".to_string())
            .unwrap();
    let checkpoint = valset_checkpoint("foo", &v);
    let signature = &valset_confirm_of(&submission.messages[0]).signature;
    assert_eq!(signer_of(signature, &checkpoint), Some(clarity_key().to_address()));
}

#[test]
fn signatures_for_two_bridges_differ_and_do_not_carry_over() {
    let for_a =
        send_valset_confirms(&orchestrator(), &key(), fee(), vec![valset(5)], &"bridge-a".to_string())
            .unwrap();
    let for_b =
        send_valset_confirms(&orchestrator(), &key(), fee(), vec![valset(5)], &"bridge-b".to_string())
            .unwrap();
    let signature_a = &valset_confirm_of(&for_a.messages[0]).signature;
    let signature_b = &valset_confirm_of(&for_b.messages[0]).signature;
    assert_ne!(signature_a, signature_b);
    let checkpoint_a = valset_checkpoint("bridge-a", &valset(5));
    let checkpoint_b = valset_checkpoint("bridge-b", &valset(5));
    assert_ne!(checkpoint_a, checkpoint_b);
    let us = Some(clarity_key().to_address());
    assert_eq!(signer_of(signature_a, &checkpoint_a), us);
    assert_eq!(signer_of(signature_b, &checkpoint_b), us);
    assert_ne!(signer_of(signature_a, &checkpoint_b), us);
    assert_ne!(signer_of(signature_b, &checkpoint_a), us);
}

#[test]
fn signing_twice_gives_the_same_confirmation() {
    let first =
        send_valset_confirms(&orchestrator(), &key(), fee(), vec![valset(5)], &"foo".to_string());
    let second =
        send_valset_confirms(&orchestrator(), &key(), fee(), vec![valset(5)], &"foo".to_string());
    assert_eq!(first, second);
}

#[test]
fn no_valsets_give_a_transaction_without_messages() {
    let submission =
        send_valset_confirms(&orchestrator(), &key(), fee(), vec![], &"foo".to_string()).unwrap();
    assert_eq!(submission.messages, vec![]);
    assert_eq!(submission.fees, vec![fee()]);
}

#[test]
fn an_unusable_key_confirms_nothing() {
    let zero = EthPrivateKey { bytes: [0; 32] };
    assert_eq!(
        send_valset_confirms(&orchestrator(), &zero, fee(), vec![valset(5)], &"foo".to_string()),
        Err(ConfirmError::UnusableKey)
    );
    let beyond_the_curve = EthPrivateKey { bytes: [0xff; 32] };
    assert_eq!(
        send_batch_confirm(&orchestrator(), &beyond_the_curve, fee(), vec![], &"foo".to_string()),
        Err(ConfirmError::UnusableKey)
    );
    assert_eq!(
        send_logic_call_confirm(&orchestrator(), &zero, fee(), vec![call(1)], &"foo".to_string()),
        Err(ConfirmError::UnusableKey)
    );
}

#[test]
fn a_bridge_identifier_of_more_than_32_bytes_cannot_be_encoded() {
    let long = "a".repeat(33);
    assert_eq!(
        send_valset_confirms(&orchestrator(), &key(), fee(), vec![valset(5), valset(6)], &long),
        Err(ConfirmError::NotEncodable(0))
    );
    let exactly = "a".repeat(32);
    assert!(send_valset_confirms(&orchestrator(), &key(), fee(), vec![valset(5)], &exactly).is_ok());
    let wide = "\u{e9}".repeat(17);
    assert_eq!(
        send_batch_confirm(&orchestrator(), &key(), fee(), vec![batch(1)], &wide),
        Err(ConfirmError::NotEncodable(0))
    );
}

#[test]
fn a_batch_confirmation_names_the_token_and_signs_the_checkpoint() {
    let submission =
        send_batch_confirm(&orchestrator(), &key(), fee(), vec![batch(12)], &"foo".to_string())
            .unwrap();
    let b = batch(12);
    let checkpoint = encode_tokens(&[
        AbiToken::FixedString("foo".to_string()),
        AbiToken::FixedString("transactionBatch".to_string()),
        AbiToken::Dynamic(vec![uint(100), uint(200)]),
        AbiToken::Dynamic(vec![addr(address(0x11)), addr(address(0x22))]),
        AbiToken::Dynamic(vec![uint(2), uint(3)]),
        uint(12),
        addr(b.token_contract),
        uint(4_000),
    ]);
    assert_eq!(
        submission.messages,
        vec![GravityMsg::ConfirmBatch(MsgConfirmBatch {
            token_contract: "0xd8dA6BF26964aF9D7eEd9e03E53415D37aA96045".to_string(),
            orchestrator: orchestrator(),
            eth_signer: clarity_key().to_address().to_string(),
            nonce: 12,
            signature: hex(&clarity_key().sign_ethereum_msg(&checkpoint).to_bytes()),
        })]
    );
    assert_eq!(submission.messages[0].type_url(), "/gravity.v1.MsgConfirmBatch");
    assert_eq!(submission.memo, Some(MEMO.to_string()));
}

#[test]
fn a_logic_call_confirmation_names_the_invalidation_scope() {
    let submission =
        send_logic_call_confirm(&orchestrator(), &key(), fee(), vec![call(8)], &"foo".to_string())
            .unwrap();
    let checkpoint = encode_tokens(&[
        AbiToken::FixedString("foo".to_string()),
        AbiToken::FixedString("logicCall".to_string()),
        AbiToken::Dynamic(vec![uint(10), uint(20)]),
        AbiToken::Dynamic(vec![addr(address(0x31)), addr(address(0x32))]),
        AbiToken::Dynamic(vec![uint(1)]),
        AbiToken::Dynamic(vec![addr(address(0x33))]),
        addr(address(0x44)),
        AbiToken::UnboundedBytes(vec![0xde, 0xad, 0xbe, 0xef]),
        uint(9_000),
        AbiToken::Bytes(vec![0xab, 0xcd]),
        uint(8),
    ]);
    assert_eq!(
        submission.messages,
        vec![GravityMsg::ConfirmLogicCall(MsgConfirmLogicCall {
            orchestrator: orchestrator(),
            eth_signer: clarity_key().to_address().to_string(),
            signature: hex(&clarity_key().sign_ethereum_msg(&checkpoint).to_bytes()),
            invalidation_id: "abcd".to_string(),
            invalidation_nonce: 8,
        })]
    );
    assert_eq!(submission.messages[0].type_url(), "/gravity.v1.MsgConfirmLogicCall");
}

#[test]
fn a_logic_call_that_cannot_be_encoded_is_named_by_its_index() {
    let mut empty_payload = call(2);
    empty_payload.payload = vec![];
    assert_eq!(
        send_logic_call_confirm(
            &orchestrator(),
            &key(),
            fee(),
            vec![call(1), empty_payload, call(3)],
            &"foo".to_string()
        ),
        Err(ConfirmError::NotEncodable(1))
    );
    let mut long_id = call(4);
    long_id.invalidation_id = vec![7; 33];
    assert_eq!(
        send_logic_call_confirm(
            &orchestrator(),
            &key(),
            fee(),
            vec![call(1), call(2), long_id],
            &"foo".to_string()
        ),
        Err(ConfirmError::NotEncodable(2))
    );
    let mut full_id = call(5);
    full_id.invalidation_id = vec![7; 32];
    assert!(send_logic_call_confirm(
        &orchestrator(),
        &key(),
        fee(),
        vec![full_id],
        &"foo".to_string()
    )
    .is_ok());
}

#[test]
fn encodable_values_are_told_from_the_others() {
    assert!(is_encodable(&vec![
        AbiValue::Uint(Amount::from_u64(1)),
        AbiValue::FixedString("a".repeat(32)),
        AbiValue::Bytes(vec![0; 32]),
        AbiValue::UnboundedBytes(vec![0; 100]),
        AbiValue::UintArray(vec![]),
        AbiValue::AddressArray(vec![]),
    ]));
    assert!(is_encodable(&vec![]));
    assert!(!is_encodable(&vec![AbiValue::FixedString("a".repeat(33))]));
    assert!(!is_encodable(&vec![AbiValue::Bytes(vec![0; 33])]));
    assert!(!is_encodable(&vec![AbiValue::Address(address(1)), AbiValue::UnboundedBytes(vec![])]));
}
