//! Ethereum addresses and tokens.

use vstd::prelude::*;

verus! {

/// An Ethereum address: 20 bytes.
#[derive(Clone, Copy, Debug, PartialEq, Eq)]
pub struct EthAddress {
    pub bytes: [u8; 20],
}

/// An amount of one ERC20 token, named by the token's contract.
#[derive(Clone, Copy, Debug, PartialEq, Eq)]
pub struct Erc20Token {
    pub token_contract_address: EthAddress,
    pub amount: crate::amount::Amount,
}

/// A member of a validator set: an Ethereum address and its voting power.
#[derive(Clone, Copy, Debug, PartialEq, Eq)]
pub struct ValsetMember {
    pub power: u64,
    pub eth_address: EthAddress,
}

/// The address whose bytes are all zero.
pub open spec fn zero_address() -> Seq<u8> {
    Seq::new(20, |i: int| 0u8)
}

/// The bytes of each address of a list.
pub open spec fn address_bytes(addresses: Seq<EthAddress>) -> Seq<Seq<u8>> {
    addresses.map_values(|a: EthAddress| a.bytes@)
}

impl EthAddress {
    /// The address whose bytes are all zero.
    pub fn zero() -> (address: EthAddress)
        ensures
            address.bytes@ == zero_address(),
    {
        let address = EthAddress { bytes: [0u8; 20] };
        assert(address.bytes@ =~= zero_address());
        address
    }
}

/// An Ethereum private key: 32 bytes. Not every such string is a usable key.
#[derive(Clone, Copy, PartialEq, Eq)]
pub struct EthPrivateKey {
    pub bytes: [u8; 32],
}

/// The address that belongs to the private key `key`, where `key` is a usable
/// one: what `clarity::PrivateKey::from_bytes` derives.
pub uninterp spec fn eth_address_of_key(key: Seq<u8>) -> Option<Seq<u8>>;

/// The signature that `clarity::PrivateKey::sign_ethereum_msg` makes of
/// `message` with the key `key`, as its 65 bytes.
pub uninterp spec fn ethereum_signature(key: Seq<u8>, message: Seq<u8>) -> Seq<u8>;

/// The text that `clarity::Address` prints for the address with these bytes.
pub uninterp spec fn eth_address_text(address: Seq<u8>) -> Seq<char>;

/// Calls `clarity::PrivateKey::from_bytes`, which checks the key and derives
/// its address, and `to_address`, which hands that address out. The address
/// depends on the key's bytes alone.
#[verifier::external_body]
pub(crate) fn eth_key_address(key: &EthPrivateKey) -> (address: Option<EthAddress>)
    ensures
        match address {
            Some(a) => eth_address_of_key(key.bytes@) == Some(a.bytes@),
            None => eth_address_of_key(key.bytes@) is None,
        },
{
    match clarity::PrivateKey::from_bytes(key.bytes) {
        Ok(checked) => Some(EthAddress { bytes: checked.to_address().into() }),
        Err(_) => None,
    }
}

/// Calls `clarity::PrivateKey::sign_ethereum_msg` on a key made with
/// `from_bytes`, and `Signature::to_bytes` on what it returns. There is a
/// signature exactly when `from_bytes` accepts the key; it depends on the key
/// and the message alone, as the nonce is derived from them.
#[verifier::external_body]
pub(crate) fn sign_ethereum_msg(key: &EthPrivateKey, message: &[u8]) -> (signature: Option<Vec<u8>>)
    ensures
        signature is Some <==> eth_address_of_key(key.bytes@) is Some,
        signature matches Some(s) ==> s@ == ethereum_signature(key.bytes@, message@),
{
    match clarity::PrivateKey::from_bytes(key.bytes) {
        Ok(checked) => Some(checked.sign_ethereum_msg(message).to_bytes().to_vec()),
        Err(_) => None,
    }
}

/// Calls `to_string` on the `clarity::Address` with the given bytes, which
/// prints `0x` and the bytes in hexadecimal with a checksum in the letters' case.
#[verifier::external_body]
pub(crate) fn eth_address_to_string(address: &EthAddress) -> (text: String)
    ensures
        text@ == eth_address_text(address.bytes@),
{
    clarity::Address::from(address.bytes).to_string()
}

} // verus!
