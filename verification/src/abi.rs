//! Values as they are handed to Ethereum's ABI encoder.

use crate::amount::Amount;
use crate::eth::EthAddress;
use clarity::abi::AbiToken;
use num256::Uint256;
use vstd::prelude::*;
use vstd::utf8::encode_utf8;

verus! {

/// A value to be encoded.
#[derive(Clone, Debug, PartialEq, Eq)]
pub enum AbiValue {
    /// An unsigned number of 256 bits.
    Uint(Amount),
    /// An address.
    Address(EthAddress),
    /// A text of at most 32 bytes, encoded as one word.
    FixedString(String),
    /// At most 32 bytes, encoded as one word.
    Bytes(Vec<u8>),
    /// Bytes of any number.
    UnboundedBytes(Vec<u8>),
    /// A list of unsigned numbers.
    UintArray(Vec<Amount>),
    /// A list of addresses.
    AddressArray(Vec<EthAddress>),
}

/// What an `AbiValue` holds. Numbers stand as their value, addresses as their bytes.
pub enum AbiValueView {
    Uint(nat),
    Address(Seq<u8>),
    FixedString(Seq<char>),
    Bytes(Seq<u8>),
    UnboundedBytes(Seq<u8>),
    UintArray(Seq<nat>),
    AddressArray(Seq<Seq<u8>>),
}

impl View for AbiValue {
    type V = AbiValueView;

    open spec fn view(&self) -> AbiValueView {
        match self {
            AbiValue::Uint(v) => AbiValueView::Uint(v@),
            AbiValue::Address(a) => AbiValueView::Address(a.bytes@),
            AbiValue::FixedString(s) => AbiValueView::FixedString(s@),
            AbiValue::Bytes(b) => AbiValueView::Bytes(b@),
            AbiValue::UnboundedBytes(b) => AbiValueView::UnboundedBytes(b@),
            AbiValue::UintArray(vs) => AbiValueView::UintArray(crate::amount::amount_values(vs@)),
            AbiValue::AddressArray(xs) => AbiValueView::AddressArray(crate::eth::address_bytes(xs@)),
        }
    }
}

impl AbiValueView {
    /// The encoder accepts the value: a word holds at most 32 bytes, and
    /// unbounded bytes must not be empty.
    pub open spec fn encodable(self) -> bool {
        match self {
            AbiValueView::FixedString(s) => encode_utf8(s).len() <= 32,
            AbiValueView::Bytes(b) => b.len() <= 32,
            AbiValueView::UnboundedBytes(b) => b.len() >= 1,
            _ => true,
        }
    }
}

/// What each value of a list holds.
pub open spec fn abi_views(values: Seq<AbiValue>) -> Seq<AbiValueView> {
    values.map_values(|v: AbiValue| v@)
}

/// The encoder accepts every value of the list.
pub open spec fn all_encodable(values: Seq<AbiValueView>) -> bool {
    forall|i: int| 0 <= i < values.len() ==> (#[trigger] values[i]).encodable()
}

/// The bytes that `clarity::abi::encode_tokens` makes of a list of values.
pub uninterp spec fn abi_encoding(values: Seq<AbiValueView>) -> Seq<u8>;

#[verifier::external_type_specification]
#[verifier::external_body]
pub struct ExAbiToken(AbiToken);

/// Makes the `clarity::abi::AbiToken` that holds what `value` holds, variant
/// for variant; a list becomes a `Dynamic` of its items.
#[verifier::external_body]
fn to_abi_token(value: &AbiValue) -> AbiToken {
    match value {
        AbiValue::Uint(v) => AbiToken::Uint(Uint256::from_be_bytes(&v.bytes)),
        AbiValue::Address(a) => AbiToken::Address(a.bytes.into()),
        AbiValue::FixedString(s) => AbiToken::FixedString(s.clone()),
        AbiValue::Bytes(b) => AbiToken::Bytes(b.clone()),
        AbiValue::UnboundedBytes(b) => AbiToken::UnboundedBytes(b.clone()),
        AbiValue::UintArray(vs) => vs.iter().map(|v| Uint256::from_be_bytes(&v.bytes)).collect::<Vec<_>>().into(),
        AbiValue::AddressArray(xs) => xs.iter().map(|a| clarity::Address::from(a.bytes)).collect::<Vec<_>>().into(),
    }
}

/// Calls `clarity::abi::encode_tokens` on the values, each made a token by
/// `to_abi_token`. The encoder panics on a word of more than 32 bytes and on
/// empty unbounded bytes, which `requires` leaves out; the bytes it returns
/// depend on the values alone.
#[verifier::external_body]
pub(crate) fn encode_tokens(values: &Vec<AbiValue>) -> (encoding: Vec<u8>)
    requires
        all_encodable(abi_views(values@)),
    ensures
        encoding@ == abi_encoding(abi_views(values@)),
{
    let tokens: Vec<AbiToken> = values.iter().map(to_abi_token).collect();
    clarity::abi::encode_tokens(&tokens)
}

/// Whether the encoder accepts every value of the list.
pub fn is_encodable(values: &Vec<AbiValue>) -> (ok: bool)
    ensures
        ok == all_encodable(abi_views(values@)),
{
    let mut i: usize = 0;
    while i < values.len()
        invariant
            i <= values.len(),
            forall|j: int| 0 <= j < i ==> (#[trigger] abi_views(values@)[j]).encodable(),
        decreases values.len() - i,
    {
        let fits = match &values[i] {
            AbiValue::FixedString(s) => s.as_str().as_bytes().len() <= 32,
            AbiValue::Bytes(b) => b.len() <= 32,
            AbiValue::UnboundedBytes(b) => b.len() >= 1,
            _ => true,
        };
        assert(fits == abi_views(values@)[i as int].encodable());
        if !fits {
            return false;
        }
        i += 1;
    }
    true
}

} // verus!
