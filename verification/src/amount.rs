//! Unsigned 256-bit token amounts.
//!
//! An amount is held as its 32 big-endian bytes, which is also how it travels
//! to and from `num256::Uint256`, the type that does the arithmetic.

use vstd::prelude::*;

verus! {

/// 256 raised to the power `n`.
pub open spec fn pow256(n: nat) -> nat
    decreases n,
{
    if n == 0 {
        1
    } else {
        256 * pow256((n - 1) as nat)
    }
}

/// The number that the first `n` bytes of `bytes` spell in base 256, most
/// significant byte first.
pub open spec fn prefix_value(bytes: Seq<u8>, n: nat) -> nat
    decreases n,
{
    if n == 0 {
        0
    } else {
        prefix_value(bytes, (n - 1) as nat) * 256 + bytes[n - 1] as nat
    }
}

/// The number that `bytes` spell in base 256, most significant byte first.
pub open spec fn be_value(bytes: Seq<u8>) -> nat {
    prefix_value(bytes, bytes.len())
}

/// One more than the largest amount: 2 to the power 256.
pub open spec fn amount_limit() -> nat {
    pow256(32)
}

/// An unsigned 256-bit amount.
#[derive(Clone, Copy, Debug, PartialEq, Eq)]
pub struct Amount {
    /// The amount in base 256, most significant byte first.
    pub bytes: [u8; 32],
}

impl View for Amount {
    type V = nat;

    open spec fn view(&self) -> nat {
        be_value(self.bytes@)
    }
}

/// The views of a list of amounts.
pub open spec fn amount_values(amounts: Seq<Amount>) -> Seq<nat> {
    amounts.map_values(|a: Amount| a@)
}

/// A prefix of `n` bytes spells a number below `256^n`.
pub proof fn lemma_prefix_value_bound(bytes: Seq<u8>, n: nat)
    requires
        n <= bytes.len(),
    ensures
        prefix_value(bytes, n) < pow256(n),
    decreases n,
{
    if n > 0 {
        lemma_prefix_value_bound(bytes, (n - 1) as nat);
    }
}

/// Every amount is below `amount_limit()`.
pub proof fn lemma_amount_bound(amount: Amount)
    ensures
        amount@ < amount_limit(),
{
    lemma_prefix_value_bound(amount.bytes@, 32);
}

/// A prefix of zero bytes spells zero.
pub proof fn lemma_zero_prefix(bytes: Seq<u8>, n: nat)
    requires
        n <= bytes.len(),
        forall|i: int| 0 <= i < n ==> bytes[i] == 0,
    ensures
        prefix_value(bytes, n) == 0,
    decreases n,
{
    if n > 0 {
        lemma_zero_prefix(bytes, (n - 1) as nat);
    }
}

impl Amount {
    /// The amount zero.
    pub fn zero() -> (amount: Amount)
        ensures
            amount@ == 0,
    {
        let amount = Amount { bytes: [0u8; 32] };
        proof {
            lemma_zero_prefix(amount.bytes@, 32);
        }
        amount
    }

    /// The amount `value`.
    pub fn from_u64(value: u64) -> (amount: Amount)
        ensures
            amount@ == value,
    {
        let q6: u64 = value / 256;
        let q5: u64 = q6 / 256;
        let q4: u64 = q5 / 256;
        let q3: u64 = q4 / 256;
        let q2: u64 = q3 / 256;
        let q1: u64 = q2 / 256;
        let q0: u64 = q1 / 256;
        let mut bytes: [u8; 32] = [0u8; 32];
        bytes[24] = (q0 % 256) as u8;
        bytes[25] = (q1 % 256) as u8;
        bytes[26] = (q2 % 256) as u8;
        bytes[27] = (q3 % 256) as u8;
        bytes[28] = (q4 % 256) as u8;
        bytes[29] = (q5 % 256) as u8;
        bytes[30] = (q6 % 256) as u8;
        bytes[31] = (value % 256) as u8;
        proof {
            let s = bytes@;
            lemma_zero_prefix(s, 24);
            reveal_with_fuel(prefix_value, 2);
            assert(prefix_value(s, 25) == q0);
            assert(prefix_value(s, 26) == q1);
            assert(prefix_value(s, 27) == q2);
            assert(prefix_value(s, 28) == q3);
            assert(prefix_value(s, 29) == q4);
            assert(prefix_value(s, 30) == q5);
            assert(prefix_value(s, 31) == q6);
            assert(prefix_value(s, 32) == value);
        }
        Amount { bytes }
    }
}

/// Adds two amounts with `checked_add` of the 256-bit integer that a
/// `num256::Uint256` wraps, which yields nothing exactly when the sum does not
/// fit in 256 bits and the exact sum otherwise. The amounts are converted with
/// `Uint256::from_be_bytes` and `to_be_bytes`.
#[verifier::external_body]
pub(crate) fn uint256_checked_add(a: &Amount, b: &Amount) -> (sum: Option<Amount>)
    ensures
        sum is Some <==> a@ + b@ < amount_limit(),
        sum matches Some(s) ==> s@ == a@ + b@,
{
    let lhs = num256::Uint256::from_be_bytes(&a.bytes);
    let rhs = num256::Uint256::from_be_bytes(&b.bytes);
    match lhs.0.checked_add(rhs.0) {
        Some(total) => Some(Amount { bytes: num256::Uint256(total).to_be_bytes() }),
        None => None,
    }
}

/// Compares two amounts with `Uint256`'s `<`, which orders by numeric value.
/// The amounts are converted with `Uint256::from_be_bytes`.
#[verifier::external_body]
pub(crate) fn uint256_lt(a: &Amount, b: &Amount) -> (less: bool)
    ensures
        less == (a@ < b@),
{
    num256::Uint256::from_be_bytes(&a.bytes) < num256::Uint256::from_be_bytes(&b.bytes)
}

} // verus!
