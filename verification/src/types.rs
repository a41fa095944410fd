//! The two value types of a wallet session: a 256-bit chain identifier and a
//! 20-byte account address.

use vstd::prelude::*;
use vstd::std_specs::cmp::PartialEqSpecImpl;
use vstd::string::StringExecFns;
use crate::text::{
    decimal_text, decimal_text_reads_back, decimal_value, is_decimal, lower_hex_bytes,
    upper_hex_text,
};

verus! {

/// Two to the 64th power.
pub open spec fn limb_base() -> nat {
    0x1_0000_0000_0000_0000
}

/// Two to the 256th power: one more than the largest `Uint256`.
pub open spec fn uint256_limit() -> nat {
    limb_base() * limb_base() * limb_base() * limb_base()
}

/// An unsigned 256-bit integer as four 64-bit limbs, least significant first.
#[derive(Clone, Copy, Debug)]
pub struct Uint256 {
    pub limbs: [u64; 4],
}

/// A 20-byte account address.
#[derive(Clone, Copy, Debug)]
pub struct Address {
    pub bytes: [u8; 20],
}

/// A chain as the wallet knows it.
#[derive(Clone, Debug, PartialEq, Eq)]
pub struct Chain {
    /// The chain identifier, as the hexadecimal text that the wallet takes.
    pub chain_id: String,
    /// The name shown to the user.
    pub chain_name: String,
}

/// Calls `U256::from_dec_str`. That function reads the text byte by byte,
/// fails on the first byte that is not a decimal digit and on the first
/// prefix whose value no longer fits in 256 bits, and otherwise returns the
/// value read; the empty text gives zero.
#[verifier::external_body]
fn u256_from_dec_str(text: &str) -> (r: Option<Uint256>)
    ensures
        match r {
            Some(v) => is_decimal(text@) && v.value() == decimal_value(text@) && v.value()
                < uint256_limit(),
            None => !is_decimal(text@) || decimal_value(text@) >= uint256_limit(),
        },
{
    match web3::types::U256::from_dec_str(text) {
        Ok(v) => Some(Uint256 { limbs: v.0 }),
        Err(_) => None,
    }
}

/// Calls `U256::as_u64`, which panics unless the three upper limbs are zero
/// and then returns the lowest limb.
#[verifier::external_body]
fn u256_as_u64(x: &Uint256) -> (r: u64)
    requires
        x.fits_u64(),
    ensures
        r == x.limbs[0],
{
    web3::types::U256(x.limbs).as_u64()
}

/// Formats a `U256` with `{:X}`. The crate's `UpperHex` writes the value in
/// upper-case hexadecimal without leading zeros, and zero as `0`; without
/// the `#` flag it adds no prefix.
#[verifier::external_body]
fn u256_upper_hex(x: &Uint256) -> (r: String)
    ensures
        r@ == upper_hex_text(x.value()),
{
    format!("{:X}", web3::types::U256(x.limbs))
}

/// Formats a `U256` with its `Display`, which writes the value in decimal
/// without leading zeros, and zero as `0`.
#[verifier::external_body]
fn u256_to_string(x: &Uint256) -> (r: String)
    ensures
        r@ == decimal_text(x.value()),
{
    web3::types::U256(x.limbs).to_string()
}

/// Formats an `H160` with `{:?}`. The crate's `Debug` writes `0x` and then
/// every byte as two lower-case hexadecimal digits.
#[verifier::external_body]
fn h160_debug(a: &Address) -> (r: String)
    ensures
        r@ == a.full_text(),
{
    format!("{:?}", web3::types::H160(a.bytes))
}

/// Formats an `H160` with its `Display`, which writes `0x`, the first two
/// bytes, an ellipsis and the last two bytes, each byte as two lower-case
/// hexadecimal digits.
#[verifier::external_body]
fn h160_to_string(a: &Address) -> (r: String)
    ensures
        r@ == a.short_text(),
{
    web3::types::H160(a.bytes).to_string()
}

impl PartialEq for Uint256 {
    /// Whether the two have the same limbs.
    fn eq(&self, other: &Self) -> (r: bool) {
        let mut i: usize = 0;
        while i < 4
            invariant
                i <= 4,
                forall|j: int| 0 <= j < i ==> self.limbs[j] == other.limbs[j],
            decreases 4 - i,
        {
            if self.limbs[i] != other.limbs[i] {
                return false;
            }
            i += 1;
        }
        proof {
            assert(self.limbs =~= other.limbs);
        }
        true
    }
}

impl PartialEqSpecImpl for Uint256 {
    open spec fn obeys_eq_spec() -> bool {
        true
    }

    open spec fn eq_spec(&self, other: &Self) -> bool {
        *self == *other
    }
}

impl Eq for Uint256 {

}

impl PartialEq for Address {
    /// Whether the two have the same bytes.
    fn eq(&self, other: &Self) -> (r: bool) {
        let mut i: usize = 0;
        while i < 20
            invariant
                i <= 20,
                forall|j: int| 0 <= j < i ==> self.bytes[j] == other.bytes[j],
            decreases 20 - i,
        {
            if self.bytes[i] != other.bytes[i] {
                return false;
            }
            i += 1;
        }
        proof {
            assert(self.bytes =~= other.bytes);
        }
        true
    }
}

impl PartialEqSpecImpl for Address {
    open spec fn obeys_eq_spec() -> bool {
        true
    }

    open spec fn eq_spec(&self, other: &Self) -> bool {
        *self == *other
    }
}

impl Eq for Address {

}

impl Uint256 {
    /// The number that the four limbs stand for.
    pub open spec fn value(&self) -> nat {
        self.limbs[0] as nat + self.limbs[1] as nat * limb_base() + self.limbs[2] as nat
            * limb_base() * limb_base() + self.limbs[3] as nat * limb_base() * limb_base()
            * limb_base()
    }

    /// Whether the value is below two to the 64th power.
    pub open spec fn fits_u64(&self) -> bool {
        self.limbs[1] == 0 && self.limbs[2] == 0 && self.limbs[3] == 0
    }

    /// Whether the value fits a `u64`.
    pub fn fits_in_u64(&self) -> (r: bool)
        ensures
            r == self.fits_u64(),
    {
        self.limbs[1] == 0 && self.limbs[2] == 0 && self.limbs[3] == 0
    }

    /// Reads a chain identifier from decimal text. The text must consist of
    /// decimal digits only and stand for a value below two to the 256th
    /// power.
    pub fn from_dec_str(text: &str) -> (r: Option<Uint256>)
        ensures
            match r {
                Some(v) => is_decimal(text@) && v.value() == decimal_value(text@) && v.value()
                    < uint256_limit(),
                None => !is_decimal(text@) || decimal_value(text@) >= uint256_limit(),
            },
    {
        u256_from_dec_str(text)
    }

    /// The value as a `u64`, where it fits.
    pub fn as_u64(&self) -> (r: u64)
        requires
            self.fits_u64(),
        ensures
            r == self.value(),
    {
        u256_as_u64(self)
    }

    /// The value in upper-case hexadecimal behind `0x`.
    pub fn to_hex(&self) -> (r: String)
        ensures
            r@ == seq!['0', 'x'] + upper_hex_text(self.value()),
    {
        let digits = u256_upper_hex(self);
        proof {
            reveal_strlit("0x");
            assert("0x"@ =~= seq!['0', 'x']);
        }
        String::from_str("0x").concat(digits.as_str())
    }

    /// The value in decimal.
    pub fn to_decimal(&self) -> (r: String)
        ensures
            r@ == decimal_text(self.value()),
    {
        u256_to_string(self)
    }
}

impl Address {
    /// The whole address: `0x` and forty hexadecimal digits.
    pub open spec fn full_text(&self) -> Seq<char> {
        seq!['0', 'x'] + lower_hex_bytes(self.bytes@)
    }

    /// The abbreviated address: `0x`, the first two bytes, an ellipsis and
    /// the last two bytes.
    pub open spec fn short_text(&self) -> Seq<char> {
        seq!['0', 'x'] + lower_hex_bytes(self.bytes@.subrange(0, 2)) + seq!['\u{2026}']
            + lower_hex_bytes(self.bytes@.subrange(18, 20))
    }

    /// The whole address as text.
    pub fn to_full_string(&self) -> (r: String)
        ensures
            r@ == self.full_text(),
    {
        h160_debug(self)
    }

    /// The abbreviated address as text.
    pub fn to_short_string(&self) -> (r: String)
        ensures
            r@ == self.short_text(),
    {
        h160_to_string(self)
    }
}

/// The abbreviated address is cut from the whole one: its first six
/// characters, an ellipsis and its last four. The whole address has 42
/// characters, the abbreviated one 11.
pub proof fn address_short_text_abbreviates(a: Address)
    ensures
        a.full_text().len() == 42,
        a.short_text().len() == 11,
        a.short_text() == a.full_text().subrange(0, 6) + seq!['\u{2026}'] + a.full_text().subrange(
            38,
            42,
        ),
{
    let full = a.full_text();
    let short = a.short_text();
    let cut = full.subrange(0, 6) + seq!['\u{2026}'] + full.subrange(38, 42);
    let head = a.bytes@.subrange(0, 2);
    let tail = a.bytes@.subrange(18, 20);
    assert(short.len() == cut.len());
    assert forall|i: int| 0 <= i < 11 implies short[i] == cut[i] by {
        if 2 <= i < 6 {
            assert(head[(i - 2) / 2] == a.bytes@[(i - 2) / 2]);
            assert(short[i] == lower_hex_bytes(head)[i - 2]);
            assert(cut[i] == lower_hex_bytes(a.bytes@)[i - 2]);
        } else if 7 <= i {
            assert(tail[(i - 7) / 2] == a.bytes@[(i + 29) / 2]);
            assert(short[i] == lower_hex_bytes(tail)[i - 7]);
            assert(cut[i] == lower_hex_bytes(a.bytes@)[i + 29]);
        }
    }
    assert(short =~= cut);
}

/// Every `Uint256` is below two to the 256th power, and it fits a `u64`
/// exactly where it is below two to the 64th.
pub proof fn uint256_value_is_bounded(x: Uint256)
    ensures
        x.value() < uint256_limit(),
        x.fits_u64() <==> x.value() < limb_base(),
{
}

/// A number splits in one way only into a digit below `m` and a multiple
/// of `m`.
proof fn split_is_unique(a: int, p: int, b: int, q: int, m: int)
    requires
        0 <= a < m,
        0 <= b < m,
        a + m * p == b + m * q,
    ensures
        a == b,
        p == q,
{
    assert(p == q) by (nonlinear_arith)
        requires
            0 <= a < m,
            0 <= b < m,
            a + m * p == b + m * q,
    ;
}

/// The value with the limbs nested, least significant outermost.
proof fn value_nested(x: Uint256) -> (r: (int, int))
    ensures
        r.0 == x.limbs[2] + limb_base() * x.limbs[3],
        r.1 == x.limbs[1] + limb_base() * r.0,
        x.value() == x.limbs[0] + limb_base() * r.1,
{
    let b = limb_base() as int;
    let high = x.limbs[2] + b * x.limbs[3];
    let mid = x.limbs[1] + b * high;
    assert(x.value() == x.limbs[0] + b * mid) by (nonlinear_arith)
        requires
            high == x.limbs[2] + b * x.limbs[3],
            mid == x.limbs[1] + b * high,
            x.value() == x.limbs[0] + x.limbs[1] * b + x.limbs[2] * b * b + x.limbs[3] * b * b
                * b,
    ;
    (high, mid)
}

/// Two `Uint256` with the same value have the same limbs.
pub proof fn uint256_value_is_exact(x: Uint256, y: Uint256)
    requires
        x.value() == y.value(),
    ensures
        x.limbs@ == y.limbs@,
{
    let b = limb_base() as int;
    let (xh, xm) = value_nested(x);
    let (yh, ym) = value_nested(y);
    split_is_unique(x.limbs[0] as int, xm, y.limbs[0] as int, ym, b);
    split_is_unique(x.limbs[1] as int, xh, y.limbs[1] as int, yh, b);
    split_is_unique(x.limbs[2] as int, x.limbs[3] as int, y.limbs[2] as int, y.limbs[3] as int, b);
    assert(x.limbs@ =~= y.limbs@);
}

/// The decimal text of any `Uint256` is a decimal number below two to the
/// 256th power that stands for the same value: reading it back succeeds and
/// gives the value that was written.
pub proof fn uint256_decimal_reads_back(x: Uint256)
    ensures
        is_decimal(decimal_text(x.value())),
        decimal_value(decimal_text(x.value())) == x.value(),
        decimal_value(decimal_text(x.value())) < uint256_limit(),
{
    decimal_text_reads_back(x.value());
    uint256_value_is_bounded(x);
}

} // verus!
