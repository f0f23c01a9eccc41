use vstd::prelude::*;

use crate::hex::hex_char;

verus! {

/// Ten to the power `d`.
pub open spec fn pow10(d: nat) -> nat
    decreases d,
{
    if d == 0 {
        1
    } else {
        10 * pow10((d - 1) as nat)
    }
}

/// The decimal digits of `n`, without leading zeros; `0` for zero.
pub open spec fn decimal(n: nat) -> Seq<char>
    decreases n,
{
    if n < 10 {
        seq![hex_char(n)]
    } else {
        decimal(n / 10) + seq![hex_char(n % 10)]
    }
}

/// `s` with zeros in front until it is at least `width` characters long.
pub open spec fn pad_zeros(s: Seq<char>, width: nat) -> Seq<char> {
    if s.len() >= width {
        s
    } else {
        Seq::new((width - s.len()) as nat, |i: int| '0') + s
    }
}

/// An amount in the smallest denomination written with `d` decimal places:
/// the whole part, a point, and the remainder padded with zeros to `d` places.
pub open spec fn units_text(amount: nat, d: nat) -> Seq<char> {
    decimal(amount / pow10(d)) + seq!['.'] + pad_zeros(decimal(amount % pow10(d)), d)
}

/// An amount of wei written in ether, the chain's base unit of 10^18 wei.
pub open spec fn ether_text(wei: nat) -> Seq<char> {
    units_text(wei, 18)
}

/// The number that four little-endian 64-bit limbs stand for.
pub open spec fn limbs_value(limbs: [u64; 4]) -> nat {
    (limbs[0] + limbs[1] * 0x1_0000_0000_0000_0000 + limbs[2] * 0x1_0000_0000_0000_0000_0000_0000_0000_0000
        + limbs[3] * 0x1_0000_0000_0000_0000_0000_0000_0000_0000_0000_0000_0000_0000) as nat
}

/// An unsigned 256-bit on-chain quantity (a difficulty, a fee in wei), held as
/// four little-endian 64-bit limbs.
#[derive(Debug, Clone, Copy, PartialEq, Eq)]
pub struct Quantity {
    pub limbs: [u64; 4],
}

impl View for Quantity {
    type V = nat;

    open spec fn view(&self) -> nat {
        limbs_value(self.limbs)
    }
}

impl Quantity {
    /// A quantity from its four little-endian limbs.
    pub fn from_limbs(limbs: [u64; 4]) -> (r: Quantity)
        ensures
            r.limbs == limbs,
            r@ == limbs_value(limbs),
    {
        Quantity { limbs }
    }

    /// A quantity that fits in 64 bits.
    pub fn from_u64(v: u64) -> (r: Quantity)
        ensures
            r@ == v as nat,
    {
        Quantity { limbs: [v, 0, 0, 0] }
    }
}

/// Relies on the `Display` impl of ethers' `U256` (from the `uint` crate):
/// decimal digits without leading zeros, and `0` for zero.
#[verifier::external_body]
fn u256_to_decimal(limbs: [u64; 4]) -> (r: String)
    ensures
        r@ == decimal(limbs_value(limbs)),
{
    ethers::types::U256(limbs).to_string()
}

/// Relies on `ethers::utils::format_units`: the amount divided by 10^decimals
/// in decimal, a point, then the remainder in decimal padded with zeros to
/// `decimals` places. It fails only for 77 decimals or more.
#[verifier::external_body]
fn u256_format_units(limbs: [u64; 4], decimals: u32) -> (r: String)
    requires
        decimals < 77,
    ensures
        r@ == units_text(limbs_value(limbs), decimals as nat),
{
    ethers::utils::format_units(ethers::types::U256(limbs), decimals).unwrap()
}

/// The canonical numeric text of a quantity: its decimal digits.
pub fn format_number(q: &Quantity) -> (r: String)
    ensures
        r@ == decimal(q@),
{
    u256_to_decimal(q.limbs)
}

/// An amount in wei converted to ether with 18-decimal fixed-point scaling,
/// written out in full (`1000000000` wei is `0.000000001000000000`).
pub fn format_ether(wei: &Quantity) -> (r: String)
    ensures
        r@ == ether_text(wei@),
{
    u256_format_units(wei.limbs, 18)
}

} // verus!
