//! Fractions in billionths, and the two fraction operations taken from
//! `sp_arithmetic`.
use vstd::prelude::*;

verus! {

/// Parts that make one whole.
pub const ACCURACY: u32 = 1_000_000_000;

/// A fraction between zero and one, in billionths.
#[derive(Clone, Copy, Debug, PartialEq, Eq, Structural)]
pub struct Perbill {
    parts: u32,
}

impl View for Perbill {
    type V = nat;

    closed spec fn view(&self) -> nat {
        self.parts as nat
    }
}

/// `parts`, saturated at one whole.
pub open spec fn saturated_parts(parts: nat) -> nat {
    if parts > ACCURACY as nat {
        ACCURACY as nat
    } else {
        parts
    }
}

impl Perbill {
    /// The fraction `parts / ACCURACY`, saturating at one.
    pub fn from_parts(parts: u32) -> (r: Perbill)
        ensures
            r@ == saturated_parts(parts as nat),
    {
        if parts > ACCURACY {
            Perbill { parts: ACCURACY }
        } else {
            Perbill { parts }
        }
    }

    /// The fraction `x / 100`, saturating at one.
    pub fn from_percent(x: u32) -> (r: Perbill)
        ensures
            r@ == (if x > 100 { 100 } else { x as nat }) * (ACCURACY as nat) / 100,
    {
        let pct: u64 = if x > 100 { 100 } else { x as u64 };
        let parts: u64 = pct * (ACCURACY as u64) / 100;
        assert(parts <= ACCURACY) by (nonlinear_arith)
            requires pct <= 100, parts == pct * 1_000_000_000u64 / 100;
        Perbill { parts: parts as u32 }
    }

    /// The fraction zero.
    pub fn zero() -> (r: Perbill)
        ensures
            r@ == 0,
    {
        Perbill { parts: 0 }
    }

    /// The fraction one.
    pub fn one() -> (r: Perbill)
        ensures
            r@ == ACCURACY as nat,
    {
        Perbill { parts: ACCURACY }
    }

    /// The number of billionths.
    pub fn deconstruct(self) -> (r: u32)
        ensures
            r == self@,
    {
        self.parts
    }

    /// Whether the fraction is zero.
    pub fn is_zero(&self) -> (r: bool)
        ensures
            r == (self@ == 0),
    {
        self.parts == 0
    }
}

/// Relies on `sp_arithmetic::Perbill::from_rational` for `p / q` in
/// billionths: rounded down, and one whole when `p > q`.
#[verifier::external_body]
pub(crate) fn rational_parts(p: u64, q: u64) -> (r: u32)
    requires
        q > 0,
    ensures
        p <= q ==> r == (p as nat) * (ACCURACY as nat) / (q as nat),
        p > q ==> r == ACCURACY,
{
    sp_arithmetic::Perbill::from_rational(p, q).deconstruct()
}

/// Relies on `sp_arithmetic::Perbill`'s `saturating_mul` for the product of
/// two fractions given in billionths: `a * b / ACCURACY`, rounded down.
#[verifier::external_body]
pub(crate) fn product_parts(a: u32, b: u32) -> (r: u32)
    requires
        a <= ACCURACY,
        b <= ACCURACY,
    ensures
        r == (a as nat) * (b as nat) / (ACCURACY as nat),
{
    let x = sp_arithmetic::Perbill::from_parts(a);
    let y = sp_arithmetic::Perbill::from_parts(b);
    sp_arithmetic::traits::Saturating::saturating_mul(x, y).deconstruct()
}

} // verus!
