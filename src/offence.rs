//! The offence reported for validators that stayed silent for a session, and
//! the slash fraction it carries.
use vstd::prelude::*;
use crate::perbill::{Perbill, ACCURACY, rational_parts, product_parts};

verus! {

/// The slash applied per unit of the clamped offender ratio: seven percent.
pub const MAX_SLASH_PERCENT: u32 = 7;

/// How many offenders a set of `n` validators tolerates before any slash:
/// a tenth of the set, plus one.
pub open spec fn tolerated(n: nat) -> nat {
    n / 10 + 1
}

/// The offender ratio `3 * (k - tolerated(n)) / n` in billionths, clamped
/// to one whole.
pub open spec fn excess_ratio_parts(k: nat, n: nat) -> nat {
    let t = (k - tolerated(n)) as nat;
    if 3 * t > n {
        ACCURACY as nat
    } else {
        3 * t * (ACCURACY as nat) / n
    }
}

/// Seven percent, in billionths.
pub open spec fn max_slash_parts() -> nat {
    (MAX_SLASH_PERCENT as nat) * (ACCURACY as nat) / 100
}

/// The slash fraction, in billionths, for `k` offenders out of `n`
/// validators: zero up to the tolerated count, then the clamped excess
/// ratio times seven percent, each step rounded down.
pub open spec fn slash_parts(k: nat, n: nat) -> nat {
    if k < tolerated(n) {
        0
    } else {
        excess_ratio_parts(k, n) * max_slash_parts() / (ACCURACY as nat)
    }
}

/// A single silent validator is never slashed, whatever the size of the
/// set.
pub proof fn lemma_single_offender_not_slashed(n: nat)
    requires
        n >= 1,
    ensures
        slash_parts(1, n) == 0,
{
    if n >= 10 {
        assert(tolerated(n) >= 2);
    } else {
        assert(tolerated(n) == 1);
        assert(excess_ratio_parts(1, n) == 0);
    }
}

/// The clamped excess ratio never exceeds one whole and grows with the
/// number of offenders.
proof fn lemma_excess_ratio_monotone(a: nat, b: nat, n: nat)
    requires
        n >= 1,
        tolerated(n) <= a <= b,
    ensures
        excess_ratio_parts(a, n) <= excess_ratio_parts(b, n) <= ACCURACY as nat,
{
    let ta = (a - tolerated(n)) as nat;
    let tb = (b - tolerated(n)) as nat;
    let acc = ACCURACY as nat;
    if 3 * ta <= n {
        assert(3 * ta * acc / n <= acc) by {
            vstd::arithmetic::div_mod::lemma_div_is_ordered((3 * ta * acc) as int, (n * acc) as int, n as int);
            vstd::arithmetic::mul::lemma_mul_inequality(3 * ta as int, n as int, acc as int);
            vstd::arithmetic::div_mod::lemma_div_multiples_vanish(acc as int, n as int);
        }
    }
    if 3 * tb <= n {
        assert(3 * tb * acc / n <= acc) by {
            vstd::arithmetic::div_mod::lemma_div_is_ordered((3 * tb * acc) as int, (n * acc) as int, n as int);
            vstd::arithmetic::mul::lemma_mul_inequality(3 * tb as int, n as int, acc as int);
            vstd::arithmetic::div_mod::lemma_div_multiples_vanish(acc as int, n as int);
        }
        assert(3 * ta * acc / n <= 3 * tb * acc / n) by {
            vstd::arithmetic::mul::lemma_mul_inequality(3 * ta as int, 3 * tb as int, acc as int);
            vstd::arithmetic::div_mod::lemma_div_is_ordered((3 * ta * acc) as int, (3 * tb * acc) as int, n as int);
        }
    }
}

/// The slash fraction never decreases as the number of offenders grows,
/// for a fixed validator set size.
pub proof fn lemma_slash_monotone(a: nat, b: nat, n: nat)
    requires
        n >= 1,
        a <= b,
    ensures
        slash_parts(a, n) <= slash_parts(b, n),
{
    if a >= tolerated(n) {
        lemma_excess_ratio_monotone(a, b, n);
        let ea = excess_ratio_parts(a, n);
        let eb = excess_ratio_parts(b, n);
        vstd::arithmetic::mul::lemma_mul_inequality(ea as int, eb as int, max_slash_parts() as int);
        vstd::arithmetic::div_mod::lemma_div_is_ordered(
            (ea * max_slash_parts()) as int,
            (eb * max_slash_parts()) as int,
            ACCURACY as int,
        );
    }
}

/// The slash fraction never exceeds seven percent.
pub proof fn lemma_slash_bounded(k: nat, n: nat)
    requires
        n >= 1,
    ensures
        slash_parts(k, n) <= max_slash_parts(),
{
    if k >= tolerated(n) {
        lemma_excess_ratio_monotone(k, k, n);
        let e = excess_ratio_parts(k, n);
        let acc = ACCURACY as nat;
        vstd::arithmetic::mul::lemma_mul_inequality(e as int, acc as int, max_slash_parts() as int);
        vstd::arithmetic::div_mod::lemma_div_is_ordered(
            (e * max_slash_parts()) as int,
            (acc * max_slash_parts()) as int,
            acc as int,
        );
        vstd::arithmetic::div_mod::lemma_div_multiples_vanish(max_slash_parts() as int, acc as int);
    }
}

/// An offence: validators of a session that proved no liveness.
#[derive(Clone, Debug, PartialEq, Eq)]
pub struct UnresponsivenessOffence {
    /// The session in which the validators were silent.
    pub session_index: u32,
    /// The size of the validator set in that session.
    pub validator_set_count: u32,
    /// Each offender as its validator id and its full identification.
    pub offenders: Vec<(u64, u64)>,
}

impl UnresponsivenessOffence {
    /// The slash fraction for `offenders` silent validators in a set of
    /// `validator_set_count`.
    pub fn slash_fraction(offenders: u32, validator_set_count: u32) -> (r: Perbill)
        requires
            validator_set_count > 0,
        ensures
            r@ == slash_parts(offenders as nat, validator_set_count as nat),
    {
        let n = validator_set_count;
        match offenders.checked_sub(n / 10 + 1) {
            Some(threshold) => {
                let ratio = rational_parts(3 * (threshold as u64), n as u64);
                assert(ratio <= ACCURACY) by (nonlinear_arith)
                    requires
                        3 * (threshold as u64) <= n ==> ratio == (3 * threshold as nat) * 1_000_000_000 / (n as nat),
                        3 * (threshold as u64) > n ==> ratio == 1_000_000_000,
                        n > 0,
                ;
                let seven = Perbill::from_percent(MAX_SLASH_PERCENT);
                assert(seven@ == max_slash_parts());
                assert(max_slash_parts() == 70_000_000);
                Perbill::from_parts(product_parts(ratio, seven.deconstruct()))
            },
            None => Perbill::zero(),
        }
    }
}

} // verus!
