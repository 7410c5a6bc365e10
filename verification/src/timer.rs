//! Alignment of the refresh timer to wall-clock boundaries.

use vstd::prelude::*;

verus! {

/// Milliseconds until the wall clock next stands on a multiple of the
/// refresh period. A clock already on a boundary waits one full period,
/// so the returned delay is never zero.
pub fn initial_delay_ms(now_ms: u64, period_ms: u64) -> (r: u64)
    requires
        period_ms > 0,
    ensures
        r == period_ms - now_ms % period_ms,
        1 <= r <= period_ms,
        (now_ms + r) % (period_ms as int) == 0,
{
    proof {
        let p = period_ms as int;
        let n = now_ms as int;
        vstd::arithmetic::div_mod::lemma_mod_division_less_than_divisor(n, p);
        vstd::arithmetic::div_mod::lemma_fundamental_div_mod(n, p);
        vstd::arithmetic::div_mod::lemma_mod_multiples_basic(n / p + 1, p);
        assert(n + (p - n % p) == (n / p + 1) * p) by (nonlinear_arith)
            requires
                n % p == n - p * (n / p),
        ;
    }
    period_ms - now_ms % period_ms
}

} // verus!
