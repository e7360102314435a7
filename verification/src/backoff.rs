//! The backoff schedule: how long to wait after each failed attempt.
//!
//! Waits are whole milliseconds held in a `u64`. The schedule is a pure
//! function of the attempt index and the base delay: it doubles with every
//! attempt and, once the doubling no longer fits, stays at the longest wait
//! that can be written down.

use vstd::arithmetic::mul::lemma_mul_inequality;
use vstd::arithmetic::power2::lemma2_to64;
use vstd::arithmetic::power2::lemma_pow2_strictly_increases;
use vstd::arithmetic::power2::lemma_pow2_unfold;
use vstd::arithmetic::power2::pow2;
use vstd::bits::lemma_u64_shl_is_mul;
use vstd::prelude::*;

verus! {

/// The longest wait the schedule can ask for, in milliseconds.
pub const MAX_DELAY: u64 = u64::MAX;

/// The wait after the failed attempt with index `attempt`, in milliseconds:
/// `base_delay * 2^attempt`, held at `MAX_DELAY` where the product would
/// exceed it.
pub open spec fn delay_spec(base_delay: u64, attempt: nat) -> u64 {
    if base_delay * pow2(attempt) <= MAX_DELAY {
        (base_delay * pow2(attempt)) as u64
    } else {
        MAX_DELAY
    }
}

/// The waits after the failed attempts `0, 1, .., len - 1`, in that order.
pub open spec fn schedule_spec(base_delay: u64, len: nat) -> Seq<u64> {
    Seq::new(len, |k: int| delay_spec(base_delay, k as nat))
}

/// The product `base_delay * 2^attempt` never shrinks when `attempt` grows.
proof fn lemma_product_grows(base_delay: u64, earlier: nat, later: nat)
    requires
        earlier <= later,
    ensures
        base_delay * pow2(earlier) <= base_delay * pow2(later),
{
    if earlier < later {
        lemma_pow2_strictly_increases(earlier, later);
    }
    lemma_mul_inequality(pow2(earlier) as int, pow2(later) as int, base_delay as int);
}

/// From the 64th attempt on, a schedule with a positive base delay has
/// left the range of `u64`.
proof fn lemma_product_leaves_range(base_delay: u64, attempt: nat)
    requires
        base_delay >= 1,
        attempt >= 64,
    ensures
        base_delay * pow2(attempt) > MAX_DELAY,
{
    lemma2_to64();
    lemma_product_grows(base_delay, 64, attempt);
}

/// The schedule is a pure function: two calls of `delay` with the same
/// attempt index and the same base delay return the same wait.
pub proof fn delay_is_deterministic(attempt: usize, base_delay: u64, first: u64, second: u64)
    requires
        call_ensures(delay, (attempt, base_delay), first),
        call_ensures(delay, (attempt, base_delay), second),
    ensures
        first == second,
{
}

/// Waits never shrink from one attempt to a later one.
pub proof fn delay_is_monotonic(base_delay: u64, earlier: nat, later: nat)
    requires
        earlier <= later,
    ensures
        delay_spec(base_delay, earlier) <= delay_spec(base_delay, later),
{
    lemma_product_grows(base_delay, earlier, later);
}

/// Each wait is twice the one before it, held at `MAX_DELAY`; the first
/// wait is the base delay itself.
pub proof fn delay_doubles(base_delay: u64, attempt: nat)
    ensures
        delay_spec(base_delay, 0) == base_delay,
        delay_spec(base_delay, attempt + 1) == if 2 * delay_spec(base_delay, attempt)
            <= MAX_DELAY {
            2 * delay_spec(base_delay, attempt)
        } else {
            MAX_DELAY as int
        },
{
    lemma2_to64();
    lemma_pow2_unfold(attempt + 1);
    let product = base_delay * pow2(attempt);
    assert(base_delay * pow2(attempt + 1) == 2 * product) by (nonlinear_arith)
        requires
            pow2(attempt + 1) == 2 * pow2(attempt),
            product == base_delay * pow2(attempt),
    ;
}

/// Overflow never wraps to a short wait: wherever `base_delay * 2^attempt`
/// exceeds `MAX_DELAY` the wait is `MAX_DELAY`, and with a positive base
/// delay that is so from the 64th attempt on at the latest. A base delay of
/// zero waits zero milliseconds at every attempt.
pub proof fn delay_saturates(base_delay: u64, attempt: nat)
    ensures
        base_delay * pow2(attempt) > MAX_DELAY ==> delay_spec(base_delay, attempt) == MAX_DELAY,
        base_delay >= 1 && attempt >= 64 ==> delay_spec(base_delay, attempt) == MAX_DELAY,
        base_delay >= 1 ==> delay_spec(base_delay, attempt) >= base_delay,
        base_delay == 0 ==> delay_spec(base_delay, attempt) == 0,
{
    if base_delay >= 1 {
        if attempt >= 64 {
            lemma_product_leaves_range(base_delay, attempt);
        }
        lemma2_to64();
        lemma_product_grows(base_delay, 0, attempt);
    }
}

/// The wait before the retry that follows the failed attempt `attempt`
/// (counted from zero), in milliseconds, for a schedule that starts at
/// `base_delay` milliseconds.
pub fn delay(attempt: usize, base_delay: u64) -> (wait: u64)
    ensures
        wait == delay_spec(base_delay, attempt as nat),
{
    if attempt >= 64 {
        proof {
            delay_saturates(base_delay, attempt as nat);
        }
        if base_delay == 0 {
            0
        } else {
            MAX_DELAY
        }
    } else {
        let shift: u64 = attempt as u64;
        proof {
            lemma2_to64();
            lemma_pow2_strictly_increases(shift as nat, 64);
            lemma_u64_shl_is_mul(1, shift);
        }
        let factor: u64 = 1u64 << shift;
        match base_delay.checked_mul(factor) {
            Some(wait) => wait,
            None => MAX_DELAY,
        }
    }
}

/// The table of the first `N` waits of the schedule that starts at
/// `base_delay` milliseconds: entry `k` is the wait after the failed attempt
/// `k`. With a base delay of one the table reads `1, 2, 4, ..`.
pub fn backoff_table<const N: usize>(base_delay: u64) -> (table: [u64; N])
    ensures
        table@ == schedule_spec(base_delay, N as nat),
        forall|i: int, j: int| 0 <= i <= j < N ==> table@[i] <= table@[j],
{
    let mut table: [u64; N] = [0u64; N];
    let mut k: usize = 0;
    while k < N
        invariant
            k <= N,
            forall|i: int| 0 <= i < k ==> table@[i] == delay_spec(base_delay, i as nat),
        decreases N - k,
    {
        table[k] = delay(k, base_delay);
        k += 1;
    }
    proof {
        assert forall|i: int, j: int| 0 <= i <= j < N implies table@[i] <= table@[j] by {
            delay_is_monotonic(base_delay, i as nat, j as nat);
        }
    }
    table
}

} // verus!
