use vstd::prelude::*;

use crate::error::TaxError;

verus! {

/// The index that the time counter `t` selects among `n` holders: `t` modulo
/// `n`, taken in `[0, n)` also for a negative counter.
pub open spec fn index_of(t: int, n: int) -> int {
    t % n
}

/// The index that the time counter `timestamp` selects among `holder_count`
/// holders, or `EmptyHolderSet` where there are none.
pub fn select_index(timestamp: i64, holder_count: usize) -> (r: Result<usize, TaxError>)
    ensures
        holder_count == 0 <==> r is Err,
        r matches Err(e) ==> e == TaxError::EmptyHolderSet,
        r matches Ok(i) ==> i == index_of(timestamp as int, holder_count as int) && i < holder_count,
{
    if holder_count == 0 {
        return Err(TaxError::EmptyHolderSet);
    }
    let n: u64 = holder_count as u64;
    if timestamp >= 0 {
        let i: u64 = (timestamp as u64) % n;
        Ok(i as usize)
    } else {
        // |timestamp|, which fits a u64 even at i64::MIN
        let magnitude: u64 = ((-(timestamp + 1)) as u64) + 1;
        let rem: u64 = magnitude % n;
        proof {
            lemma_negated_mod(magnitude as int, n as int);
        }
        if rem == 0 {
            Ok(0)
        } else {
            Ok((n - rem) as usize)
        }
    }
}

/// The Euclidean remainder of `-m` by `n` in terms of that of `m`.
proof fn lemma_negated_mod(m: int, n: int)
    requires
        m >= 0,
        n > 0,
    ensures
        m % n == 0 ==> (-m) % n == 0,
        m % n != 0 ==> (-m) % n == n - m % n,
{
    let q = m / n;
    let r = m % n;
    assert(m == q * n + r && 0 <= r < n) by {
        vstd::arithmetic::div_mod::lemma_fundamental_div_mod(m, n);
    }
    if r == 0 {
        assert(-m == (-q) * n) by (nonlinear_arith)
            requires
                m == q * n,
        ;
        vstd::arithmetic::div_mod::lemma_mod_multiples_basic(-q, n);
    } else {
        assert(-m == (-q - 1) * n + (n - r)) by (nonlinear_arith)
            requires
                m == q * n + r,
        ;
        vstd::arithmetic::div_mod::lemma_mod_multiples_vanish(-q - 1, n - r, n);
        vstd::arithmetic::div_mod::lemma_small_mod((n - r) as nat, n as nat);
    }
}

/// For a non-empty holder sequence, every time counter selects an index
/// inside it.
pub proof fn lemma_index_in_range(t: int, n: int)
    requires
        n > 0,
    ensures
        0 <= index_of(t, n) < n,
{
}

/// The selection is a function of the time counter alone, and counters that
/// differ by a multiple of the holder count select the same index: distinct
/// counters need not give distinct holders.
pub proof fn lemma_selection_repeats(t: int, k: int, n: int)
    requires
        n > 0,
    ensures
        index_of(t + k * n, n) == index_of(t, n),
{
    vstd::arithmetic::div_mod::lemma_mod_multiples_vanish(k, t, n);
    assert(t + k * n == n * k + t) by (nonlinear_arith);
}

} // verus!
