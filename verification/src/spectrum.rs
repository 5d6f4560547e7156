//! Which discrete wave number each slot of a transformed axis holds.
//!
//! An axis of `n` samples over a period `l` has the fundamental angular
//! frequency `2π / l`. The frequency of a slot is a multiple of it, written
//! here with integers only as `whole - halves / 2`; the caller scales it.

use vstd::prelude::*;

verus! {

/// The wave number `whole - halves / 2` of one slot.
#[derive(Clone, Copy, PartialEq, Eq, Structural, Debug)]
pub struct Mode {
    /// The part counted in whole fundamentals.
    pub whole: usize,
    /// The part taken off, counted in half fundamentals.
    pub halves: usize,
}

/// The mode of slot `k` on an axis of `n` samples. With `h = n / 2` rounded
/// down, the first `h` slots count up from zero; the next `h` count up from
/// `-n / 2`, not rounded. Where `n` is odd the last slot has no mode.
pub open spec fn spec_mode(n: int, k: int) -> Option<Mode> {
    let h = n / 2;
    if k < h {
        Some(Mode { whole: k as usize, halves: 0 })
    } else if k < 2 * h {
        Some(Mode { whole: (k - h) as usize, halves: n as usize })
    } else {
        None
    }
}

/// Twice the wave number of a slot; zero for a slot without a mode, whose
/// frequency is left at zero.
pub open spec fn twice_wave_number(slot: Option<Mode>) -> int {
    match slot {
        Some(m) => 2 * m.whole - m.halves,
        None => 0,
    }
}

/// The modes of all `n` slots of an axis, slot by slot.
pub fn fftfreq(n: usize) -> (modes: Vec<Option<Mode>>)
    ensures
        modes@.len() == n,
        forall|k: int| 0 <= k < n ==> #[trigger] modes@[k] == spec_mode(n as int, k),
{
    let half: usize = n / 2;
    let mut modes: Vec<Option<Mode>> = Vec::new();
    let mut k: usize = 0;
    while k < n
        invariant
            k <= n,
            half == n / 2,
            modes@.len() == k,
            forall|j: int| 0 <= j < k ==> #[trigger] modes@[j] == spec_mode(n as int, j),
        decreases n - k,
    {
        let slot = if k < half {
            Some(Mode { whole: k, halves: 0 })
        } else if k - half < half {
            Some(Mode { whole: k - half, halves: n })
        } else {
            None
        };
        modes.push(slot);
        k = k + 1;
    }
    modes
}

/// On an axis with an even number of samples every slot has a mode, and the
/// wave numbers are `0, 1, .., n/2 - 1, -n/2, .., -1` in this order.
pub proof fn lemma_even_axis(n: int, k: int)
    requires
        0 <= k < n <= usize::MAX,
        n % 2 == 0,
    ensures
        spec_mode(n, k) is Some,
        k < n / 2 ==> twice_wave_number(spec_mode(n, k)) == 2 * k,
        k >= n / 2 ==> twice_wave_number(spec_mode(n, k)) == 2 * (k - n),
{
}

/// On an axis with an odd number of samples only the last slot has no mode,
/// and the slots of the second half lie half a fundamental off the whole
/// numbers: slot `n/2 + i` has twice the wave number `2 * i - n`.
pub proof fn lemma_odd_axis(n: int, k: int)
    requires
        0 <= k < n <= usize::MAX,
        n % 2 == 1,
    ensures
        spec_mode(n, k) is None <==> k == n - 1,
        k < n / 2 ==> twice_wave_number(spec_mode(n, k)) == 2 * k,
        n / 2 <= k < n - 1 ==> twice_wave_number(spec_mode(n, k)) == 2 * (k - n / 2) - n,
{
}

} // verus!
