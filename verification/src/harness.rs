//! The repeated-trial accumulation around the scanner: run the scan a given
//! number of times on the same input, sum the per-trial counters into grand
//! totals, and combine the totals into the single weighted checksum that the
//! benchmark prints. All accumulation uses 64-bit wraparound addition, as
//! the scanner itself does.

use vstd::prelude::*;

verus! {

use vstd::wrapping::i64_specs;
use crate::scanner::Counts;
use crate::scanner::scan;
use crate::scanner::scan_spec;

/// Counter-wise 64-bit wraparound addition of two result tuples.
pub open spec fn add_counts_spec(a: Counts, b: Counts) -> Counts {
    Counts {
        token_count: i64_specs::wrapping_add(a.token_count, b.token_count),
        number_count: i64_specs::wrapping_add(a.number_count, b.number_count),
        number_sum: i64_specs::wrapping_add(a.number_sum, b.number_sum),
        string_byte_count: i64_specs::wrapping_add(a.string_byte_count, b.string_byte_count),
    }
}

/// All four counters zero.
pub open spec fn zero_counts_spec() -> Counts {
    Counts { token_count: 0, number_count: 0, number_sum: 0, string_byte_count: 0 }
}

/// The grand totals after `n` trials on `bytes`: `n` copies of
/// `scan_spec(bytes)` folded together with wraparound addition.
pub open spec fn trials_spec(bytes: Seq<u8>, n: nat) -> Counts
    decreases n,
{
    if n == 0 {
        zero_counts_spec()
    } else {
        add_counts_spec(trials_spec(bytes, (n - 1) as nat), scan_spec(bytes))
    }
}

/// The printed checksum: `number_sum + token_count * 10^9 +
/// number_count * 10^6 + string_byte_count`, folded left with wraparound
/// arithmetic. The weighting is presentation-only; it separates the digit
/// ranges of the four totals in the printed decimal value.
pub open spec fn checksum_spec(t: Counts) -> i64 {
    i64_specs::wrapping_add(
        i64_specs::wrapping_add(
            i64_specs::wrapping_add(
                t.number_sum,
                i64_specs::wrapping_mul(t.token_count, 1_000_000_000),
            ),
            i64_specs::wrapping_mul(t.number_count, 1_000_000),
        ),
        t.string_byte_count,
    )
}

/// A partial multiple of `c` lies between zero and the full multiple.
proof fn lemma_mul_in_range(k: int, n: int, c: int)
    by (nonlinear_arith)
    requires
        0 <= k <= n,
    ensures
        c >= 0 ==> 0 <= k * c <= n * c,
        c < 0 ==> n * c <= k * c <= 0,
{
}

/// Trial-count linearity: the scanner is stateless and deterministic, so as
/// long as none of the four products `n * counter` leaves the 64-bit signed
/// range, running `n` trials and summing equals running one trial and
/// multiplying each counter by `n`.
pub proof fn lemma_trials_linear(bytes: Seq<u8>, n: nat)
    requires
        i64::MIN <= n * scan_spec(bytes).token_count <= i64::MAX,
        i64::MIN <= n * scan_spec(bytes).number_count <= i64::MAX,
        i64::MIN <= n * scan_spec(bytes).number_sum <= i64::MAX,
        i64::MIN <= n * scan_spec(bytes).string_byte_count <= i64::MAX,
    ensures
        trials_spec(bytes, n).token_count == n * scan_spec(bytes).token_count,
        trials_spec(bytes, n).number_count == n * scan_spec(bytes).number_count,
        trials_spec(bytes, n).number_sum == n * scan_spec(bytes).number_sum,
        trials_spec(bytes, n).string_byte_count == n * scan_spec(bytes).string_byte_count,
    decreases n,
{
    if n > 0 {
        let c = scan_spec(bytes);
        let m = n as int;
        lemma_mul_in_range(m - 1, m, c.token_count as int);
        lemma_mul_in_range(m - 1, m, c.number_count as int);
        lemma_mul_in_range(m - 1, m, c.number_sum as int);
        lemma_mul_in_range(m - 1, m, c.string_byte_count as int);
        lemma_trials_linear(bytes, (n - 1) as nat);
        assert((m - 1) * c.token_count + c.token_count == m * c.token_count) by (nonlinear_arith);
        assert((m - 1) * c.number_count + c.number_count == m * c.number_count)
            by (nonlinear_arith);
        assert((m - 1) * c.number_sum + c.number_sum == m * c.number_sum) by (nonlinear_arith);
        assert((m - 1) * c.string_byte_count + c.string_byte_count == m * c.string_byte_count)
            by (nonlinear_arith);
    } else {
        let c = scan_spec(bytes);
        assert(trials_spec(bytes, n) == zero_counts_spec());
        assert(n * c.token_count == 0) by (nonlinear_arith)
            requires n == 0,
        ;
        assert(n * c.number_count == 0) by (nonlinear_arith)
            requires n == 0,
        ;
        assert(n * c.number_sum == 0) by (nonlinear_arith)
            requires n == 0,
        ;
        assert(n * c.string_byte_count == 0) by (nonlinear_arith)
            requires n == 0,
        ;
    }
}

/// Adds one trial's counters into the running totals.
fn add_counts(totals: &mut Counts, one: &Counts)
    ensures
        *final(totals) == add_counts_spec(*old(totals), *one),
{
    totals.token_count = totals.token_count.wrapping_add(one.token_count);
    totals.number_count = totals.number_count.wrapping_add(one.number_count);
    totals.number_sum = totals.number_sum.wrapping_add(one.number_sum);
    totals.string_byte_count = totals.string_byte_count.wrapping_add(one.string_byte_count);
}

/// Scans `bytes` once per trial and sums the per-trial counters into grand
/// totals with wraparound addition.
pub fn run_trials(bytes: &[u8], trials: u64) -> (totals: Counts)
    ensures
        totals == trials_spec(bytes@, trials as nat),
{
    let mut totals = Counts {
        token_count: 0,
        number_count: 0,
        number_sum: 0,
        string_byte_count: 0,
    };
    let mut done: u64 = 0;
    while done < trials
        invariant
            done <= trials,
            totals == trials_spec(bytes@, done as nat),
        decreases trials - done,
    {
        let one = scan(bytes);
        add_counts(&mut totals, &one);
        done = done + 1;
    }
    totals
}

/// Combines the four grand totals into the single checksum value that the
/// benchmark prints.
pub fn checksum(totals: &Counts) -> (r: i64)
    ensures
        r == checksum_spec(*totals),
{
    totals.number_sum
        .wrapping_add(totals.token_count.wrapping_mul(1_000_000_000))
        .wrapping_add(totals.number_count.wrapping_mul(1_000_000))
        .wrapping_add(totals.string_byte_count)
}

} // verus!
