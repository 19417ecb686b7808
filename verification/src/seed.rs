//! Seeds: resolving the master seed of a run and deriving one seed per run.

use vstd::prelude::*;
use vstd::arithmetic::div_mod::{lemma_add_mod_noop_right, lemma_small_mod};

verus! {

/// Odd 64-bit step (the golden-ratio constant) between consecutive run seeds.
pub const SEED_STEP: u64 = 0x9E37_79B9_7F4A_7C15;

/// The seed of run `run_index` under master seed `master`:
/// `master + run_index * SEED_STEP`, wrapped to 64 bits.
pub open spec fn run_seed(master: u64, run_index: nat) -> u64 {
    ((master + run_index * SEED_STEP) % 0x1_0000_0000_0000_0000int) as u64
}

/// The seed of run `run_index` when the master seed is `seed`; unseeded runs
/// stay unseeded.
pub open spec fn seed_of_run(seed: Option<u64>, run_index: nat) -> Option<u64> {
    match seed {
        Some(master) => Some(run_seed(master, run_index)),
        None => None,
    }
}

/// The seed used when `seed` was not given and the clock read `clock_nanos`
/// nanoseconds since the Unix epoch (`None` when the clock is before it).
pub open spec fn seed_or_clock(seed: Option<u64>, clock_nanos: Option<u128>) -> u64 {
    match seed {
        Some(s) => s,
        None => match clock_nanos {
            Some(n) => (n % 0x1_0000_0000_0000_0000u128) as u64,
            None => 0,
        },
    }
}

/// Reads the system clock (`std::time::SystemTime::now`) as nanoseconds since
/// the Unix epoch, or `None` when the clock is set before the epoch
/// (`SystemTime::duration_since` fails). Nothing is claimed of the value: it
/// depends on the time of the call.
#[verifier::external_body]
fn clock_nanos_since_epoch() -> (r: Option<u128>) {
    std::time::SystemTime::now()
        .duration_since(std::time::UNIX_EPOCH)
        .ok()
        .map(|d| d.as_nanos())
}

/// Picks the seed for a generator call from the given seed, or else from a
/// clock reading (truncated to its low 64 bits; 0 when the clock is before
/// the epoch).
pub fn seed_from_clock(seed: Option<u64>, clock_nanos: Option<u128>) -> (r: u64)
    ensures
        r == seed_or_clock(seed, clock_nanos),
{
    match seed {
        Some(s) => s,
        None => match clock_nanos {
            Some(n) => (n % 0x1_0000_0000_0000_0000u128) as u64,
            None => 0,
        },
    }
}

/// Resolves the seed for a generator call: a given seed is used as is; `None`
/// draws one from the clock, so unseeded calls vary between calls.
pub fn resolve_seed(seed: Option<u64>) -> (r: u64)
    ensures
        seed matches Some(s) ==> r == s,
        seed is None ==> exists|c: Option<u128>| r == seed_or_clock(seed, c),
{
    match seed {
        Some(s) => s,
        None => {
            let clock = clock_nanos_since_epoch();
            seed_from_clock(seed, clock)
        },
    }
}

/// Derives the seed of run `run_index` from a master seed. Run 0 maps to the
/// master itself.
pub fn derive_seed(master: u64, run_index: usize) -> (r: u64)
    ensures
        r == run_seed(master, run_index as nat),
{
    let step = (run_index as u64).wrapping_mul(SEED_STEP);
    proof {
        let m: int = 0x1_0000_0000_0000_0000int;
        assert(step == (run_index * SEED_STEP) % m);
        lemma_add_mod_noop_right(master as int, run_index * SEED_STEP, m);
        if master + step < m {
            lemma_small_mod((master + step) as nat, m as nat);
        } else {
            assert((master + step) % m == master + step - m) by {
                lemma_small_mod((master + step - m) as nat, m as nat);
                vstd::arithmetic::div_mod::lemma_mod_sub_multiples_vanish(master + step, m);
            }
        }
    }
    master.wrapping_add(step)
}

/// The seed of every run, in run order: `None` throughout for an unseeded
/// call, else the derived seed of each run.
pub fn run_seeds(seed: Option<u64>, runs: usize) -> (r: Vec<Option<u64>>)
    ensures
        r.len() == runs,
        forall|i: int| 0 <= i < runs ==> #[trigger] r[i] == seed_of_run(seed, i as nat),
{
    let mut out: Vec<Option<u64>> = Vec::new();
    let mut i: usize = 0;
    while i < runs
        invariant
            i <= runs,
            out.len() == i,
            forall|j: int| 0 <= j < i ==> #[trigger] out[j] == seed_of_run(seed, j as nat),
        decreases runs - i,
    {
        let s = match seed {
            Some(master) => Some(derive_seed(master, i)),
            None => None,
        };
        out.push(s);
        i = i + 1;
    }
    out
}

/// Run 0 of a seeded call uses the master seed itself, so a single seeded run
/// reproduces a run seeded directly.
pub proof fn first_run_uses_master_seed(master: u64)
    ensures
        run_seed(master, 0) == master,
        seed_of_run(Some(master), 0) == Some(master),
{
    lemma_small_mod(master as nat, 0x1_0000_0000_0000_0000nat);
}

/// Consecutive runs of one seeded call never share a seed: the step between
/// run seeds is odd, so the first 2^64 runs all get distinct seeds.
pub proof fn run_seeds_distinct(master: u64, i: nat, j: nat)
    requires
        i < j < 0x1_0000_0000_0000_0000nat,
    ensures
        run_seed(master, i) != run_seed(master, j),
{
    let m: int = 0x1_0000_0000_0000_0000int;
    if run_seed(master, i) == run_seed(master, j) {
        // (master + j*S) - (master + i*S) = (j - i) * S is a multiple of 2^64.
        assert(((j - i) * SEED_STEP) % m == 0) by {
            vstd::arithmetic::div_mod::lemma_sub_mod_noop(
                master + j * SEED_STEP,
                master + i * SEED_STEP,
                m,
            );
            assert((master + j * SEED_STEP) - (master + i * SEED_STEP) == (j - i) * SEED_STEP)
                by (nonlinear_arith);
        }
        odd_step_multiple_not_wrapping((j - i) as nat);
    }
}

proof fn odd_step_multiple_not_wrapping(d: nat)
    requires
        0 < d < 0x1_0000_0000_0000_0000nat,
    ensures
        (d * SEED_STEP) % 0x1_0000_0000_0000_0000int != 0,
{
    let m: int = 0x1_0000_0000_0000_0000int;
    // SEED_STEP is invertible modulo 2^64: SEED_STEP * INV == 1 + C * 2^64.
    let inv: int = 0xf1de83e19937733dint;
    let c: int = 10771413168148108919int;
    assert(0x9E37_79B9_7F4A_7C15int * 0xf1de83e19937733dint == 1 + 10771413168148108919int * 0x1_0000_0000_0000_0000int);
    if (d * SEED_STEP) % m == 0 {
        let k: int = (d * SEED_STEP) / m;
        assert(d * SEED_STEP == k * m) by {
            vstd::arithmetic::div_mod::lemma_fundamental_div_mod(d * SEED_STEP, m);
        }
        let s: int = SEED_STEP as int;
        assert(d == m * (k * inv - d * c)) by (nonlinear_arith)
            requires
                d * s == k * m,
                s * inv == 1 + c * m,
        ;
        let q: int = k * inv - d * c;
        assert(false) by (nonlinear_arith)
            requires
                d == m * q,
                0 < d < m,
                m > 0,
        ;
    }
}

} // verus!
