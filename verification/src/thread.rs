//! The fork-join budget.
//!
//! Every blocked kernel takes a [`Parallelism`](crate::Parallelism) selector
//! that bounds how many workers its recursive sub-tasks may be spread over;
//! the blocking decisions of the kernels depend on this degree. In this
//! implementation both halves of every fork run on the calling thread, which
//! is one of the legal schedules of the fork-join model, since sibling
//! sub-tasks always work over disjoint storage.

use vstd::prelude::*;
use crate::Parallelism;

verus! {

/// Relies on rayon::current_num_threads: the number of threads of the current
/// thread's pool, or of the global pool; a pool always holds at least one
/// thread.
#[verifier::external_body]
fn rayon_current_num_threads() -> (r: usize)
    ensures
        r >= 1,
{
    rayon::current_num_threads()
}

/// The number of workers that the given parallelism selector allows: one for
/// sequential execution, the ambient worker count for a zero bound, and the
/// bound itself otherwise.
pub fn parallelism_degree(parallelism: Parallelism) -> (r: usize)
    ensures
        r >= 1,
        parallelism == Parallelism::Sequential ==> r == 1,
        parallelism matches Parallelism::Rayon(n) ==> (n > 0 ==> r == n),
{
    match parallelism {
        Parallelism::Sequential => 1,
        Parallelism::Rayon(n_threads) => {
            if n_threads == 0 {
                rayon_current_num_threads()
            } else {
                n_threads
            }
        },
    }
}

/// The budget that each half of a fork receives: sequential execution stays
/// sequential, a bounded budget of at most one worker degrades to sequential
/// execution, and a larger budget is halved, rounding up.
pub fn split_parallelism(parallelism: Parallelism) -> (r: Parallelism)
    ensures
        parallelism == Parallelism::Sequential ==> r == Parallelism::Sequential,
        parallelism matches Parallelism::Rayon(n) ==> (n <= 1 ==> r
            == Parallelism::Sequential),
        parallelism matches Parallelism::Rayon(n) ==> (n > 1 ==> r == Parallelism::Rayon(
            (n - n / 2) as usize,
        )),
{
    match parallelism {
        Parallelism::Sequential => Parallelism::Sequential,
        Parallelism::Rayon(n_threads) => {
            if n_threads <= 1 {
                Parallelism::Sequential
            } else {
                Parallelism::Rayon(n_threads - n_threads / 2)
            }
        },
    }
}

/// The start of the chunk with the given index, when `n` items are divided
/// into `chunk_count` chunks whose sizes differ by at most one: the first
/// `n % chunk_count` chunks get one extra item.
pub open spec fn spec_chunk_start(n: int, idx: int, chunk_count: int) -> int {
    let chunk_size = n / chunk_count;
    let rem = n % chunk_count;
    if idx < rem {
        idx * (chunk_size + 1)
    } else {
        rem + idx * chunk_size
    }
}

/// Divides `n` items into `chunk_count` chunks whose sizes differ by at most
/// one and returns the start and the length of the chunk with the given index.
pub fn par_split_indices(n: usize, idx: usize, chunk_count: usize) -> (r: (usize, usize))
    requires
        chunk_count >= 1,
        idx < chunk_count,
    ensures
        r.0 == spec_chunk_start(n as int, idx as int, chunk_count as int),
        r.0 + r.1 == spec_chunk_start(n as int, idx as int + 1, chunk_count as int),
        r.0 + r.1 <= n,
{
    let chunk_size = n / chunk_count;
    let rem = n % chunk_count;
    proof {
        vstd::arithmetic::div_mod::lemma_fundamental_div_mod(n as int, chunk_count as int);
        lemma_chunk_starts(n as int, idx as int, chunk_count as int);
    }
    proof {
        if rem >= 1 {
            assert(chunk_size < n) by (nonlinear_arith)
                requires
                    chunk_count >= 1,
                    rem >= 1,
                    n == chunk_count * chunk_size + rem,
                    chunk_size >= 0,
            ;
        }
    }
    let start = if idx < rem {
        idx * (chunk_size + 1)
    } else {
        rem + idx * chunk_size
    };
    let end = if idx + 1 < rem {
        (idx + 1) * (chunk_size + 1)
    } else {
        rem + (idx + 1) * chunk_size
    };
    (start, end - start)
}

/// The chunks tile the whole range: the first chunk starts at zero and the
/// last chunk ends at the item count, so splitting work over chunks neither
/// drops nor repeats an item.
pub proof fn lemma_chunks_tile(n: int, chunk_count: int)
    requires
        chunk_count >= 1,
        n >= 0,
    ensures
        spec_chunk_start(n, 0, chunk_count) == 0,
        spec_chunk_start(n, chunk_count, chunk_count) == n,
{
    let cs = n / chunk_count;
    let rem = n % chunk_count;
    vstd::arithmetic::div_mod::lemma_fundamental_div_mod(n, chunk_count);
    assert(n == chunk_count * cs + rem);
    assert(0 <= rem < chunk_count);
    assert(0 * (cs + 1) == 0) by (nonlinear_arith);
    assert(0 * cs == 0) by (nonlinear_arith);
    assert(spec_chunk_start(n, 0, chunk_count) == 0);
    assert(rem + chunk_count * cs == n);
    assert(chunk_count * cs == cs * chunk_count) by (nonlinear_arith);
    assert(spec_chunk_start(n, chunk_count, chunk_count) == rem + chunk_count * cs);
}

/// Successive chunk starts are ordered and stay within the item count.
proof fn lemma_chunk_starts(n: int, idx: int, chunk_count: int)
    requires
        chunk_count >= 1,
        0 <= idx < chunk_count,
        n >= 0,
    ensures
        0 <= spec_chunk_start(n, idx, chunk_count),
        spec_chunk_start(n, idx, chunk_count) <= spec_chunk_start(n, idx + 1, chunk_count),
        spec_chunk_start(n, idx + 1, chunk_count) <= n,
{
    let cs = n / chunk_count;
    let rem = n % chunk_count;
    vstd::arithmetic::div_mod::lemma_fundamental_div_mod(n, chunk_count);
    assert(n == chunk_count * cs + rem);
    assert(0 <= rem < chunk_count);
    assert(cs >= 0) by (nonlinear_arith)
        requires
            chunk_count >= 1,
            n >= 0,
            n == chunk_count * cs + rem,
            rem < chunk_count,
    ;
    let s0 = spec_chunk_start(n, idx, chunk_count);
    let s1 = spec_chunk_start(n, idx + 1, chunk_count);
    if idx + 1 <= rem {
        // Both starts are in the oversized region (or `idx + 1` is its end).
        assert(s0 == idx * (cs + 1));
        if idx + 1 < rem {
            assert(s1 == (idx + 1) * (cs + 1));
        } else {
            assert(s1 == rem + (idx + 1) * cs);
            assert(rem + (idx + 1) * cs == (idx + 1) * (cs + 1)) by (nonlinear_arith)
                requires
                    rem == idx + 1,
            ;
        }
        assert(0 <= s0 && s0 <= s1 && s1 <= n) by (nonlinear_arith)
            requires
                s0 == idx * (cs + 1),
                s1 == (idx + 1) * (cs + 1),
                0 <= idx,
                idx + 1 <= rem,
                rem < chunk_count,
                cs >= 0,
                n == chunk_count * cs + rem,
    ;
    } else {
        assert(s1 == rem + (idx + 1) * cs);
        if idx < rem {
            assert(s0 == idx * (cs + 1));
            assert(0 <= s0 && s0 <= s1 && s1 <= n) by (nonlinear_arith)
                requires
                    s0 == idx * (cs + 1),
                    s1 == rem + (idx + 1) * cs,
                    0 <= idx < rem,
                    rem < chunk_count,
                    cs >= 0,
                    n == chunk_count * cs + rem,
    ;
        } else {
            assert(s0 == rem + idx * cs);
            assert(0 <= s0 && s0 <= s1 && s1 <= n) by (nonlinear_arith)
                requires
                    s0 == rem + idx * cs,
                    s1 == rem + (idx + 1) * cs,
                    0 <= rem <= idx < chunk_count,
                    cs >= 0,
                    n == chunk_count * cs + rem,
    ;
        }
    }
}

} // verus!
