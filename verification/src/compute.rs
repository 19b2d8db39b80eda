//! The compute-dispatch operation: one invocation per element, partitioned
//! into fixed-size workgroups, each invocation multiplying its element by a
//! constant factor in 32-bit modular arithmetic.

use vstd::prelude::*;

verus! {

/// The factor the dispatch multiplies every element by.
pub const SCALE_FACTOR: u32 = 12;

/// The number of invocations in one workgroup.
pub const WORKGROUP_SIZE: usize = 64;

/// What one invocation computes from its element: the product with the
/// scale factor, reduced modulo 2^32 as 32-bit device arithmetic does.
pub open spec fn scaled(x: u32) -> u32 {
    (((SCALE_FACTOR as int) * (x as int)) % 0x1_0000_0000) as u32
}

/// The whole output of a dispatch over `input`: every element scaled,
/// none skipped, none duplicated.
pub open spec fn dispatch_output(input: Seq<u32>) -> Seq<u32> {
    Seq::new(input.len(), |i: int| scaled(input[i]))
}

/// Whether `w` workgroups cover an input of `n` elements exactly: enough
/// invocations for every element, and no workgroup past the last that
/// holds an element.
pub open spec fn dispatch_covers(n: int, w: int) -> bool {
    &&& 0 <= n
    &&& 0 <= w
    &&& n <= w * (WORKGROUP_SIZE as int)
    &&& (w > 0 ==> (w - 1) * (WORKGROUP_SIZE as int) < n)
}

/// Whether invocation `inv` of workgroup `wg`, out of `w` workgroups, is
/// the one that processes element `i`.
pub open spec fn invocation_reaches(wg: int, inv: int, w: int, i: int) -> bool {
    &&& 0 <= wg < w
    &&& 0 <= inv < WORKGROUP_SIZE as int
    &&& i == wg * (WORKGROUP_SIZE as int) + inv
}

/// Whether some invocation of the `w` workgroups processes element `i`.
pub open spec fn some_invocation_reaches(w: int, i: int) -> bool {
    exists|wg: int, inv: int| invocation_reaches(wg, inv, w, i)
}

/// Under the workgroup partitioning, every element of the input range is
/// processed exactly once: each index is reached by some invocation, and
/// by no two distinct ones.
pub proof fn lemma_partition_exact(n: int, w: int)
    requires
        dispatch_covers(n, w),
    ensures
        forall|i: int| 0 <= i < n ==> some_invocation_reaches(w, i),
        forall|wg1: int, inv1: int, wg2: int, inv2: int, i: int|
            invocation_reaches(wg1, inv1, w, i) && invocation_reaches(wg2, inv2, w, i) ==> wg1
                == wg2 && inv1 == inv2,
{
    let s = WORKGROUP_SIZE as int;
    assert forall|i: int| 0 <= i < n implies some_invocation_reaches(w, i) by {
        let wg = i / s;
        let inv = i % s;
        assert(i == wg * s + inv && 0 <= inv < s && 0 <= wg && wg < w) by (nonlinear_arith)
            requires
                s == 64,
                0 <= i < n,
                n <= w * s,
                wg == i / s,
                inv == i % s,
        ;
        assert(invocation_reaches(wg, inv, w, i));
    }
    assert forall|wg1: int, inv1: int, wg2: int, inv2: int, i: int|
        invocation_reaches(wg1, inv1, w, i) && invocation_reaches(wg2, inv2, w, i) implies wg1
        == wg2 && inv1 == inv2 by {
        assert(wg1 == wg2 && inv1 == inv2) by (nonlinear_arith)
            requires
                s == 64,
                0 <= inv1 < s,
                0 <= inv2 < s,
                wg1 * s + inv1 == wg2 * s + inv2,
        ;
    }
}

/// One invocation's arithmetic: multiply by the scale factor, keeping the
/// low 32 bits as the device does.
pub fn scale(x: u32) -> (r: u32)
    ensures
        r == scaled(x),
{
    let wide: u64 = (SCALE_FACTOR as u64) * (x as u64);
    (wide % 0x1_0000_0000u64) as u32
}

/// The number of workgroups a dispatch over `n` elements is launched with:
/// the least count whose invocations cover every element.
pub fn workgroup_count(n: usize) -> (w: usize)
    ensures
        dispatch_covers(n as int, w as int),
        w <= n,
{
    let base = n / WORKGROUP_SIZE;
    if n % WORKGROUP_SIZE == 0 {
        proof {
            assert(n as int == base as int * (WORKGROUP_SIZE as int) && (base as int > 0
                ==> (base as int - 1) * (WORKGROUP_SIZE as int) < n as int)) by (nonlinear_arith)
                requires
                    base as int == n as int / 64,
                    n as int % 64 == 0,
                    WORKGROUP_SIZE as int == 64,
                    0 <= n as int,
            ;
        }
        base
    } else {
        proof {
            assert((n as int) < (base as int + 1) * (WORKGROUP_SIZE as int) && base as int * (
            WORKGROUP_SIZE as int) < n as int && (base as int) <= n as int) by (nonlinear_arith)
                requires
                    base as int == n as int / 64,
                    n as int % 64 != 0,
                    WORKGROUP_SIZE as int == 64,
                    0 <= n as int,
            ;
        }
        base + 1
    }
}

/// Runs the dispatch on the host model exactly as the device partitions
/// it: workgroup by workgroup, invocation by invocation, each invocation
/// scaling the element at its global index, indices past the input length
/// left untouched.
pub fn run_dispatch(input: &Vec<u32>, workgroups: usize) -> (out: Vec<u32>)
    requires
        dispatch_covers(input@.len() as int, workgroups as int),
    ensures
        out@ == dispatch_output(input@),
{
    let n = input.len();
    let mut out: Vec<u32> = Vec::new();
    let mut k: usize = 0;
    while k < n
        invariant
            k <= n,
            out@.len() == k,
            forall|i: int| 0 <= i < k ==> out@[i] == 0u32,
        decreases n - k,
    {
        out.push(0);
        k = k + 1;
    }
    let mut wg: usize = 0;
    while wg < workgroups
        invariant
            wg <= workgroups,
            n == input@.len(),
            out@.len() == n,
            dispatch_covers(n as int, workgroups as int),
            forall|j: int|
                0 <= j < n && j < wg as int * (WORKGROUP_SIZE as int) ==> out@[j] == scaled(
                    input@[j],
                ),
        decreases workgroups - wg,
    {
        proof {
            assert(wg as int * (WORKGROUP_SIZE as int) < n as int) by (nonlinear_arith)
                requires
                    0 <= wg as int && (wg as int) < workgroups as int,
                    (workgroups as int - 1) * (WORKGROUP_SIZE as int) < n as int,
                    WORKGROUP_SIZE as int == 64,
            ;
        }
        let base = wg * WORKGROUP_SIZE;
        let mut inv: usize = 0;
        while inv < WORKGROUP_SIZE
            invariant
                inv <= WORKGROUP_SIZE,
                n == input@.len(),
                out@.len() == n,
                base as int == wg as int * (WORKGROUP_SIZE as int),
                base < n,
                forall|j: int|
                    0 <= j < n && j < base as int + inv as int ==> out@[j] == scaled(input@[j]),
            decreases WORKGROUP_SIZE - inv,
        {
            if inv < n - base {
                let id = base + inv;
                let v = scale(input[id]);
                out.set(id, v);
            }
            inv = inv + 1;
        }
        wg = wg + 1;
    }
    proof {
        assert forall|j: int| 0 <= j < n implies out@[j] == scaled(input@[j]) by {
            assert((n as int) <= workgroups as int * (WORKGROUP_SIZE as int));
        }
        assert(out@ =~= dispatch_output(input@));
    }
    out
}

} // verus!
