use vstd::arithmetic::div_mod::lemma_div_pos_is_pos;
use vstd::arithmetic::div_mod::lemma_fundamental_div_mod;
use vstd::arithmetic::div_mod::lemma_fundamental_div_mod_converse;
use vstd::arithmetic::div_mod::lemma_mod_division_less_than_divisor;
use vstd::prelude::*;

verus! {

/// Mathematical ceiling of `a / b` for non-negative `a` and positive `b`.
pub open spec fn ceil_div(a: int, b: int) -> int
    recommends
        a >= 0,
        b > 0,
{
    (a + b - 1) / b
}

/// Splits a total count `i` into `j` near-equal groups, as the block and
/// sub-block partitioning rule requires.
///
/// Returns `(il, is, jl, js)`: `jl` "long" groups of size `il` and `js`
/// "short" groups of size `is`, where `il` is the ceiling and `is` the
/// floor of `i / j`.  The groups always cover the total exactly:
/// `jl * il + js * is == i`.
pub fn partition(i: u32, j: u32) -> (r: (u32, u32, u32, u32))
    requires
        j >= 1,
    ensures
        r.0 == ceil_div(i as int, j as int),
        r.1 == i as int / j as int,
        r.2 == i - r.1 * j,
        r.3 == j - r.2,
        r.2 * r.0 + r.3 * r.1 == i,
        r.0 == r.1 || r.0 == r.1 + 1,
{
    let is: u32 = i / j;
    proof {
        lemma_partition_arith(i as int, j as int);
    }
    let il: u32 = if i % j == 0 {
        is
    } else {
        is + 1
    };
    let jl: u32 = i - is * j;
    let js: u32 = j - jl;
    (il, is, jl, js)
}

/// Division and remainder facts behind `partition`: the floor/ceiling
/// relationship, the bounds that rule out overflow, and the exact split
/// `jl * il + js * is == i`.
proof fn lemma_partition_arith(i: int, j: int)
    requires
        i >= 0,
        j >= 1,
    ensures
        i / j * j == i - i % j,
        0 <= i % j < j,
        0 <= i / j * j <= i,
        i % j == 0 ==> ceil_div(i, j) == i / j,
        i % j != 0 ==> ceil_div(i, j) == i / j + 1,
        i % j != 0 ==> i / j + 1 <= i,
        (i % j) * ceil_div(i, j) + (j - i % j) * (i / j) == i,
{
    lemma_fundamental_div_mod(i, j);
    lemma_mod_division_less_than_divisor(i, j);
    lemma_div_pos_is_pos(i, j);
    let q = i / j;
    let r = i % j;
    assert(q * j >= 0) by (nonlinear_arith)
        requires
            q >= 0,
            j >= 1,
    ;
    assert(q * j == j * q) by (nonlinear_arith);
    if r == 0 {
        lemma_fundamental_div_mod_converse(i + j - 1, j, q, j - 1);
        assert(r * ceil_div(i, j) + (j - r) * q == j * q) by (nonlinear_arith)
            requires
                r == 0,
                ceil_div(i, j) == q,
        ;
    } else {
        assert((q + 1) * j + (r - 1) == j * q + r + j - 1) by (nonlinear_arith);
        lemma_fundamental_div_mod_converse(i + j - 1, j, q + 1, r - 1);
        assert(q + 1 <= q * j + r) by (nonlinear_arith)
            requires
                q >= 0,
                j >= 2,
                1 <= r,
        ;
        assert(r * ceil_div(i, j) + (j - r) * q == j * q + r) by (nonlinear_arith)
            requires
                ceil_div(i, j) == q + 1,
        ;
    }
}

} // verus!
