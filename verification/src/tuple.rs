use crate::constants::SystematicConstants;
use crate::constants::SystematicRow;
use crate::constants::spec_find;
use crate::degree::DEG_DOMAIN;
use crate::degree::deg;
use crate::degree::spec_deg;
use vstd::prelude::*;

verus! {

/// The per-block multiplier `A` of the tuple seed: `53591 + 997 J`,
/// forced odd as the linear-congruential step downstream requires.
pub open spec fn spec_tuple_a(j: u32) -> u32
    recommends
        j <= crate::constants::MAX_SYSTEMATIC_INDEX,
{
    let a = 53591 + 997 * j;
    if a % 2 == 0 {
        (a + 1) as u32
    } else {
        a as u32
    }
}

/// The per-block offset `B` of the tuple seed: `10267 (J + 1)`.
pub open spec fn spec_tuple_b(j: u32) -> u32
    recommends
        j <= crate::constants::MAX_SYSTEMATIC_INDEX,
{
    (10267 * (j + 1)) as u32
}

/// The per-symbol seed: `(B + X A) mod 2^32`.  The wraparound is the
/// intended modular reduction, not an error.
pub open spec fn spec_tuple_y(j: u32, x: u32) -> u32
    recommends
        j <= crate::constants::MAX_SYSTEMATIC_INDEX,
{
    ((spec_tuple_b(j) + x * spec_tuple_a(j)) % 0x100000000) as u32
}

/// The six tuple parameters `(d, a, b, d1, a1, b1)` for the symbol with
/// internal id `x` of a block served by table row `row`, over the
/// pseudo-random tables of `c`.  A pure function of its arguments: the
/// tuple an encoder derives is the tuple every decoder re-derives.
pub open spec fn spec_tuple(c: &SystematicConstants, row: SystematicRow, x: u32) -> (
    u32,
    u32,
    u32,
    u32,
    u32,
    u32,
)
    recommends
        c.wf(),
        row.j <= crate::constants::MAX_SYSTEMATIC_INDEX,
        row.w >= 2,
        row.p1 >= 2,
{
    let y = spec_tuple_y(row.j, x);
    let v = c.spec_rand(y, 0, DEG_DOMAIN);
    let d = spec_deg(v as int, row.w as int);
    let a = (1 + c.spec_rand(y, 1, (row.w - 1) as u32)) as u32;
    let b = c.spec_rand(y, 2, row.w);
    let d1 = if d < 4 {
        (2 + c.spec_rand(x, 3, 2)) as u32
    } else {
        2u32
    };
    let a1 = (1 + c.spec_rand(x, 4, (row.p1 - 1) as u32)) as u32;
    let b1 = c.spec_rand(x, 5, row.p1);
    (d as u32, a, b, d1, a1, b1)
}

/// Derives the six integers `(d, a, b, d1, a1, b1)` that select which
/// intermediate symbols are combined for the symbol with internal id
/// `internal_symbol_id` of a source block of `source_block_symbols`
/// symbols.  The block's constants come from the systematic table row
/// serving that count, which must exist; the result is pinned to
/// [`spec_tuple`], so equal arguments always yield equal tuples.
pub fn intermediate_tuple(
    constants: &SystematicConstants,
    source_block_symbols: u32,
    internal_symbol_id: u32,
) -> (r: (u32, u32, u32, u32, u32, u32))
    requires
        constants.wf(),
        spec_find(constants.spec_rows(), source_block_symbols) is Some,
    ensures
        r == spec_tuple(
            constants,
            spec_find(constants.spec_rows(), source_block_symbols)->Some_0,
            internal_symbol_id,
        ),
{
    let row = constants.lookup(source_block_symbols).unwrap();
    let x: u32 = internal_symbol_id;

    let mut a_seed: u32 = 53591 + 997 * row.j;
    if a_seed % 2 == 0 {
        a_seed = a_seed + 1;
    }
    let b_seed: u32 = 10267 * (row.j + 1);
    proof {
        assert(x as u64 * a_seed as u64 <= 0xffffffffu64 * 417084734u64) by (nonlinear_arith)
            requires
                x <= 0xffffffffu64,
                a_seed <= 417084734u64,
        ;
    }
    let y: u32 = ((b_seed as u64 + x as u64 * a_seed as u64) % 4294967296) as u32;

    let v: u32 = constants.rand(y, 0, DEG_DOMAIN);
    let d: u32 = deg(v, row.w);
    let a: u32 = 1 + constants.rand(y, 1, row.w - 1);
    let b: u32 = constants.rand(y, 2, row.w);

    let d1: u32 = if d < 4 {
        2 + constants.rand(x, 3, 2)
    } else {
        2
    };
    let a1: u32 = 1 + constants.rand(x, 4, row.p1 - 1);
    let b1: u32 = constants.rand(x, 5, row.p1);

    (d, a, b, d1, a1, b1)
}

/// Determinism of the tuple generator: two derivations from the same
/// constants, the same table row, and the same symbol id agree in all
/// six parameters.
pub proof fn lemma_tuple_deterministic(
    c: &SystematicConstants,
    row: SystematicRow,
    x: u32,
    r1: (u32, u32, u32, u32, u32, u32),
    r2: (u32, u32, u32, u32, u32, u32),
)
    requires
        r1 == spec_tuple(c, row, x),
        r2 == spec_tuple(c, row, x),
    ensures
        r1 == r2,
{
}

} // verus!
