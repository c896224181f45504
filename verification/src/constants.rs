use crate::errors::Error;
use vstd::prelude::*;

verus! {

/// Largest systematic index a table row may carry: the tuple seed
/// `10267 * (J + 1)` must fit in 32-bit wraparound arithmetic.
pub const MAX_SYSTEMATIC_INDEX: u32 = 418286;

/// One row of the systematic parameter table: the extended source-block
/// symbol count `K'` together with the constants the specification
/// derives from it.
#[derive(Clone, Copy, Debug, PartialEq, Eq, Structural)]
pub struct SystematicRow {
    /// Extended source-block symbol count `K'`.
    pub kprime: u32,
    /// Systematic index `J(K')`.
    pub j: u32,
    /// Number of LT symbols `W(K')`.
    pub w: u32,
    /// Smallest prime at least the number of PI symbols.
    pub p1: u32,
}

/// The rows are strictly ascending in `K'`, so the table scans below
/// are well defined.
pub open spec fn rows_sorted(rows: Seq<SystematicRow>) -> bool {
    forall|a: int, b: int|
        0 <= a < b < rows.len() ==> #[trigger] rows[a].kprime < #[trigger] rows[b].kprime
}

/// Every row keeps its constants in the range the tuple generator
/// needs: a positive `K'`, a systematic index whose seeds fit 32-bit
/// arithmetic, and at least two LT symbols and a prime of at least two,
/// so the pseudo-random moduli derived from them stay positive.
pub open spec fn rows_bounded(rows: Seq<SystematicRow>) -> bool {
    forall|a: int|
        0 <= a < rows.len() ==> (#[trigger] rows[a]).kprime >= 1 && rows[a].j
            <= MAX_SYSTEMATIC_INDEX && rows[a].w >= 2 && rows[a].p1 >= 2
}

/// The first row whose `K'` is at least `k`, scanning the table upward.
pub open spec fn spec_find(rows: Seq<SystematicRow>, k: u32) -> Option<SystematicRow>
    decreases rows.len(),
{
    if rows.len() == 0 {
        None
    } else if rows[0].kprime >= k {
        Some(rows[0])
    } else {
        spec_find(rows.skip(1), k)
    }
}

/// The largest `K'` in the table not exceeding `bound`, scanning the
/// table downward; `None` when no row qualifies.
pub open spec fn spec_kl(rows: Seq<SystematicRow>, bound: int) -> Option<u32>
    decreases rows.len(),
{
    if rows.len() == 0 {
        None
    } else if rows.last().kprime <= bound {
        Some(rows.last().kprime)
    } else {
        spec_kl(rows.drop_last(), bound)
    }
}

/// The externally supplied constants the codec core is parameterized
/// over: the four 256-entry lookup tables of the deterministic
/// pseudo-random primitive, and the systematic parameter table.  The
/// caller provides the canonical data of the governing specification;
/// this type validates only its shape, and every computation built on
/// it is a pure function of that data.
#[derive(Clone, Debug)]
pub struct SystematicConstants {
    v0: Vec<u32>,
    v1: Vec<u32>,
    v2: Vec<u32>,
    v3: Vec<u32>,
    rows: Vec<SystematicRow>,
}

impl SystematicConstants {
    /// The first pseudo-random lookup table as a mathematical sequence.
    pub closed spec fn spec_v0(&self) -> Seq<u32> {
        self.v0@
    }

    /// The second pseudo-random lookup table.
    pub closed spec fn spec_v1(&self) -> Seq<u32> {
        self.v1@
    }

    /// The third pseudo-random lookup table.
    pub closed spec fn spec_v2(&self) -> Seq<u32> {
        self.v2@
    }

    /// The fourth pseudo-random lookup table.
    pub closed spec fn spec_v3(&self) -> Seq<u32> {
        self.v3@
    }

    /// The systematic parameter table as a mathematical sequence.
    pub closed spec fn spec_rows(&self) -> Seq<SystematicRow> {
        self.rows@
    }

    /// The shape every constructed table set satisfies.
    pub open spec fn wf(&self) -> bool {
        &&& self.spec_v0().len() == 256
        &&& self.spec_v1().len() == 256
        &&& self.spec_v2().len() == 256
        &&& self.spec_v3().len() == 256
        &&& self.spec_rows().len() >= 1
        &&& rows_sorted(self.spec_rows())
        &&& rows_bounded(self.spec_rows())
    }

    /// Validates and wraps caller-supplied table data; rejects any shape
    /// the specification does not allow, and never alters the data.
    pub fn new(v0: Vec<u32>, v1: Vec<u32>, v2: Vec<u32>, v3: Vec<u32>, rows: Vec<SystematicRow>)
        -> (r: Result<SystematicConstants, Error>)
        ensures
            r is Ok <==> v0@.len() == 256 && v1@.len() == 256 && v2@.len() == 256 && v3@.len()
                == 256 && rows@.len() >= 1 && rows_sorted(rows@) && rows_bounded(rows@),
            r matches Ok(c) ==> c.spec_v0() == v0@ && c.spec_v1() == v1@ && c.spec_v2() == v2@
                && c.spec_v3() == v3@ && c.spec_rows() == rows@ && c.wf(),
            r matches Err(e) ==> e == Error::MalformedConstants,
    {
        if v0.len() != 256 || v1.len() != 256 || v2.len() != 256 || v3.len() != 256 {
            return Err(Error::MalformedConstants);
        }
        if rows.len() == 0 {
            return Err(Error::MalformedConstants);
        }
        let mut k: usize = 0;
        while k < rows.len()
            invariant
                0 <= k <= rows@.len(),
                forall|a: int, b: int|
                    0 <= a < b < k ==> #[trigger] rows@[a].kprime < #[trigger] rows@[b].kprime,
                forall|a: int|
                    0 <= a < k ==> (#[trigger] rows@[a]).kprime >= 1 && rows@[a].j
                        <= MAX_SYSTEMATIC_INDEX && rows@[a].w >= 2 && rows@[a].p1 >= 2,
            decreases rows@.len() - k,
        {
            let row = rows[k];
            if row.kprime < 1 || row.j > MAX_SYSTEMATIC_INDEX || row.w < 2 || row.p1 < 2 {
                return Err(Error::MalformedConstants);
            }
            if k > 0 && rows[k - 1].kprime >= row.kprime {
                return Err(Error::MalformedConstants);
            }
            k = k + 1;
        }
        Ok(SystematicConstants { v0, v1, v2, v3, rows })
    }

    /// The deterministic pseudo-random primitive `Rand(y, i, m)`: four
    /// table lookups selected by the bytes of `y` offset by `i`,
    /// exclusive-ORed and reduced modulo `m`.  A pure function of the
    /// table data and the three arguments, so equal inputs always yield
    /// equal outputs.
    pub open spec fn spec_rand(&self, y: u32, i: u32, m: u32) -> u32
        recommends
            self.wf(),
            m >= 1,
    {
        (((self.spec_v0()[(y + i) % 256] ^ self.spec_v1()[(y / 256 + i) % 256] ^ self.spec_v2()[(
        y / 65536 + i) % 256] ^ self.spec_v3()[(y / 16777216 + i) % 256]) as int) % (
        m as int)) as u32
    }

    /// Evaluates `Rand(y, i, m)`; the result is below the modulus.
    pub fn rand(&self, y: u32, i: u32, m: u32) -> (r: u32)
        requires
            self.wf(),
            m >= 1,
        ensures
            r == self.spec_rand(y, i, m),
            r < m,
    {
        let i0: usize = ((y as u64 + i as u64) % 256) as usize;
        let i1: usize = ((y as u64 / 256 + i as u64) % 256) as usize;
        let i2: usize = ((y as u64 / 65536 + i as u64) % 256) as usize;
        let i3: usize = ((y as u64 / 16777216 + i as u64) % 256) as usize;
        let x = self.v0[i0] ^ self.v1[i1] ^ self.v2[i2] ^ self.v3[i3];
        x % m
    }

    /// Looks up the table row serving a source block of
    /// `source_block_symbols` symbols: the first row whose `K'` is at
    /// least that count.  `None` when the count exceeds the largest
    /// `K'` of the table.
    pub fn lookup(&self, source_block_symbols: u32) -> (r: Option<SystematicRow>)
        requires
            self.wf(),
        ensures
            r == spec_find(self.spec_rows(), source_block_symbols),
            r matches Some(row) ==> row.kprime >= source_block_symbols && row.kprime >= 1 && row.j
                <= MAX_SYSTEMATIC_INDEX && row.w >= 2 && row.p1 >= 2,
    {
        proof {
            lemma_find_props(self.spec_rows(), source_block_symbols);
            assert(self.spec_rows().skip(0) =~= self.spec_rows());
        }
        let mut k: usize = 0;
        while k < self.rows.len()
            invariant
                self.wf(),
                0 <= k <= self.spec_rows().len(),
                spec_find(self.spec_rows(), source_block_symbols) == spec_find(
                    self.spec_rows().skip(k as int),
                    source_block_symbols,
                ),
                forall|a: int| 0 <= a < k ==> (#[trigger] self.spec_rows()[a]).kprime
                    < source_block_symbols,
            decreases self.spec_rows().len() - k,
        {
            let row = self.rows[k];
            proof {
                assert(self.spec_rows().skip(k as int)[0] == self.spec_rows()[k as int]);
                assert(self.spec_rows().skip(k as int).skip(1) =~= self.spec_rows().skip(
                    k as int + 1,
                ));
            }
            if row.kprime >= source_block_symbols {
                proof {
                    assert(spec_find(self.spec_rows(), source_block_symbols) == Some(
                        self.spec_rows()[k as int],
                    ));
                    assert((#[trigger] self.spec_rows()[k as int]).kprime >= 1);
                }
                return Some(row);
            }
            proof {
                assert((#[trigger] self.spec_rows()[k as int]).kprime < source_block_symbols);
            }
            k = k + 1;
        }
        proof {
            assert(self.spec_rows().skip(k as int) =~= Seq::<SystematicRow>::empty());
        }
        None
    }

    /// The largest `K'` of the table not exceeding `bound`: the most
    /// source symbols a block may carry under the per-block memory
    /// ceiling the bound encodes.
    pub fn kl(&self, bound: u64) -> (r: Option<u32>)
        requires
            self.wf(),
        ensures
            r == spec_kl(self.spec_rows(), bound as int),
            r matches Some(kp) ==> 1 <= kp <= bound,
    {
        proof {
            lemma_kl_props(self.spec_rows(), bound as int);
            assert(self.spec_rows().take(self.spec_rows().len() as int) =~= self.spec_rows());
        }
        let mut k: usize = self.rows.len();
        while k > 0
            invariant
                self.wf(),
                0 <= k <= self.spec_rows().len(),
                spec_kl(self.spec_rows(), bound as int) == spec_kl(
                    self.spec_rows().take(k as int),
                    bound as int,
                ),
            decreases k,
        {
            let row = self.rows[k - 1];
            proof {
                assert(self.spec_rows().take(k as int).last() == self.spec_rows()[k as int - 1]);
                assert(self.spec_rows().take(k as int).drop_last() =~= self.spec_rows().take(
                    k as int - 1,
                ));
            }
            if row.kprime as u64 <= bound {
                proof {
                    assert(spec_kl(self.spec_rows(), bound as int) == Some(
                        self.spec_rows()[k as int - 1].kprime,
                    ));
                    assert((#[trigger] self.spec_rows()[k as int - 1]).kprime >= 1);
                }
                return Some(row.kprime);
            }
            k = k - 1;
        }
        proof {
            assert(self.spec_rows().take(0) =~= Seq::<SystematicRow>::empty());
        }
        None
    }
}

/// What the upward table scan returns: a row of the table, serving the
/// requested count, with the bounds the table's shape guarantees.
proof fn lemma_find_props(rows: Seq<SystematicRow>, k: u32)
    requires
        rows_bounded(rows),
    ensures
        spec_find(rows, k) matches Some(row) ==> row.kprime >= k && row.kprime >= 1 && row.j
            <= MAX_SYSTEMATIC_INDEX && row.w >= 2 && row.p1 >= 2,
    decreases rows.len(),
{
    if rows.len() > 0 {
        assert(rows[0] == rows.skip(0)[0]);
        if rows[0].kprime < k {
            assert(forall|a: int|
                0 <= a < rows.skip(1).len() ==> rows.skip(1)[a] == #[trigger] rows[a + 1]);
            lemma_find_props(rows.skip(1), k);
        }
    }
}

/// What the downward table scan returns: a `K'` of the table, positive
/// and within the bound.
proof fn lemma_kl_props(rows: Seq<SystematicRow>, bound: int)
    requires
        rows_bounded(rows),
    ensures
        spec_kl(rows, bound) matches Some(kp) ==> 1 <= kp <= bound,
    decreases rows.len(),
{
    if rows.len() > 0 {
        if !(rows.last().kprime <= bound) {
            assert(forall|a: int|
                0 <= a < rows.drop_last().len() ==> rows.drop_last()[a] == #[trigger] rows[a]);
            lemma_kl_props(rows.drop_last(), bound);
        }
    }
}

} // verus!
