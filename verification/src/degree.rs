use vstd::prelude::*;

verus! {

/// Size of the value domain of the degree distribution: `deg` maps a
/// uniform value below this bound to an LT output degree.
pub const DEG_DOMAIN: u32 = 1048576;

/// The cumulative degree table of the specification, as a step
/// function: the result is the first 1-based slot of the table whose
/// entry exceeds `v`.  The thirty thresholds are fixed constants of the
/// wire specification and must not be altered.
pub open spec fn spec_deg_raw(v: int) -> int
    recommends
        0 <= v < DEG_DOMAIN,
{
    if v < 5243 {
        1
    } else if v < 529531 {
        2
    } else if v < 704294 {
        3
    } else if v < 791675 {
        4
    } else if v < 844104 {
        5
    } else if v < 879057 {
        6
    } else if v < 904023 {
        7
    } else if v < 922747 {
        8
    } else if v < 937311 {
        9
    } else if v < 948962 {
        10
    } else if v < 958494 {
        11
    } else if v < 966438 {
        12
    } else if v < 973160 {
        13
    } else if v < 978921 {
        14
    } else if v < 983914 {
        15
    } else if v < 988283 {
        16
    } else if v < 992138 {
        17
    } else if v < 995565 {
        18
    } else if v < 998631 {
        19
    } else if v < 1001391 {
        20
    } else if v < 1003887 {
        21
    } else if v < 1006157 {
        22
    } else if v < 1008229 {
        23
    } else if v < 1010129 {
        24
    } else if v < 1011876 {
        25
    } else if v < 1013490 {
        26
    } else if v < 1014983 {
        27
    } else if v < 1016370 {
        28
    } else if v < 1017662 {
        29
    } else {
        30
    }
}

/// The LT output degree for value `v` and `w` LT symbols: the table
/// degree, capped at `w - 2`.
pub open spec fn spec_deg(v: int, w: int) -> int
    recommends
        0 <= v < DEG_DOMAIN,
        w >= 2,
{
    if spec_deg_raw(v) <= w - 2 {
        spec_deg_raw(v)
    } else {
        w - 2
    }
}

/// Maps a uniformly distributed value `v` to an LT output degree via
/// the fixed cumulative table, capped at `lt_symbols - 2`.
pub fn deg(v: u32, lt_symbols: u32) -> (r: u32)
    requires
        v < DEG_DOMAIN,
        lt_symbols >= 2,
    ensures
        r == spec_deg(v as int, lt_symbols as int),
        r <= lt_symbols - 2,
        r <= 30,
{
    let d: u32 = if v < 5243 {
        1
    } else if v < 529531 {
        2
    } else if v < 704294 {
        3
    } else if v < 791675 {
        4
    } else if v < 844104 {
        5
    } else if v < 879057 {
        6
    } else if v < 904023 {
        7
    } else if v < 922747 {
        8
    } else if v < 937311 {
        9
    } else if v < 948962 {
        10
    } else if v < 958494 {
        11
    } else if v < 966438 {
        12
    } else if v < 973160 {
        13
    } else if v < 978921 {
        14
    } else if v < 983914 {
        15
    } else if v < 988283 {
        16
    } else if v < 992138 {
        17
    } else if v < 995565 {
        18
    } else if v < 998631 {
        19
    } else if v < 1001391 {
        20
    } else if v < 1003887 {
        21
    } else if v < 1006157 {
        22
    } else if v < 1008229 {
        23
    } else if v < 1010129 {
        24
    } else if v < 1011876 {
        25
    } else if v < 1013490 {
        26
    } else if v < 1014983 {
        27
    } else if v < 1016370 {
        28
    } else if v < 1017662 {
        29
    } else {
        30
    };
    if d <= lt_symbols - 2 {
        d
    } else {
        lt_symbols - 2
    }
}

/// The degree distribution is non-decreasing in its value argument for
/// a fixed symbol count, and never exceeds `w - 2`.
pub proof fn lemma_deg_monotone(v1: int, v2: int, w: int)
    requires
        0 <= v1 <= v2 < DEG_DOMAIN,
        w >= 2,
    ensures
        spec_deg(v1, w) <= spec_deg(v2, w),
        spec_deg(v2, w) <= w - 2,
{
}

} // verus!
