//! Quality binning tables.
//!
//! Two immutable mappings from a raw quality value to a binned
//! representative value: a fine eight-level table and a coarse
//! nine-representative table. Both are total over the byte range;
//! every value at or above the last breakpoint maps to the last
//! representative, so queries above the nominal table domain are
//! clamped to its final entry.

use vstd::prelude::*;

verus! {

/// Nominal domain size of the binning tables: raw quality values lie in
/// `[0, TABLE_DOMAIN)`. Larger inputs are clamped onto the last band.
pub const TABLE_DOMAIN: u8 = 110;

/// Which binning table the run uses; chosen once before the stream starts.
#[derive(Clone, Copy, Debug, PartialEq, Eq, Structural)]
pub enum BinMode {
    /// Nine representative levels: 0, 2, 3, 4, 5, 6, 10, 20, 30.
    Coarse,
    /// Eight representative levels: 0, 6, 15, 22, 27, 33, 37, 40.
    Fine,
}

/// The fine (eight-level) table as a mathematical map on quality values.
pub open spec fn fine_bin(v: int) -> int {
    if v < 2 {
        0
    } else if v < 10 {
        6
    } else if v < 20 {
        15
    } else if v < 25 {
        22
    } else if v < 30 {
        27
    } else if v < 35 {
        33
    } else if v < 40 {
        37
    } else {
        40
    }
}

/// The coarse (nine-representative) table as a mathematical map on
/// quality values.
pub open spec fn coarse_bin(v: int) -> int {
    if v < 2 {
        0
    } else if v < 3 {
        2
    } else if v < 4 {
        3
    } else if v < 5 {
        4
    } else if v < 6 {
        5
    } else if v < 10 {
        6
    } else if v < 20 {
        10
    } else if v < 23 {
        20
    } else {
        30
    }
}

/// The table selected by `mode`, as one mathematical map.
pub open spec fn bin_spec(mode: BinMode, v: int) -> int {
    match mode {
        BinMode::Coarse => coarse_bin(v),
        BinMode::Fine => fine_bin(v),
    }
}

/// Bin one raw quality value with the selected table.
pub fn bin(mode: BinMode, v: u8) -> (r: u8)
    ensures
        r as int == bin_spec(mode, v as int),
{
    match mode {
        BinMode::Coarse => {
            if v < 2 {
                0
            } else if v < 3 {
                2
            } else if v < 4 {
                3
            } else if v < 5 {
                4
            } else if v < 6 {
                5
            } else if v < 10 {
                6
            } else if v < 20 {
                10
            } else if v < 23 {
                20
            } else {
                30
            }
        },
        BinMode::Fine => {
            if v < 2 {
                0
            } else if v < 10 {
                6
            } else if v < 20 {
                15
            } else if v < 25 {
                22
            } else if v < 30 {
                27
            } else if v < 35 {
                33
            } else if v < 40 {
                37
            } else {
                40
            }
        },
    }
}

/// Binning is idempotent: binning an already-binned value changes
/// nothing, for either table and every quality value.
pub proof fn lemma_bin_idempotent(mode: BinMode, v: int)
    requires
        0 <= v,
    ensures
        bin_spec(mode, bin_spec(mode, v)) == bin_spec(mode, v),
{
}

/// Binning is monotone: a larger raw quality value never maps to a
/// smaller representative, for either table.
pub proof fn lemma_bin_monotone(mode: BinMode, v1: int, v2: int)
    requires
        0 <= v1 <= v2,
    ensures
        bin_spec(mode, v1) <= bin_spec(mode, v2),
{
}

} // verus!
