use vstd::prelude::*;

verus! {

/// `v` held within `[lo, hi]` (`Ord::clamp`).
pub open spec fn clamp(v: int, lo: int, hi: int) -> int {
    if v < lo {
        lo
    } else if v > hi {
        hi
    } else {
        v
    }
}

/// The page size asked for, 50 by default, held within `[lo, hi]`.
pub open spec fn page_limit(limit: Option<i64>, lo: int, hi: int) -> int {
    clamp(
        match limit {
            Some(l) => l as int,
            None => 50,
        },
        lo,
        hi,
    )
}

/// The offset asked for, 0 by default and never negative.
pub open spec fn page_offset(offset: Option<i64>) -> int {
    match offset {
        Some(o) => if o < 0 {
            0
        } else {
            o as int
        },
        None => 0,
    }
}

/// The page size of a list: 50 unless asked, held within `[lo, hi]`.
pub fn limit_or_default(limit: Option<i64>, lo: i64, hi: i64) -> (r: i64)
    requires
        lo <= hi,
    ensures
        r == page_limit(limit, lo as int, hi as int),
{
    let v = match limit {
        Some(l) => l,
        None => 50,
    };
    if v < lo {
        lo
    } else if v > hi {
        hi
    } else {
        v
    }
}

/// The offset of a list: 0 unless asked, never negative.
pub fn offset_or_default(offset: Option<i64>) -> (r: i64)
    ensures
        r == page_offset(offset),
        r >= 0,
{
    match offset {
        Some(o) => if o < 0 {
            0
        } else {
            o
        },
        None => 0,
    }
}

/// Whether rows remain past the page that starts at `offset` and holds `fetched` of `total` rows.
pub fn more_after(offset: i64, fetched: usize, total: i64) -> (r: bool)
    ensures
        r == (offset + fetched < total),
{
    (offset as i128) + (fetched as i128) < (total as i128)
}

} // verus!
