//! Page-window arithmetic for the listing endpoints.

use vstd::prelude::*;

verus! {

/// Paging parameters of the binlog listing.
pub struct PageParams {
    pub limit: Option<i64>,
    pub offset: Option<i64>,
}

/// Paging and filter parameters of the configuration listing.
pub struct ListQuery {
    pub config_type: Option<String>,
    pub status: Option<String>,
    pub page: Option<i32>,
    pub limit: Option<i32>,
}

/// The binlog listing's window: limit defaults to 50, offset to 0.
pub fn binlog_window(p: &PageParams) -> (r: (i64, i64))
    ensures
        r.0 == p.limit.unwrap_or(50),
        r.1 == p.offset.unwrap_or(0),
{
    (p.limit.unwrap_or(50), p.offset.unwrap_or(0))
}

/// The configuration listing's window: page defaults to 1 and never goes
/// below 1; limit defaults to 20 and never exceeds 100.
pub fn config_page(q: &ListQuery) -> (r: (i32, i32))
    ensures
        r.0 == ({
            let p = q.page.unwrap_or(1);
            if p < 1 {
                1int
            } else {
                p as int
            }
        }),
        r.1 == ({
            let l = q.limit.unwrap_or(20);
            if l > 100 {
                100int
            } else {
                l as int
            }
        }),
{
    let p = q.page.unwrap_or(1);
    let l = q.limit.unwrap_or(20);
    let page: i32 = if p < 1 {
        1
    } else {
        p
    };
    let limit: i32 = if l > 100 {
        100
    } else {
        l
    };
    (page, limit)
}

/// The message-history window: page defaults to 1 and never goes below 1,
/// limit defaults to 50 and never exceeds 100, and the offset skips the
/// earlier pages.
pub fn message_window(page: Option<i32>, limit: Option<i32>) -> (r: (i32, i32, i64))
    ensures
        r.0 == ({
            let p = page.unwrap_or(1);
            if p < 1 {
                1int
            } else {
                p as int
            }
        }),
        r.1 == ({
            let l = limit.unwrap_or(50);
            if l > 100 {
                100int
            } else {
                l as int
            }
        }),
        r.2 == (r.0 - 1) * r.1,
{
    let p = page.unwrap_or(1);
    let l = limit.unwrap_or(50);
    let pv: i32 = if p < 1 {
        1
    } else {
        p
    };
    let lv: i32 = if l > 100 {
        100
    } else {
        l
    };
    proof {
        assert((pv - 1) * lv <= 0x7fff_ffff_ffff_ffff && (pv - 1) * lv
            >= -0x8000_0000_0000_0000) by (nonlinear_arith)
            requires
                1 <= pv <= 0x7fff_ffff,
                -0x8000_0000 <= lv <= 100,
        ;
    }
    let offset: i64 = (pv as i64 - 1) * (lv as i64);
    (pv, lv, offset)
}

} // verus!
