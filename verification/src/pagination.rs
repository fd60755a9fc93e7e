use vstd::prelude::*;

use crate::anomaly::Anomaly;
use crate::event::PhysicalEvent;

verus! {

/// Page size used when the request names none.
pub const DEFAULT_LIMIT: i64 = 50;

/// Largest page size a request may obtain.
pub const MAX_LIMIT: i64 = 100;

/// Query parameters of `GET /events`.
#[derive(Debug)]
pub struct EventFilters {
    pub entity_id: Option<String>,
    pub zone: Option<String>,
    pub limit: Option<i64>,
    pub offset: Option<i64>,
}

/// Query parameters of `GET /anomalies`.
#[derive(Debug)]
pub struct AnomalyFilters {
    pub severity: Option<String>,
    pub status: Option<String>,
    pub limit: Option<i64>,
    pub offset: Option<i64>,
}

/// The slice of a listing that one page shows: at most `limit` items,
/// skipping the first `offset`.
#[derive(Clone, Copy, Debug, PartialEq, Eq, Structural)]
pub struct ListWindow {
    pub limit: i64,
    pub offset: i64,
}

/// The page size granted for a requested one: 50 when none is named,
/// otherwise the request clamped to `1..=100`.
pub open spec fn granted_limit(requested: Option<i64>) -> int {
    match requested {
        None => 50,
        Some(l) => if l < 1 { 1 } else if l > 100 { 100 } else { l as int },
    }
}

/// The offset granted for a requested one: 0 when none is named or it is
/// negative, otherwise the request.
pub open spec fn granted_offset(requested: Option<i64>) -> int {
    match requested {
        None => 0,
        Some(o) => if o < 0 { 0 } else { o as int },
    }
}

/// Whether items remain after a page that skipped `offset` items and
/// returned `returned` of `total`.
pub open spec fn more_remain(offset: int, returned: int, total: int) -> bool {
    offset + returned < total
}

/// The window granted for the requested page size and offset.
pub fn list_window(limit: Option<i64>, offset: Option<i64>) -> (w: ListWindow)
    ensures
        w.limit == granted_limit(limit),
        w.offset == granted_offset(offset),
        1 <= w.limit <= MAX_LIMIT,
        0 <= w.offset,
{
    let limit = match limit {
        None => DEFAULT_LIMIT,
        Some(l) => if l < 1 { 1 } else if l > MAX_LIMIT { MAX_LIMIT } else { l },
    };
    let offset = match offset {
        None => 0,
        Some(o) => if o < 0 { 0 } else { o },
    };
    ListWindow { limit, offset }
}

/// Whether a page leaves items after it: `offset + returned < total`,
/// computed without overflow.
pub fn has_more(offset: i64, returned: usize, total: i64) -> (r: bool)
    ensures
        r == more_remain(offset as int, returned as int, total as int),
{
    (offset as i128) + (returned as i128) < (total as i128)
}

impl EventFilters {
    /// The window these filters grant.
    pub fn window(&self) -> (w: ListWindow)
        ensures
            w.limit == granted_limit(self.limit),
            w.offset == granted_offset(self.offset),
    {
        list_window(self.limit, self.offset)
    }
}

impl AnomalyFilters {
    /// The window these filters grant.
    pub fn window(&self) -> (w: ListWindow)
        ensures
            w.limit == granted_limit(self.limit),
            w.offset == granted_offset(self.offset),
    {
        list_window(self.limit, self.offset)
    }
}

/// One page of events, with the total number of matching events.
#[derive(Debug)]
pub struct PaginatedEventsResponse {
    pub items: Vec<PhysicalEvent>,
    pub total: i64,
    pub limit: i64,
    pub offset: i64,
    pub has_more: bool,
}

/// One page of anomalies, with the total number of matching anomalies.
#[derive(Debug)]
pub struct PaginatedAnomaliesResponse {
    pub items: Vec<Anomaly>,
    pub total: i64,
    pub limit: i64,
    pub offset: i64,
    pub has_more: bool,
}

impl PaginatedEventsResponse {
    /// The page of `items` shown through `window` out of `total` matches.
    pub fn new(items: Vec<PhysicalEvent>, total: i64, window: ListWindow) -> (p: PaginatedEventsResponse)
        ensures
            p.items == items,
            p.total == total,
            p.limit == window.limit,
            p.offset == window.offset,
            p.has_more == more_remain(window.offset as int, items.len() as int, total as int),
    {
        let more = has_more(window.offset, items.len(), total);
        PaginatedEventsResponse { items, total, limit: window.limit, offset: window.offset, has_more: more }
    }
}

impl PaginatedAnomaliesResponse {
    /// The page of `items` shown through `window` out of `total` matches.
    pub fn new(items: Vec<Anomaly>, total: i64, window: ListWindow) -> (p: PaginatedAnomaliesResponse)
        ensures
            p.items == items,
            p.total == total,
            p.limit == window.limit,
            p.offset == window.offset,
            p.has_more == more_remain(window.offset as int, items.len() as int, total as int),
    {
        let more = has_more(window.offset, items.len(), total);
        PaginatedAnomaliesResponse { items, total, limit: window.limit, offset: window.offset, has_more: more }
    }
}


/// A requested page size is honoured whenever it lies in `1..=100`, raised
/// to 1 below that range and lowered to 100 above it; 50 is used only when
/// no size is requested. A requested offset is honoured unless it is
/// negative, and 0 is used when none is requested.
pub proof fn lemma_window_honours_requests(limit: i64, offset: i64)
    ensures
        1 <= limit <= 100 ==> granted_limit(Some(limit)) == limit,
        limit < 1 ==> granted_limit(Some(limit)) == 1,
        limit > 100 ==> granted_limit(Some(limit)) == 100,
        granted_limit(None) == 50,
        offset >= 0 ==> granted_offset(Some(offset)) == offset,
        offset < 0 ==> granted_offset(Some(offset)) == 0,
        granted_offset(None) == 0,
{
}

/// A page has more after it exactly when fewer items have been skipped and
/// shown than there are in total; with nothing shown and nothing skipped,
/// more remain exactly when the total is positive.
pub proof fn lemma_more_remain_counts_items(offset: int, returned: int, total: int)
    ensures
        more_remain(offset, returned, total) <==> total - offset - returned > 0,
        more_remain(0, 0, total) <==> total > 0,
{
}

} // verus!
