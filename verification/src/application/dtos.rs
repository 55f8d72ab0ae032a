//! Request and response shapes of the application layer, and the
//! arithmetic of pagination.

use vstd::prelude::*;

verus! {

/// A request to send a message to a conversation.
#[derive(Debug, Clone)]
pub struct SendMessageRequestDto {
    pub conversation_id: String,
    pub content: String,
}

/// A request to synchronize a twin.
#[derive(Debug, Clone)]
pub struct SyncTwinRequestDto {
    pub twin_id: String,
    pub force_sync: bool,
}

/// A page request: pages are numbered from 1.
#[derive(Debug, Clone)]
pub struct PaginationRequestDto {
    pub page: u32,
    pub page_size: u32,
    pub sort_by: Option<String>,
    /// "asc" or "desc".
    pub sort_order: Option<String>,
}

/// One page of results.
#[derive(Debug)]
pub struct PaginatedResponseDto<T> {
    pub items: Vec<T>,
    pub total: usize,
    pub page: u32,
    pub page_size: u32,
    pub total_pages: u32,
}

/// The offset of the first item of page `page` when pages hold `page_size`
/// items.
pub open spec fn page_offset(page: u32, page_size: u32) -> int {
    (page - 1) * page_size
}

/// Whether a page request can be turned into an offset: the page number is
/// at least 1 and the offset fits in `u32`.
pub open spec fn page_in_range(page: u32, page_size: u32) -> bool {
    page >= 1 && page_offset(page, page_size) <= u32::MAX
}

/// The offset and limit of the requested page.
pub fn pagination_to_offset_limit(pagination: &PaginationRequestDto) -> (r: (usize, usize))
    requires
        page_in_range(pagination.page, pagination.page_size),
    ensures
        r.0 == page_offset(pagination.page, pagination.page_size),
        r.1 == pagination.page_size,
{
    let p = pagination.page - 1;
    assert(p * pagination.page_size <= u32::MAX);
    let offset: u32 = p * pagination.page_size;
    (offset as usize, pagination.page_size as usize)
}

/// The number of pages that `total` items fill when pages hold `page_size`
/// items, saturated at `u32::MAX`; with a page size of zero, no page when
/// there is nothing and `u32::MAX` pages otherwise.
pub open spec fn page_count(total: nat, page_size: nat) -> nat {
    if page_size == 0 {
        if total == 0 { 0 } else { u32::MAX as nat }
    } else {
        let pages = (total + page_size - 1) / (page_size as int);
        if pages > u32::MAX { u32::MAX as nat } else { pages as nat }
    }
}

/// The page count is the fewest pages that hold every item: when it does
/// not saturate, that many pages hold all `total` items and one page fewer
/// does not; consecutive pages start `page_size` items apart.
pub proof fn lemma_page_count_covers(total: nat, page_size: nat, page: u32)
    requires
        page_size > 0,
        page_size <= u32::MAX,
    ensures
        page_count(total, page_size) < u32::MAX ==> page_count(total, page_size) * page_size >= total && (
        page_count(total, page_size) == 0 || (page_count(total, page_size) - 1) * page_size < total),
        total == 0 ==> page_count(total, page_size) == 0,
        page >= 1 ==> page_offset(page, page_size as u32) == (page - 1) * page_size,
        page >= 1 && page < u32::MAX ==> page_offset((page + 1) as u32, page_size as u32) == page_offset(
            page,
            page_size as u32,
        ) + page_size,
{
    let n = (total + page_size - 1) / (page_size as int);
    assert(n * page_size <= total + page_size - 1 && total + page_size - 1 < (n + 1) * page_size) by (nonlinear_arith)
        requires
            page_size > 0,
            n == (total + page_size - 1) / (page_size as int),
    ;
    assert(n * page_size >= total && (n == 0 || (n - 1) * page_size < total)) by (nonlinear_arith)
        requires
            page_size > 0,
            n * page_size <= total + page_size - 1,
            total + page_size - 1 < (n + 1) * page_size,
    ;
    if total == 0 {
        assert(n == 0) by (nonlinear_arith)
            requires
                page_size > 0,
                n * page_size <= page_size - 1,
                n >= 0,
        ;
    }
    assert((page + 1 - 1) * page_size == (page - 1) * page_size + page_size) by (nonlinear_arith);
}

/// A page of `items` out of `total`, with the number of pages.
pub fn create_paginated_response<T>(items: Vec<T>, total: usize, page: u32, page_size: u32) -> (r: PaginatedResponseDto<T>)
    ensures
        r.items == items,
        r.total == total,
        r.page == page,
        r.page_size == page_size,
        r.total_pages == page_count(total as nat, page_size as nat),
{
    let total_pages: u32 = if page_size == 0 {
        if total == 0 { 0 } else { u32::MAX }
    } else {
        let t = total as u128;
        let s = page_size as u128;
        let pages: u128 = (t + s - 1) / s;
        if pages > u32::MAX as u128 { u32::MAX } else { pages as u32 }
    };
    PaginatedResponseDto { items, total, page, page_size, total_pages }
}

} // verus!
