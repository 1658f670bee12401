//! Pages of a collection.

use vstd::prelude::*;

verus! {

/// What the store is asked for when a page is listed: at most `limit`
/// documents, after the first `skip`.
#[derive(Clone, Copy, Debug, PartialEq, Eq)]
pub struct PageQuery {
    pub limit: i64,
    pub skip: u64,
}

/// How many documents stand before page `page`, pages being counted from one
/// and holding `limit` documents each.
pub open spec fn page_offset(limit: int, page: int) -> int {
    (page - 1) * limit
}

/// The documents of `all` that a query asks for: those from position `skip` on,
/// `limit` of them at most.
pub open spec fn page_of<T>(all: Seq<T>, skip: int, limit: int) -> Seq<T>
    recommends
        0 <= skip,
        0 <= limit,
{
    let from = if skip <= all.len() { skip } else { all.len() as int };
    let to = if from + limit <= all.len() { from + limit } else { all.len() as int };
    all.subrange(from, to)
}

/// Whether the offset of page `page` can be asked of the store: it is not
/// negative and fits in 64 bits with a sign, as does `page - 1`. That is so for
/// every `limit > 0` and `page >= 1` whose offset fits.
pub open spec fn offset_fits(limit: int, page: int) -> bool {
    i64::MIN < page && 0 <= page_offset(limit, page) <= i64::MAX
}

/// A positive page size and a page counted from one have an offset that can be
/// asked of the store, as long as it fits.
pub proof fn lemma_positive_offset_fits(limit: int, page: int)
    requires
        limit > 0,
        page >= 1,
        page_offset(limit, page) <= i64::MAX,
    ensures
        offset_fits(limit, page),
{
    assert(0 <= (page - 1) * limit) by (nonlinear_arith)
        requires
            page >= 1,
            limit > 0,
    ;
}

/// The query for page `page` of pages of `limit` documents.
pub fn page_query(limit: i64, page: i64) -> (q: PageQuery)
    requires
        offset_fits(limit as int, page as int),
    ensures
        q.limit == limit,
        q.skip == page_offset(limit as int, page as int),
{
    let offset: i64 = (page - 1) * limit;
    PageQuery { limit, skip: offset as u64 }
}

/// Two pages of the same size do not overlap, and pages one to `page` cover the
/// first `page * limit` documents: page `page` begins where page `page - 1`
/// ends.
pub proof fn lemma_pages_adjoin<T>(all: Seq<T>, limit: int, page: int)
    requires
        limit > 0,
        page >= 1,
    ensures
        page_offset(limit, page) >= 0,
        page_offset(limit, page + 1) == page_offset(limit, page) + limit,
        page_of(all, 0, page_offset(limit, page)) + page_of(all, page_offset(limit, page), limit)
            == page_of(all, 0, page_offset(limit, page + 1)),
{
    let skip = page_offset(limit, page);
    assert(skip >= 0) by (nonlinear_arith)
        requires
            skip == (page - 1) * limit,
            page >= 1,
            limit > 0,
    ;
    assert(page_offset(limit, page + 1) == skip + limit) by (nonlinear_arith)
        requires
            skip == (page - 1) * limit,
            page_offset(limit, page + 1) == (page + 1 - 1) * limit,
    ;
    assert(page_of(all, 0, skip) + page_of(all, skip, limit) =~= page_of(all, 0, skip + limit));
}

} // verus!
