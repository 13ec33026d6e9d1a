//! The statements behind a listing: one that fetches a page, one that counts
//! every matching row. Both take their `WHERE` clause from the same filter.

use crate::builder::{placeholder, Bound, QueryBuilder, Statement};
use crate::models::{Filter, FilterPayload, Pagination, PaginationError};
use vstd::prelude::*;

verus! {

/// The statement that counts the rows of `table` that match `filter`.
pub open spec fn count_statement(table: Seq<char>, filter: FilterPayload) -> Statement {
    Filter::applied(
        Statement { sql: "SELECT count(*) FROM "@ + table, params: Seq::empty() },
        filter,
    )
}

/// The statement that fetches one page of the rows that `select` yields and
/// `filter` lets through.
pub open spec fn list_statement(
    select: Seq<char>,
    filter: FilterPayload,
    current_page: u64,
    page_size: u64,
) -> Statement {
    Pagination::applied(
        Filter::applied(Statement { sql: select, params: Seq::empty() }, filter),
        current_page,
        page_size,
    )
}

/// Builds `SELECT count(*) FROM <table>` followed by the filter's clause, with
/// the filter's values bound and no pagination.
pub fn count_query(table: &str, filter: &FilterPayload) -> (qb: QueryBuilder)
    requires
        filter.bindable(),
    ensures
        qb.is_open(),
        qb@ == count_statement(table@, *filter),
{
    let mut qb = QueryBuilder::new("SELECT count(*) FROM ");
    qb.push(table);
    Filter::to_query(&mut qb, filter);
    qb
}

/// Builds `select` followed by the filter's clause and the page's `LIMIT` and
/// `OFFSET`, with the filter's values, the limit and the offset bound.
///
/// Fails, as pagination does, on page 0 and on a page out of range.
pub fn list_query(select: &str, filter: &FilterPayload, current_page: u64, page_size: u64) -> (result:
    Result<QueryBuilder, PaginationError>)
    requires
        filter.bindable(),
    ensures
        match result {
            Ok(qb) => {
                &&& Pagination::check(current_page, page_size) is Ok
                &&& qb.is_open()
                &&& qb@ == list_statement(select@, *filter, current_page, page_size)
            },
            Err(error) => Pagination::check(current_page, page_size) == Err::<(), _>(error),
        },
{
    let mut qb = QueryBuilder::new(select);
    Filter::to_query(&mut qb, filter);
    match Pagination::to_query(current_page, page_size, &mut qb) {
        Ok(()) => Ok(qb),
        Err(error) => Err(error),
    }
}

/// The count and the listing of one filter select the same rows: after their
/// opening text both statements carry the same `WHERE` clause, numbered from
/// `$1`, and bind the same values to it. The listing then adds its limit and
/// its offset, and nothing else.
pub proof fn lemma_count_matches_list(
    table: Seq<char>,
    select: Seq<char>,
    filter: FilterPayload,
    current_page: u64,
    page_size: u64,
)
    ensures
        ({
            let count = count_statement(table, filter);
            let list = list_statement(select, filter, current_page, page_size);
            let k = Filter::params(filter).len();
            &&& count.sql == "SELECT count(*) FROM "@ + table + Filter::clause(filter, 1)
            &&& count.params == Filter::params(filter)
            &&& list.sql == select + Filter::clause(filter, 1) + " LIMIT "@ + placeholder(k + 1)
                + " OFFSET "@ + placeholder(k + 2)
            &&& list.params == count.params + seq![
                Bound::Int(Pagination::limit(page_size)),
                Bound::Int(Pagination::offset(current_page, page_size)),
            ]
        }),
{
    let count = count_statement(table, filter);
    let list = list_statement(select, filter, current_page, page_size);
    assert(count.params == Filter::params(filter));
    assert(list.params == count.params + seq![
        Bound::Int(Pagination::limit(page_size)),
        Bound::Int(Pagination::offset(current_page, page_size)),
    ]);
}

} // verus!
