//! Members: the statements that list and count them.

use crate::builder::QueryBuilder;
use crate::models::{FilterPayload, Pagination, PaginationError};
use crate::utils::db;
use vstd::prelude::*;

verus! {

/// The statement that fetches one page of members.
pub fn list_members_query(current_page: u64, page_size: u64) -> (result: Result<
    QueryBuilder,
    PaginationError,
>)
    ensures
        match result {
            Ok(qb) => {
                &&& Pagination::check(current_page, page_size) is Ok
                &&& qb.is_open()
                &&& qb@ == db::list_statement(
                    "SELECT member_id, first_name, last_name FROM members"@,
                    FilterPayload::Other,
                    current_page,
                    page_size,
                )
            },
            Err(error) => Pagination::check(current_page, page_size) == Err::<
                (),
                _,
            >(error),
        },
{
    db::list_query(
        "SELECT member_id, first_name, last_name FROM members",
        &FilterPayload::Other,
        current_page,
        page_size,
    )
}

/// The statement that counts all members.
pub fn count_members_query() -> (qb: QueryBuilder)
    ensures
        qb.is_open(),
        qb@ == db::count_statement("members"@, FilterPayload::Other),
{
    db::count_query("members", &FilterPayload::Other)
}

} // verus!
