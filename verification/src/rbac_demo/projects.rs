//! Projects: the statements that list and count them.

use crate::builder::QueryBuilder;
use crate::models::{FilterPayload, Pagination, PaginationError};
use crate::utils::db;
use vstd::prelude::*;

verus! {

/// The statement that fetches one page of projects.
pub fn list_projects_query(current_page: u64, page_size: u64) -> (result: Result<
    QueryBuilder,
    PaginationError,
>)
    ensures
        match result {
            Ok(qb) => {
                &&& Pagination::check(current_page, page_size) is Ok
                &&& qb.is_open()
                &&& qb@ == db::list_statement(
                    "SELECT project_id, name, description FROM projects"@,
                    FilterPayload::Other,
                    current_page,
                    page_size,
                )
            },
            Err(error) => Pagination::check(current_page, page_size) == Err::<
                (),
                _,
            >(error),
        },
{
    db::list_query(
        "SELECT project_id, name, description FROM projects",
        &FilterPayload::Other,
        current_page,
        page_size,
    )
}

/// The statement that counts all projects.
pub fn count_projects_query() -> (qb: QueryBuilder)
    ensures
        qb.is_open(),
        qb@ == db::count_statement("projects"@, FilterPayload::Other),
{
    db::count_query("projects", &FilterPayload::Other)
}

} // verus!
