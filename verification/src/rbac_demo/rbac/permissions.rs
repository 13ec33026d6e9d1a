//! Permissions: their filter, and the statements that list and count them.

use crate::builder::QueryBuilder;
use crate::models::{FilterField, FilterPayload, FilterValue, Pagination, PaginationError};
use crate::utils::db;
use vstd::prelude::*;
use vstd::string::*;

verus! {

/// The criteria by which permissions are listed.
#[derive(Debug)]
pub struct PermissionFilter {
    /// The resource that a permission must speak of, if any.
    pub resource: Option<String>,
}

impl PermissionFilter {
    /// The value of the filter's one field, `resource`.
    pub open spec fn resource_value(&self) -> FilterValue {
        match self.resource {
            Some(resource) => FilterValue::String(resource),
            None => FilterValue::Null,
        }
    }

    /// The filter taken apart: one field, `resource`, absent where the filter
    /// names no resource.
    pub fn payload(&self) -> (payload: FilterPayload)
        ensures
            payload is Object,
            payload.fields().len() == 1,
            payload.fields()[0].name@ == "resource"@,
            payload.fields()[0].value == self.resource_value(),
    {
        let value = match &self.resource {
            Some(resource) => FilterValue::String(resource.clone()),
            None => FilterValue::Null,
        };
        let mut fields: Vec<FilterField> = Vec::new();
        fields.push(FilterField { name: String::from_str("resource"), value });
        FilterPayload::Object(fields)
    }
}

/// The payload of a request's filter: that of the filter where there is one,
/// and a payload without fields where there is none.
pub fn filter_payload(filter: &Option<PermissionFilter>) -> (payload: FilterPayload)
    ensures
        match filter {
            Some(filter) => {
                &&& payload is Object
                &&& payload.fields().len() == 1
                &&& payload.fields()[0].name@ == "resource"@
                &&& payload.fields()[0].value == filter.resource_value()
            },
            None => payload is Other,
        },
{
    match filter {
        Some(filter) => filter.payload(),
        None => FilterPayload::Other,
    }
}

/// The statement that fetches one page of the permissions that match.
pub fn list_permissions_query(filter: &FilterPayload, current_page: u64, page_size: u64) -> (result:
    Result<QueryBuilder, PaginationError>)
    requires
        filter.bindable(),
    ensures
        match result {
            Ok(qb) => {
                &&& Pagination::check(current_page, page_size) is Ok
                &&& qb.is_open()
                &&& qb@ == db::list_statement(
                    "SELECT permission_id, resource, action, scope FROM permissions"@,
                    *filter,
                    current_page,
                    page_size,
                )
            },
            Err(error) => Pagination::check(current_page, page_size) == Err::<(), _>(error),
        },
{
    db::list_query(
        "SELECT permission_id, resource, action, scope FROM permissions",
        filter,
        current_page,
        page_size,
    )
}

/// The statement that counts the permissions that match.
pub fn count_permissions_query(filter: &FilterPayload) -> (qb: QueryBuilder)
    requires
        filter.bindable(),
    ensures
        qb.is_open(),
        qb@ == db::count_statement("permissions"@, *filter),
{
    db::count_query("permissions", filter)
}

} // verus!
