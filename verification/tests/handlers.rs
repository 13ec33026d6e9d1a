use backend::builder::QueryBuilder;
use backend::models::{FilterPayload, FilterValue, PaginationError};
use backend::rbac_demo::members::{count_members_query, list_members_query};
use backend::rbac_demo::projects::{count_projects_query, list_projects_query};
use backend::rbac_demo::rbac::permissions::{
    count_permissions_query, filter_payload, list_permissions_query, PermissionFilter,
};
use backend::rbac_demo::rbac::roles::{
    add_role_permissions_query, count_roles_query, list_roles_query, AddPermissions,
    RemovePermissions, Role,
};
use backend::rbac_demo::{delete_outcome, Status};
use backend::utils::db::{count_query, list_query};
use sqlx::Execute;
use uuid::Uuid;

/// The parameters of a statement as the driver holds them: their types, and
/// their values in the wire encoding.
fn bound(qb: &mut QueryBuilder) -> String {
    let mut query = qb.inner.build();
    let arguments = query.take_arguments().unwrap().unwrap();
    format!("{:?}", arguments)
}

fn assert_bound(qb: &mut QueryBuilder, types: &[&str], values: &[Vec<u8>]) {
    let shown = bound(qb);
    let types: Vec<String> = types.iter().map(|t| format!("PgTypeInfo({})", t)).collect();
    let types = format!("types: [{}]", types.join(", "));
    let mut buffer: Vec<u8> = Vec::new();
    for value in values {
        buffer.extend_from_slice(&(value.len() as i32).to_be_bytes());
        buffer.extend_from_slice(value);
    }
    let buffer = format!("buffer: {:?}, count: {}", buffer, values.len());
    assert!(shown.contains(&types), "{} lacks {}", shown, types);
    assert!(shown.contains(&buffer), "{} lacks {}", shown, buffer);
}

fn by_resource(resource: Option<&str>) -> Option<PermissionFilter> {
    Some(PermissionFilter {
        resource: resource.map(|r| r.to_string()),
    })
}

fn id(n: u128) -> Uuid {
    Uuid::from_u128(n)
}

#[test]
fn count_has_the_filter_clause_and_no_pagination() {
    let filter = filter_payload(&by_resource(Some("invoice")));
    let mut qb = count_query("permissions", &filter);
    assert_eq!(
        qb.inner.sql(),
        "SELECT count(*) FROM permissions WHERE TRUE AND resource = $1"
    );
    assert_bound(&mut qb, &["Text"], &[b"invoice".to_vec()]);
}

#[test]
fn count_without_a_filter_counts_every_row() {
    let mut qb = count_query("members", &FilterPayload::Other);
    assert_eq!(qb.inner.sql(), "SELECT count(*) FROM members");
    assert_bound(&mut qb, &[], &[]);
}

#[test]
fn list_has_filter_then_limit_then_offset() {
    let filter = filter_payload(&by_resource(Some("invoice")));
    let mut qb = list_query("SELECT * FROM permissions", &filter, 3, 20).unwrap();
    assert_eq!(
        qb.inner.sql(),
        "SELECT * FROM permissions WHERE TRUE AND resource = $1 LIMIT $2 OFFSET $3"
    );
    assert_bound(
        &mut qb,
        &["Text", "Int8", "Int8"],
        &[
            b"invoice".to_vec(),
            20i64.to_be_bytes().to_vec(),
            40i64.to_be_bytes().to_vec(),
        ],
    );
}

#[test]
fn list_refuses_page_zero() {
    let result = list_query("SELECT 1", &FilterPayload::Other, 0, 10);
    assert_eq!(result.err(), Some(PaginationError::PageZero));
    let result = list_query("SELECT 1", &FilterPayload::Other, 2, u64::MAX);
    assert_eq!(result.err(), Some(PaginationError::OutOfRange));
}

#[test]
fn count_and_list_share_the_where_clause() {
    let filter = filter_payload(&by_resource(Some("invoice")));
    let count = count_permissions_query(&filter);
    let list = list_permissions_query(&filter, 1, 10).unwrap();
    let clause = " WHERE TRUE AND resource = $1";
    assert_eq!(
        count.inner.sql(),
        format!("SELECT count(*) FROM permissions{}", clause)
    );
    assert_eq!(
        list.inner.sql(),
        format!(
            "SELECT permission_id, resource, action, scope FROM permissions{} LIMIT $2 OFFSET $3",
            clause
        )
    );
}

#[test]
fn permission_filter_has_one_field() {
    match by_resource(Some("invoice")).unwrap().payload() {
        FilterPayload::Object(fields) => {
            assert_eq!(fields.len(), 1);
            assert_eq!(fields[0].name, "resource");
            assert!(matches!(&fields[0].value, FilterValue::String(r) if r == "invoice"));
        }
        FilterPayload::Other => panic!("a permission filter has a field"),
    }
    match by_resource(None).unwrap().payload() {
        FilterPayload::Object(fields) => {
            assert_eq!(fields.len(), 1);
            assert_eq!(fields[0].name, "resource");
            assert!(matches!(fields[0].value, FilterValue::Null));
        }
        FilterPayload::Other => panic!("a permission filter has a field"),
    }
    assert!(matches!(filter_payload(&None), FilterPayload::Other));
}

#[test]
fn permissions_without_a_resource_are_all_listed() {
    let filter = filter_payload(&by_resource(None));
    let list = list_permissions_query(&filter, 1, 10).unwrap();
    assert_eq!(
        list.inner.sql(),
        "SELECT permission_id, resource, action, scope FROM permissions WHERE TRUE \
         LIMIT $1 OFFSET $2"
    );
    let count = count_permissions_query(&filter);
    assert_eq!(
        count.inner.sql(),
        "SELECT count(*) FROM permissions WHERE TRUE"
    );
}

#[test]
fn permissions_without_a_filter_have_no_where_clause() {
    let filter = filter_payload(&None);
    let list = list_permissions_query(&filter, 2, 10).unwrap();
    assert_eq!(
        list.inner.sql(),
        "SELECT permission_id, resource, action, scope FROM permissions LIMIT $1 OFFSET $2"
    );
    let count = count_permissions_query(&filter);
    assert_eq!(count.inner.sql(), "SELECT count(*) FROM permissions");
}

#[test]
fn members_projects_and_roles_are_listed_by_page() {
    let mut members = list_members_query(2, 10).unwrap();
    assert_eq!(
        members.inner.sql(),
        "SELECT member_id, first_name, last_name FROM members LIMIT $1 OFFSET $2"
    );
    assert_bound(
        &mut members,
        &["Int8", "Int8"],
        &[10i64.to_be_bytes().to_vec(), 10i64.to_be_bytes().to_vec()],
    );
    assert_eq!(
        list_projects_query(1, 10).unwrap().inner.sql(),
        "SELECT project_id, name, description FROM projects LIMIT $1 OFFSET $2"
    );
    assert_eq!(
        list_roles_query(1, 10).unwrap().inner.sql(),
        "SELECT * FROM roles LIMIT $1 OFFSET $2"
    );
    assert_eq!(
        list_members_query(0, 10).err(),
        Some(PaginationError::PageZero)
    );
    assert_eq!(
        list_projects_query(0, 10).err(),
        Some(PaginationError::PageZero)
    );
    assert_eq!(
        list_roles_query(0, 10).err(),
        Some(PaginationError::PageZero)
    );
}

#[test]
fn members_projects_and_roles_are_counted_without_a_filter() {
    assert_eq!(
        count_members_query().inner.sql(),
        "SELECT count(*) FROM members"
    );
    assert_eq!(
        count_projects_query().inner.sql(),
        "SELECT count(*) FROM projects"
    );
    assert_eq!(
        count_roles_query().inner.sql(),
        "SELECT count(*) FROM roles"
    );
}

#[test]
fn deleting_a_missing_record_is_not_found() {
    assert_eq!(delete_outcome::<String>(Ok(0)), Ok(Status::NotFound));
    assert_eq!(delete_outcome::<String>(Ok(1)), Ok(Status::NoContent));
    assert_eq!(delete_outcome::<String>(Ok(7)), Ok(Status::NoContent));
    assert_eq!(
        delete_outcome(Err("connection lost".to_string())),
        Err("connection lost".to_string())
    );
}

#[test]
fn status_codes() {
    assert_eq!(Status::Success.code(), 200);
    assert_eq!(Status::NoContent.code(), 204);
    assert_eq!(Status::NotFound.code(), 404);
}

#[test]
fn links_are_inserted_row_by_row() {
    let role = id(1);
    let mut qb = add_role_permissions_query(role, &vec![id(10), id(11)]);
    assert_eq!(
        qb.inner.sql(),
        "INSERT INTO roles_permissions (role_id, permission_id) VALUES ($1, $2), ($3, $4) \
         ON CONFLICT (role_id, permission_id) DO NOTHING"
    );
    assert_bound(
        &mut qb,
        &["Uuid", "Uuid", "Uuid", "Uuid"],
        &[
            role.as_bytes().to_vec(),
            id(10).as_bytes().to_vec(),
            role.as_bytes().to_vec(),
            id(11).as_bytes().to_vec(),
        ],
    );
}

#[test]
fn links_match_what_the_driver_writes_for_values() {
    let role = id(1);
    let permissions = vec![id(10), id(11), id(12), id(13), id(14), id(15)];
    let ours = add_role_permissions_query(role, &permissions);
    let mut theirs: sqlx::QueryBuilder<sqlx::Postgres> =
        sqlx::QueryBuilder::new("INSERT INTO roles_permissions (role_id, permission_id) ");
    theirs.push_values(permissions, |mut query, permission| {
        query.push_bind(role);
        query.push_bind(permission);
    });
    theirs.push(" ON CONFLICT (role_id, permission_id) DO NOTHING");
    assert_eq!(ours.inner.sql(), theirs.sql());
    assert!(ours.inner.sql().contains("($11, $12)"));
}

#[test]
fn the_same_link_twice_is_written_with_the_conflict_clause() {
    let qb = add_role_permissions_query(id(1), &vec![id(10), id(10)]);
    assert_eq!(
        qb.inner.sql(),
        "INSERT INTO roles_permissions (role_id, permission_id) VALUES ($1, $2), ($3, $4) \
         ON CONFLICT (role_id, permission_id) DO NOTHING"
    );
}

#[test]
fn links_to_no_permission_have_no_row() {
    let mut qb = add_role_permissions_query(id(1), &Vec::new());
    assert_eq!(
        qb.inner.sql(),
        "INSERT INTO roles_permissions (role_id, permission_id) VALUES  \
         ON CONFLICT (role_id, permission_id) DO NOTHING"
    );
    assert_bound(&mut qb, &[], &[]);
}

#[test]
fn role_keeps_its_fields() {
    let role = Role::new(id(5), "admin".to_string(), "all of it".to_string());
    assert_eq!(role.role_id, id(5));
    assert_eq!(role.name, "admin");
    assert_eq!(role.description, "all of it");
    let mut qb = role.add_permissions_query(&vec![id(9)]);
    assert_eq!(
        qb.inner.sql(),
        "INSERT INTO role_permissions (role_id, permission_id) VALUES ($1, $2) \
         ON CONFLICT (role_id, permission_id) DO NOTHING"
    );
    assert_bound(
        &mut qb,
        &["Uuid", "Uuid"],
        &[id(5).as_bytes().to_vec(), id(9).as_bytes().to_vec()],
    );
}

#[test]
fn adding_permissions_checks_role_then_permissions() {
    let start = AddPermissions::start();
    assert_eq!(start, AddPermissions::CheckRole);
    assert_eq!(
        start.next(false),
        AddPermissions::Respond(Status::NotFound)
    );
    let second = start.next(true);
    assert_eq!(second, AddPermissions::CheckPermissions);
    assert_eq!(
        second.next(false),
        AddPermissions::Respond(Status::NotFound)
    );
    let third = second.next(true);
    assert_eq!(third, AddPermissions::Insert);
    assert_eq!(third.next(true), AddPermissions::Respond(Status::Success));
    assert_eq!(
        third.next(true).next(false),
        AddPermissions::Respond(Status::Success)
    );
}

#[test]
fn removing_permissions_checks_the_role_only() {
    let start = RemovePermissions::start();
    assert_eq!(start, RemovePermissions::CheckRole);
    assert_eq!(
        start.next(false),
        RemovePermissions::Respond(Status::NotFound)
    );
    let second = start.next(true);
    assert_eq!(second, RemovePermissions::Delete);
    assert_eq!(
        second.next(true),
        RemovePermissions::Respond(Status::Success)
    );
    assert_eq!(
        second.next(true).next(true),
        RemovePermissions::Respond(Status::Success)
    );
}
