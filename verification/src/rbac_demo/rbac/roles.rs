//! Roles: the statements that list and count them, the statement that links
//! a role to permissions, and the decisions taken while links are added and
//! removed.

use crate::builder::{Bound, QueryBuilder, Statement};
use crate::models::{FilterPayload, Pagination, PaginationError};
use crate::rbac_demo::Status;
use crate::utils::db;
use uuid::Uuid;
use vstd::prelude::*;

verus! {

/// A role.
#[derive(Debug)]
pub struct Role {
    /// The role's identifier, given by the store and never changed.
    pub role_id: Uuid,
    /// The role's name.
    pub name: String,
    /// What the role is for.
    pub description: String,
}

/// The statement with one row of a `VALUES` list appended for each of
/// `permissions`: `(<role>, <permission>)`, both bound, with `, ` between
/// one row and the next.
pub open spec fn with_rows(st: Statement, role_id: Uuid, permissions: Seq<Uuid>) -> Statement
    decreases permissions.len(),
{
    if permissions.len() == 0 {
        st
    } else {
        let before = with_rows(st, role_id, permissions.drop_last());
        let opened = if permissions.len() == 1 {
            before.push("("@)
        } else {
            before.push(", "@).push("("@)
        };
        opened.bind(Bound::Uuid(role_id)).push(", "@).bind(Bound::Uuid(permissions.last())).push(
            ")"@,
        )
    }
}

/// The statement that links `role_id` to each of `permissions` in `table`: one
/// row for each permission, and a link that is there already is left alone.
pub open spec fn link_statement(table: Seq<char>, role_id: Uuid, permissions: Seq<Uuid>) -> Statement {
    with_rows(
        Statement {
            sql: "INSERT INTO "@ + table + " (role_id, permission_id) "@ + "VALUES "@,
            params: Seq::empty(),
        },
        role_id,
        permissions,
    ).push(" ON CONFLICT (role_id, permission_id) DO NOTHING"@)
}

/// Builds the statement that links `role_id` to each of `permissions` in
/// `table`.
fn link_query(table: &str, role_id: Uuid, permissions: &Vec<Uuid>) -> (qb: QueryBuilder)
    ensures
        qb.is_open(),
        qb@ == link_statement(table@, role_id, permissions@),
{
    let mut qb = QueryBuilder::new("INSERT INTO ");
    qb.push(table);
    qb.push(" (role_id, permission_id) ");
    qb.push("VALUES ");
    let ghost start = qb@;
    proof {
        assert(start.sql == "INSERT INTO "@ + table@ + " (role_id, permission_id) "@ + "VALUES "@);
    }
    let mut i: usize = 0;
    while i < permissions.len()
        invariant
            i <= permissions.len(),
            qb.is_open(),
            qb@ == with_rows(start, role_id, permissions@.take(i as int)),
        decreases permissions.len() - i,
    {
        proof {
            assert(permissions@.take(i + 1).drop_last() == permissions@.take(i as int));
        }
        if i > 0 {
            qb.push(", ");
        }
        qb.push("(");
        qb.push_bind_uuid(role_id);
        qb.push(", ");
        qb.push_bind_uuid(permissions[i]);
        qb.push(")");
        i += 1;
    }
    proof {
        assert(permissions@.take(permissions.len() as int) == permissions@);
    }
    qb.push(" ON CONFLICT (role_id, permission_id) DO NOTHING");
    qb
}

impl Role {
    /// A role of the given identifier, name and description.
    pub fn new(role_id: Uuid, name: String, description: String) -> (role: Self)
        ensures
            role.role_id == role_id,
            role.name == name,
            role.description == description,
    {
        Self { role_id, name, description }
    }

    /// The statement that gives this role each of `permissions`.
    pub fn add_permissions_query(&self, permissions: &Vec<Uuid>) -> (qb: QueryBuilder)
        ensures
            qb.is_open(),
            qb@ == link_statement("role_permissions"@, self.role_id, permissions@),
    {
        link_query("role_permissions", self.role_id, permissions)
    }
}

/// The statement that fetches one page of roles.
pub fn list_roles_query(current_page: u64, page_size: u64) -> (result: Result<
    QueryBuilder,
    PaginationError,
>)
    ensures
        match result {
            Ok(qb) => {
                &&& Pagination::check(current_page, page_size) is Ok
                &&& qb.is_open()
                &&& qb@ == db::list_statement(
                    "SELECT * FROM roles"@,
                    FilterPayload::Other,
                    current_page,
                    page_size,
                )
            },
            Err(error) => Pagination::check(current_page, page_size) == Err::<(), _>(error),
        },
{
    db::list_query("SELECT * FROM roles", &FilterPayload::Other, current_page, page_size)
}

/// The statement that counts all roles.
pub fn count_roles_query() -> (qb: QueryBuilder)
    ensures
        qb.is_open(),
        qb@ == db::count_statement("roles"@, FilterPayload::Other),
{
    db::count_query("roles", &FilterPayload::Other)
}

/// The statement by which the handler links a role to permissions.
pub fn add_role_permissions_query(role_id: Uuid, permissions: &Vec<Uuid>) -> (qb: QueryBuilder)
    ensures
        qb.is_open(),
        qb@ == link_statement("roles_permissions"@, role_id, permissions@),
{
    link_query("roles_permissions", role_id, permissions)
}

/// Each row binds the role first and its permission second: of the `2n`
/// parameters that `n` permissions add, the one at `2i` is the role and the
/// one at `2i + 1` is permission `i`.
pub proof fn lemma_rows_bind_pairs(st: Statement, role_id: Uuid, permissions: Seq<Uuid>)
    ensures
        ({
            let after = with_rows(st, role_id, permissions);
            let n = st.params.len() as int;
            &&& after.params.len() == n + 2 * permissions.len()
            &&& after.params.take(n) == st.params
            &&& forall|i: int|
                0 <= i < permissions.len() ==> {
                    &&& #[trigger] after.params[n + 2 * i] == Bound::Uuid(role_id)
                    &&& after.params[n + 2 * i + 1] == Bound::Uuid(permissions[i])
                }
        }),
    decreases permissions.len(),
{
    if permissions.len() > 0 {
        lemma_rows_bind_pairs(st, role_id, permissions.drop_last());
        let before = with_rows(st, role_id, permissions.drop_last());
        let after = with_rows(st, role_id, permissions);
        let n = st.params.len() as int;
        assert(after.params == before.params.push(Bound::Uuid(role_id)).push(
            Bound::Uuid(permissions.last()),
        ));
        assert forall|i: int| 0 <= i < permissions.len() implies {
            &&& #[trigger] after.params[n + 2 * i] == Bound::Uuid(role_id)
            &&& after.params[n + 2 * i + 1] == Bound::Uuid(permissions[i])
        } by {
            if i < permissions.len() - 1 {
                assert(before.params[n + 2 * i] == Bound::Uuid(role_id));
                assert(permissions.drop_last()[i] == permissions[i]);
            }
        }
    }
}

/// Where the handling of a request to give a role permissions stands.
#[derive(Debug, Clone, Copy, PartialEq, Eq, Structural)]
pub enum AddPermissions {
    /// Ask the store whether the role exists.
    CheckRole,
    /// Ask the store whether every permission exists.
    CheckPermissions,
    /// Send the statement that links the role to the permissions.
    Insert,
    /// Answer the client.
    Respond(Status),
}

impl AddPermissions {
    /// The step that follows, `confirmed` being the store's answer to the
    /// step's question: that the role exists, that every permission exists,
    /// that the links were written.
    pub open spec fn spec_next(self, confirmed: bool) -> AddPermissions {
        match self {
            AddPermissions::CheckRole => if confirmed {
                AddPermissions::CheckPermissions
            } else {
                AddPermissions::Respond(Status::NotFound)
            },
            AddPermissions::CheckPermissions => if confirmed {
                AddPermissions::Insert
            } else {
                AddPermissions::Respond(Status::NotFound)
            },
            AddPermissions::Insert => AddPermissions::Respond(Status::Success),
            AddPermissions::Respond(status) => AddPermissions::Respond(status),
        }
    }

    /// The first step.
    pub fn start() -> (step: Self)
        ensures
            step == AddPermissions::CheckRole,
    {
        AddPermissions::CheckRole
    }

    /// The step that follows, given the store's answer to this one.
    pub fn next(self, confirmed: bool) -> (step: Self)
        ensures
            step == self.spec_next(confirmed),
    {
        match self {
            AddPermissions::CheckRole => if confirmed {
                AddPermissions::CheckPermissions
            } else {
                AddPermissions::Respond(Status::NotFound)
            },
            AddPermissions::CheckPermissions => if confirmed {
                AddPermissions::Insert
            } else {
                AddPermissions::Respond(Status::NotFound)
            },
            AddPermissions::Insert => AddPermissions::Respond(Status::Success),
            AddPermissions::Respond(status) => AddPermissions::Respond(status),
        }
    }
}

/// Where the handling of a request to take permissions from a role stands.
#[derive(Debug, Clone, Copy, PartialEq, Eq, Structural)]
pub enum RemovePermissions {
    /// Ask the store whether the role exists.
    CheckRole,
    /// Send the statement that removes the links. A permission that the role
    /// does not have is passed over, so the permissions are not checked.
    Delete,
    /// Answer the client.
    Respond(Status),
}

impl RemovePermissions {
    /// The step that follows, `confirmed` being the store's answer to the
    /// step's question: that the role exists, that the links were removed.
    pub open spec fn spec_next(self, confirmed: bool) -> RemovePermissions {
        match self {
            RemovePermissions::CheckRole => if confirmed {
                RemovePermissions::Delete
            } else {
                RemovePermissions::Respond(Status::NotFound)
            },
            RemovePermissions::Delete => RemovePermissions::Respond(Status::Success),
            RemovePermissions::Respond(status) => RemovePermissions::Respond(status),
        }
    }

    /// The first step.
    pub fn start() -> (step: Self)
        ensures
            step == RemovePermissions::CheckRole,
    {
        RemovePermissions::CheckRole
    }

    /// The step that follows, given the store's answer to this one.
    pub fn next(self, confirmed: bool) -> (step: Self)
        ensures
            step == self.spec_next(confirmed),
    {
        match self {
            RemovePermissions::CheckRole => if confirmed {
                RemovePermissions::Delete
            } else {
                RemovePermissions::Respond(Status::NotFound)
            },
            RemovePermissions::Delete => RemovePermissions::Respond(Status::Success),
            RemovePermissions::Respond(status) => RemovePermissions::Respond(status),
        }
    }
}

/// Permissions are added only to a role that exists and only if each of them
/// exists: the answer is `Success` exactly then, and `NotFound` otherwise. A
/// missing role is answered before the permissions are looked at.
pub proof fn lemma_add_permissions_answer(role_exists: bool, permissions_exist: bool)
    ensures
        !role_exists ==> AddPermissions::CheckRole.spec_next(role_exists) == AddPermissions::Respond(
            Status::NotFound,
        ),
        role_exists ==> AddPermissions::CheckRole.spec_next(role_exists).spec_next(
            permissions_exist,
        ) == (if permissions_exist {
            AddPermissions::Insert
        } else {
            AddPermissions::Respond(Status::NotFound)
        }),
        AddPermissions::Insert.spec_next(true) == AddPermissions::Respond(Status::Success),
{
}

} // verus!
