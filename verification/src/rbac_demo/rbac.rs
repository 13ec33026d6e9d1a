//! Roles, permissions and the links between them.

pub mod permissions;
pub mod roles;
