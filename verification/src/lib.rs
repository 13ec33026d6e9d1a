//! Administration of members, projects, roles and permissions over a
//! relational store: the statements that the handlers send and the decisions
//! that they take on what the store answers.

pub mod builder;
pub mod models;
pub mod rbac_demo;
pub mod routers;
pub mod utils;
