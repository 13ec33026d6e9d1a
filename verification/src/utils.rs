//! Helpers shared by the handlers.

pub mod db;
