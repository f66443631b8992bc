//! Plain records, one per GraphQL object that the queries select.

pub mod active_issues;
pub mod schema;
pub mod teams;
