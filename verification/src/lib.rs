//! Task reporting for a project tracker: which issues of a team changed
//! their workflow state recently, grouped by the state they are in now.
//!
//! The crate holds the decisions of such a report and proves them. Sending
//! the queries and printing the result are left to the caller.
//!
//! - `resolve` picks the team from the team listing by its key.
//! - `fetch` says which of the three issue queries to send next and takes
//!   each reply; `client` reads a reply, `merge` joins the three pages so
//!   that no open issue repeats an earlier one, and `filter` states what
//!   each query asks of an issue.
//! - `classify` decides whether an issue changed state recently enough and
//!   words its line; `clock` reads the times and counts the hours, with
//!   `chrono`; `decimal` writes the numbers.
//! - `group` sorts a list of issues into `tasks`, the five groups, and
//!   `report` lays them out as text.
//! - `queries` holds the records that the tracker's interface sends.

pub mod classify;
pub mod client;
pub mod clock;
pub mod decimal;
pub mod fetch;
pub mod filter;
pub mod group;
pub mod merge;
pub mod queries;
pub mod report;
pub mod resolve;
pub mod tasks;
