//! One client per tracker, each with the tracker's own records and errors.

pub mod github;
pub mod jira;
pub mod linear;
pub mod trello;
