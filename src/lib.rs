//! Lead-time statistics for merged pull requests: a team roster, a cursor-based
//! page state machine, and the aggregation of per-commit lead times into
//! mean, median and maximum.

pub mod lead_time;
pub mod pull_requests;
pub mod queries;
pub mod response;
pub mod roster;
pub mod statistics;
pub mod time;
