//! Verified core of the Remux user-administration features: the pure
//! formatting helpers of the dashboard, the decisions of its user pages and
//! the requests its pages send, the server's user-statistics queries and the
//! mapping of their rows, and the activity-log queries.

pub mod ids;
pub mod text;
pub mod time;
pub mod labels;
pub mod stats;
pub mod activity;
pub mod users;
pub mod user_form;
pub mod dashboard;
pub mod pages;
