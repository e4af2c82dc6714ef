//! An anonymous two-way message relay between private conversations and one
//! staff group: the correlation store, the ban registry, the per-user rate
//! limiter and the dispatcher that routes each inbound event.

pub mod action;
pub mod db;
pub mod dispatch;
pub mod event;
pub mod ratelimit;
pub mod text;
