//! A safe fixed-capacity account/record kernel for ledger-style programs:
//! bounded-buffer writes, an explicit record lifecycle, and mandatory
//! authorization checks on every state-mutating operation.

pub mod auth;
pub mod buffer;
pub mod dispatch;
pub mod fault;
pub mod identity;
pub mod laws;
pub mod lifecycle;
pub mod record;
pub mod vault;
