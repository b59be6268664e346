//! Host-side control of an embedded interpreter: the start/stop lifecycle,
//! the start-up configuration, the protect/unprotect discipline of an
//! evaluation, column checks for tables and timing of repeated calls.
pub mod lifecycle;
pub mod startup;
pub mod protect;
pub mod eval;
pub mod frame;
pub mod timing;
