//! Coordination core of a QR-code login screen: two background workers (one
//! rotating the displayed code, one polling for a completed scan) report to a
//! single-threaded controller through events, and stop on a shared
//! cancellation signal.
use vstd::prelude::*;

pub mod payload;
pub mod cancel;
pub mod event;
pub mod worker;
pub mod controller;
