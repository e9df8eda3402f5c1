//! The core of a hydration reminder: settings, the sip ledger's aggregate,
//! the timer and session state, and the decisions of the reminder scheduler.
//!
//! Everything here is a function of plain values. Reading files, talking to
//! the database, delivering notifications and drawing the tray are left to
//! the program that embeds this crate.

pub mod clock;
pub mod commands;
pub mod db;
pub mod scheduler;
pub mod session;
pub mod settings;
pub mod sip;
pub mod state;
pub mod tray;
