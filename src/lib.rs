//! Key-state tracking for an on-screen keystroke display: key sets, the
//! glyph table, and the per-tick diff that turns two key snapshots into
//! press and release events.

pub mod glyph;
pub mod keys;
pub mod keyset;
pub mod tracker;
