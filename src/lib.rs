//! Helpers for driving GTK widgets from tests: the translation of GDK key
//! values into the keys of an input injector, the ordered steps that each
//! input helper performs, and the slot in which an observer keeps the
//! message it waits for.

pub mod actions;
pub mod keys;
pub mod observer;
