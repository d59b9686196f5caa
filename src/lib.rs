//! Renames localized screenshot files to a sortable, timestamped form.
pub mod classify;
pub mod datetime;
pub mod rename;
pub mod scan;
pub mod text;
pub mod watch;
