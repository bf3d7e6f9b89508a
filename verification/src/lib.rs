//! Safe construction and dispatch of desktop-shell notification-area icon
//! records.
//!
//! The library assembles a fixed-layout icon record through a value-semantics
//! builder that keeps the record's validity-flag bitmask in sync with the
//! fields that have been populated, encodes tooltip text into the record's
//! fixed-capacity UTF-16 buffer, and interprets the shell's reply to a
//! dispatch request as a typed outcome.

pub mod dispatch;
pub mod record;
pub mod utf16;

pub use dispatch::DispatchError;
pub use dispatch::Operation;
pub use dispatch::ShellReply;
pub use record::NotifyIcon;
pub use record::RecordView;
