//! A single-shot window-activation client for a compositor.
//!
//! The library is the decision core of the client: it validates the
//! requested predicate, consumes registry and window-lifecycle events as
//! plain values, matches window properties against the predicate, and says
//! which protocol commands to issue.  The transport that produces the events
//! and carries the commands lives outside the library.

pub mod engine;
pub mod laws;
pub mod session;
pub mod text;

pub use text::contains_substr;
pub use text::is_substring_of;
pub use text::str_eq;
