//! Playback-readiness reconciliation for a single positional audio element.
//!
//! The library decides, from what the media element reports and from whether
//! the user wants the current source playing, when to call `play`, when to
//! reload the source to get it buffering, and when to do nothing. It never
//! touches the element itself: each entry point takes what was read from the
//! element and answers with what the host should do next.
pub mod element;
pub mod laws;
pub mod readiness;
pub mod reconciler;


pub use element::{ElementOp, OpView};
pub use readiness::{is_blank_source, Observation, Readiness};
pub use reconciler::{Command, Event, Intent, Reconciler};

