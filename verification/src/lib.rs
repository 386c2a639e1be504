//! State-management core of a terminal audio mixer.
//!
//! The library keeps a canonical, typed, parent-linked record of every live
//! audio object (devices, streams, cards), projects the ordered visible page
//! of identifiers for the active view, merges redraw proposals into one
//! minimal instruction, derives the set of peak-level monitor sources that
//! must be subscribed, keeps selection and scroll consistent, and routes
//! every inbound event through the handler chain of the active UI mode.
//!
//! Terminal drawing, the audio-server protocol client, key decoding and
//! process bootstrap are collaborators outside this crate: they hand events
//! in and carry commands out as plain values.

pub mod actions;
pub mod dispatch;
pub mod entries_updates;
pub mod entry;
pub mod monitor;
pub mod page;
pub mod redraw;
pub mod scroll;
pub mod state;
