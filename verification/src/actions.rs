//! The event vocabulary: what arrives on the shared channel, and the
//! commands the core hands back for the backend collaborator to perform.

use crate::entry::{Entry, EntryIdentifier};
use crate::page::PageType;
use vstd::prelude::*;

verus! {

/// One inbound event: a backend push (entry updates, connection state), a
/// decoded user action, or a terminal resize asking for a repaint.
pub enum Action {
    /// Drain the loop and stop the application.
    ExitSignal,
    /// Repaint everything (sent on every window resize).
    Redraw,
    /// The backend removed this record.
    EntryRemoved(EntryIdentifier),
    /// The backend created or changed this record; the full record comes
    /// along.
    EntryUpdate(EntryIdentifier, Entry),
    /// A fresh peak level for one record, in per-mille of full scale.
    PeakVolumeUpdate(EntryIdentifier, u32),
    /// Move the selection up by the given number of rows.
    MoveUp(u16),
    /// Move the selection down by the given number of rows.
    MoveDown(u16),
    /// Switch to the given page.
    ChangePage(PageType),
    /// Cycle pages: positive steps forward, negative backward.
    CyclePages(i8),
    /// Toggle mute of the selected record.
    RequestMute,
    /// Begin typing an absolute volume value (not modeled further).
    InputVolumeValue,
    /// Change the selected record's volume by this many percentage points.
    RequestChangeVolume(i16),
    /// Open the context menu for the selected record.
    OpenContextMenu,
    /// Close the context menu (or cancel a move).
    CloseContextMenu,
    /// Apply the highlighted choice of the active mode.
    Confirm,
    /// Show the help overlay.
    ShowHelp,
    /// Toggle hiding of the selected record's children.
    Hide,
    /// The backend disconnected and retries in this many seconds.
    RetryIn(u64),
    /// The backend (re)connected; state starts fresh.
    ConnectToPA,
    /// The backend disconnected for good until further notice.
    PADisconnected,
}

/// One command for the backend collaborator, carried out outside the
/// core after the event that produced it is fully handled.
pub enum Command {
    /// Set the mute flag of a record.
    MuteEntry(EntryIdentifier, bool),
    /// Reparent a stream onto a new device.
    MoveEntryToParent(EntryIdentifier, EntryIdentifier),
    /// Activate the named profile of a card.
    ChangeCardProfile(EntryIdentifier, String),
    /// Set a record's per-channel volumes.
    SetVolume(EntryIdentifier, Vec<u32>),
    /// Replace the active monitor subscriptions with exactly this set.
    CreateMonitors(Vec<(EntryIdentifier, Option<u32>)>),
    /// Suspend or resume a device.
    SetSuspend(EntryIdentifier, bool),
    /// Kill a stream.
    KillEntry(EntryIdentifier),
}

} // verus!
