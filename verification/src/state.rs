//! The mixer's whole mutable state: store, page, selection, scroll,
//! pending redraw and active UI mode.

use crate::entry::{Entries, EntryIdentifier, EntryV};
use crate::page::{PageEntries, PageType};
use crate::redraw::RedrawType;
use vstd::prelude::*;

verus! {

/// One action offered by the context menu for the selected record.
pub enum ContextMenuOption {
    /// Mute the record when it plays, unmute it when it is muted.
    ToggleMute,
    /// Suspend the device when it runs, resume it when it is suspended.
    ToggleSuspend,
    /// Begin moving the stream to another device.
    Move,
    /// Kill the stream.
    Kill,
    /// Activate the named card profile.
    Profile(String),
}

impl ContextMenuOption {
    /// A field-for-field copy.
    pub fn duplicate(&self) -> (r: ContextMenuOption)
        ensures
            r == *self,
    {
        match self {
            ContextMenuOption::ToggleMute => ContextMenuOption::ToggleMute,
            ContextMenuOption::ToggleSuspend => ContextMenuOption::ToggleSuspend,
            ContextMenuOption::Move => ContextMenuOption::Move,
            ContextMenuOption::Kill => ContextMenuOption::Kill,
            ContextMenuOption::Profile(name) => ContextMenuOption::Profile(name.clone()),
        }
    }
}

/// The active UI mode.  Exactly one is active at a time; it is process
/// state, not per-record state.
#[derive(Clone, Copy, Debug)]
pub enum UIMode {
    /// Plain list navigation.
    Normal,
    /// The context menu for the selected record is open.
    ContextMenu,
    /// The help overlay is shown.
    Help,
    /// The record named first is being moved; the second field is the
    /// currently highlighted target device, when one is.
    MoveEntry(EntryIdentifier, Option<EntryIdentifier>),
    /// The backend disconnected and will retry in the given number of
    /// seconds; normal handler chains are suppressed.
    RetryIn(u64),
}

/// The whole state the event loop owns.
pub struct RSState {
    pub current_page: PageType,
    pub entries: Entries,
    pub page_entries: PageEntries,
    pub selected: usize,
    pub selected_context: usize,
    pub context_options: Vec<ContextMenuOption>,
    pub scroll: usize,
    pub redraw: RedrawType,
    pub ui_mode: UIMode,
}

impl RSState {
    /// The store is well formed, the selected row is a valid index into
    /// the page (or 0 when the page is empty), and the selected context
    /// row is a valid index into the option list (or 0 when it is empty).
    pub open spec fn wf(self) -> bool {
        &&& self.entries.wf()
        &&& self.selected < self.page_entries.ids@.len() || self.selected == 0
        &&& self.selected_context < self.context_options@.len() || self.selected_context == 0
    }

    /// All entity state is gone and the view shows nothing.
    pub open spec fn is_reset(self) -> bool {
        &&& self.entries@ == Seq::<EntryV>::empty()
        &&& self.page_entries.ids@ == Seq::<EntryIdentifier>::empty()
        &&& self.selected == 0
        &&& self.selected_context == 0
        &&& self.context_options@ == Seq::<ContextMenuOption>::empty()
        &&& self.scroll == 0
        &&& self.current_page == PageType::Output
    }
}

impl Default for RSState {
    /// The state before any event: empty store, output page, nothing
    /// selected, no pending redraw, normal mode.
    fn default() -> (r: Self)
        ensures
            r.wf(),
            r.is_reset(),
            r.redraw == RedrawType::Skip,
            r.ui_mode is Normal,
    {
        RSState {
            current_page: PageType::Output,
            entries: Entries::new(),
            page_entries: PageEntries::new(),
            selected: 0,
            selected_context: 0,
            context_options: Vec::new(),
            scroll: 0,
            redraw: RedrawType::Skip,
            ui_mode: UIMode::Normal,
        }
    }
}

} // verus!
