//! The UI-mode state machine and event dispatcher.
//!
//! Every inbound event runs through the same chain: the generic handler
//! (repaints, page switches, store mutations pushed by the backend), the
//! entry-hierarchy handler (re-projection), exactly one mode-specific
//! handler chosen by the active UI mode, and the scroll handler.  Each
//! link proposes a repaint; the proposals merge through the redraw
//! lattice, and the commands the links produce are handed back for the
//! backend collaborator to perform.

use crate::actions::{Action, Command};
use crate::entries_updates::action_handler;
use crate::entry::{
    ident_of, spec_find, spec_ids_of_type, spec_remove_id, spec_set_peak, spec_upsert, CardProfile,
    Entry, EntryIdentifier, EntryKind, EntryKindV, EntryType, EntryV,
};
use crate::page::{first_pos, spec_first_pos, PageType};
use crate::redraw::RedrawType;
use crate::scroll::adjust_scroll;
use crate::state::{ContextMenuOption, RSState, UIMode};
use vstd::prelude::*;

verus! {

/// One channel volume changed by `d` percentage points of full scale
/// (65536 volume units), saturating at zero and at the largest volume.
pub open spec fn spec_changed_volume(x: u32, d: i16) -> u32 {
    let step = (if d >= 0 {
        d as int
    } else {
        -(d as int)
    }) * 65536 / 100;
    if d >= 0 {
        if x + step > u32::MAX {
            u32::MAX
        } else {
            (x + step) as u32
        }
    } else {
        if x - step < 0 {
            0u32
        } else {
            (x - step) as u32
        }
    }
}

/// Executable mirror of [`spec_changed_volume`].
fn changed_volume(x: u32, d: i16) -> (r: u32)
    ensures
        r == spec_changed_volume(x, d),
{
    if d >= 0 {
        let step: u64 = (d as u64) * 65536 / 100;
        let sum: u64 = (x as u64) + step;
        if sum > (u32::MAX as u64) {
            u32::MAX
        } else {
            sum as u32
        }
    } else {
        let neg: i32 = -(d as i32);
        let step64: u64 = (neg as u64) * 65536 / 100;
        let step: u32 = step64 as u32;
        if x < step {
            0
        } else {
            x - step
        }
    }
}

/// Every channel changed by `d` percentage points.
fn change_volume_vec(v: &Vec<u32>, d: i16) -> (r: Vec<u32>)
    ensures
        r@.len() == v@.len(),
        forall|i: int| 0 <= i < v@.len() ==> r@[i] == spec_changed_volume(v@[i], d),
{
    let mut r: Vec<u32> = Vec::new();
    let mut i: usize = 0;
    while i < v.len()
        invariant
            i <= v@.len(),
            r@.len() == i,
            forall|j: int| 0 <= j < i ==> r@[j] == spec_changed_volume(v@[j], d),
        decreases v@.len() - i,
    {
        r.push(changed_volume(v[i], d));
        i = i + 1;
    }
    r
}

/// The context-menu actions applicable to a record: devices offer mute
/// and suspend toggles, streams offer mute, move and kill, cards offer
/// one entry per profile.
pub open spec fn spec_options(e: EntryV) -> Seq<ContextMenuOption> {
    match e.kind {
        EntryKindV::Play(_) => if e.entry_type is SinkInput || e.entry_type is SourceOutput {
            seq![ContextMenuOption::ToggleMute, ContextMenuOption::Move, ContextMenuOption::Kill]
        } else {
            seq![ContextMenuOption::ToggleMute, ContextMenuOption::ToggleSuspend]
        },
        EntryKindV::Card(c) => c.profiles.map_values(
            |p: CardProfile| ContextMenuOption::Profile(p.name),
        ),
    }
}

/// Executable mirror of [`spec_options`].
fn options_for(e: &Entry) -> (r: Vec<ContextMenuOption>)
    ensures
        r@ == spec_options(e@),
{
    match &e.kind {
        EntryKind::Play(_) => {
            let mut r: Vec<ContextMenuOption> = Vec::new();
            r.push(ContextMenuOption::ToggleMute);
            if e.entry_type == EntryType::SinkInput || e.entry_type == EntryType::SourceOutput {
                r.push(ContextMenuOption::Move);
                r.push(ContextMenuOption::Kill);
            } else {
                r.push(ContextMenuOption::ToggleSuspend);
            }
            proof {
                assert(r@ =~= spec_options(e@));
            }
            r
        }
        EntryKind::Card(c) => {
            let mut r: Vec<ContextMenuOption> = Vec::new();
            let mut i: usize = 0;
            while i < c.profiles.len()
                invariant
                    i <= c.profiles@.len(),
                    r@.len() == i,
                    forall|j: int|
                        0 <= j < i ==> r@[j] == ContextMenuOption::Profile(c.profiles@[j].name),
                decreases c.profiles@.len() - i,
            {
                r.push(ContextMenuOption::Profile(c.profiles[i].name.clone()));
                i = i + 1;
            }
            proof {
                assert(r@ =~= spec_options(e@));
            }
            r
        }
    }
}

/// The store after the generic handler: a well-formed update whose record
/// matches its identifier is written, a removal is applied, a peak report
/// recorded; anything else (including a malformed update) leaves it alone.
pub open spec fn spec_store_after_general(s: Seq<EntryV>, msg: Action) -> Seq<EntryV> {
    match msg {
        Action::EntryUpdate(id, e) => if e@.wf() && ident_of(e@) == id {
            spec_upsert(s, e@)
        } else {
            s
        },
        Action::EntryRemoved(id) => spec_remove_id(s, id),
        Action::PeakVolumeUpdate(id, v) => spec_set_peak(s, id, v),
        _ => s,
    }
}

/// The active page after the generic handler: page switches take effect,
/// everything else keeps it.
pub open spec fn spec_page_after_general(page: PageType, msg: Action) -> PageType {
    match msg {
        Action::ChangePage(p) => p,
        Action::CyclePages(d) => page.spec_cycled(d as int),
        _ => page,
    }
}

/// The generic handler's repaint proposal, a function of the event alone.
pub open spec fn spec_general_redraw(msg: Action) -> RedrawType {
    match msg {
        Action::Redraw | Action::ChangePage(_) | Action::CyclePages(_) => RedrawType::Full,
        Action::EntryUpdate(_, _) | Action::EntryRemoved(_) => RedrawType::Entries,
        Action::PeakVolumeUpdate(id, _) => RedrawType::PeakVolume(id),
        _ => RedrawType::Skip,
    }
}

/// Events every mode handles the same way: repaints, page switches, and
/// the store mutations the backend pushes.  A malformed update — a record
/// whose payload does not match its category, or whose identifier does
/// not match the event's — is discarded, and a lookup miss is a no-op.
pub fn general_handler(msg: &Action, state: &mut RSState) -> (r: RedrawType)
    requires
        old(state).wf(),
        !(*msg is ExitSignal),
        !(*msg is PADisconnected),
        !(*msg is RetryIn),
        !(*msg is ConnectToPA),
    ensures
        final(state).wf(),
        final(state).page_entries == old(state).page_entries,
        final(state).selected == old(state).selected,
        final(state).selected_context == old(state).selected_context,
        final(state).context_options == old(state).context_options,
        final(state).scroll == old(state).scroll,
        final(state).redraw == old(state).redraw,
        final(state).ui_mode == old(state).ui_mode,
        final(state).entries@ == spec_store_after_general(old(state).entries@, *msg),
        final(state).current_page == spec_page_after_general(old(state).current_page, *msg),
        r == spec_general_redraw(*msg),
        match *msg {
            Action::Redraw => r == RedrawType::Full && *final(state) == *old(state),
            Action::EntryUpdate(id, e) => {
                &&& r == RedrawType::Entries
                &&& final(state).current_page == old(state).current_page
                &&& if e@.wf() && ident_of(e@) == id {
                    final(state).entries.as_map() == old(state).entries.as_map().insert(id, e@)
                } else {
                    final(state).entries@ == old(state).entries@
                }
            },
            Action::EntryRemoved(id) => {
                &&& r == RedrawType::Entries
                &&& final(state).current_page == old(state).current_page
                &&& final(state).entries.as_map() == old(state).entries.as_map().remove(id)
            },
            Action::PeakVolumeUpdate(id, v) => {
                &&& r == RedrawType::PeakVolume(id)
                &&& final(state).current_page == old(state).current_page
                &&& final(state).entries@ == spec_set_peak(old(state).entries@, id, v)
            },
            Action::ChangePage(p) => {
                &&& r == RedrawType::Full
                &&& final(state).current_page == p
                &&& final(state).entries@ == old(state).entries@
            },
            Action::CyclePages(d) => {
                &&& r == RedrawType::Full
                &&& final(state).current_page == old(state).current_page.spec_cycled(d as int)
                &&& final(state).entries@ == old(state).entries@
            },
            _ => r == RedrawType::Skip && *final(state) == *old(state),
        },
{
    match msg {
        Action::Redraw => RedrawType::Full,
        Action::EntryUpdate(id, e) => {
            let ok = match &e.kind {
                EntryKind::Card(_) => e.entry_type == EntryType::Card,
                EntryKind::Play(_) => !(e.entry_type == EntryType::Card),
            };
            let same_id = e.entry_type == id.entry_type && e.index == id.index;
            if ok && same_id {
                state.entries.insert_or_update(e.duplicate());
            }
            RedrawType::Entries
        }
        Action::EntryRemoved(id) => {
            state.entries.remove(*id);
            RedrawType::Entries
        }
        Action::PeakVolumeUpdate(id, v) => {
            state.entries.set_peak(*id, *v);
            RedrawType::PeakVolume(*id)
        }
        Action::ChangePage(p) => {
            state.current_page = *p;
            RedrawType::Full
        }
        Action::CyclePages(d) => {
            state.current_page = state.current_page.cycled(*d);
            RedrawType::Full
        }
        _ => RedrawType::Skip,
    }
}

/// The handler of plain list navigation: moves the selection, opens the
/// context menu or the help overlay, and turns volume keys into backend
/// commands against the selected record.
pub fn normal_handler(msg: &Action, state: &mut RSState) -> (r: (RedrawType, Option<Command>))
    requires
        old(state).wf(),
        old(state).ui_mode is Normal,
    ensures
        final(state).wf(),
        final(state).ui_mode == spec_mode_after(
            old(state).ui_mode,
            *msg,
            old(state).entries@,
            old(state).page_entries.ids@,
            old(state).selected as int,
            old(state).selected_context as int,
            old(state).context_options@,
            old(state).current_page.spec_parent_child_types().0,
        ),
        r.0 == spec_mode_redraw(
            old(state).ui_mode,
            *msg,
            old(state).entries@,
            old(state).page_entries.ids@,
            old(state).selected as int,
        ),
        final(state).selected as int == spec_selection_after_mode(
            old(state).ui_mode,
            *msg,
            old(state).selected as int,
            old(state).page_entries.ids@.len() as int,
        ),
        final(state).selected_context as int == spec_selected_context_after(
            old(state).ui_mode,
            *msg,
            old(state).entries@,
            old(state).page_entries.ids@,
            old(state).selected as int,
            old(state).selected_context as int,
            old(state).context_options@.len() as int,
        ),
        final(state).context_options@ == spec_options_after(
            old(state).ui_mode,
            *msg,
            old(state).entries@,
            old(state).page_entries.ids@,
            old(state).selected as int,
            old(state).context_options@,
        ),
        spec_mode_command_ok(
            old(state).ui_mode,
            *msg,
            old(state).entries@,
            old(state).page_entries.ids@,
            old(state).selected as int,
            old(state).selected_context as int,
            old(state).context_options@,
            r.1,
        ),
        final(state).entries@ == old(state).entries@,
        final(state).page_entries == old(state).page_entries,
        final(state).current_page == old(state).current_page,
        final(state).scroll == old(state).scroll,
        final(state).redraw == old(state).redraw,
        match *msg {
            Action::MoveUp(n) => {
                &&& final(state).selected as int == if old(state).selected as int >= n as int {
                    old(state).selected - n as int
                } else {
                    0
                }
                &&& final(state).ui_mode == old(state).ui_mode
                &&& final(state).context_options == old(state).context_options
                &&& final(state).selected_context == old(state).selected_context
                &&& r == (RedrawType::Entries, Option::<Command>::None)
            },
            Action::MoveDown(n) => {
                let len = old(state).page_entries.ids@.len() as int;
                &&& final(state).selected as int == if len == 0 {
                    old(state).selected as int
                } else if old(state).selected + n < len {
                    old(state).selected + n as int
                } else {
                    len - 1
                }
                &&& final(state).ui_mode == old(state).ui_mode
                &&& final(state).context_options == old(state).context_options
                &&& final(state).selected_context == old(state).selected_context
                &&& r == (RedrawType::Entries, Option::<Command>::None)
            },
            Action::OpenContextMenu => {
                let st = *old(state);
                if st.selected < st.page_entries.ids@.len() && st.entries.spec_get(
                    st.page_entries.ids@[st.selected as int],
                ) is Some {
                    &&& final(state).context_options@ == spec_options(
                        st.entries.spec_get(st.page_entries.ids@[st.selected as int])->Some_0,
                    )
                    &&& final(state).selected_context == 0
                    &&& final(state).ui_mode is ContextMenu
                    &&& final(state).selected == old(state).selected
                    &&& r == (RedrawType::ContextMenu, Option::<Command>::None)
                } else {
                    *final(state) == *old(state) && r == (
                        RedrawType::Skip,
                        Option::<Command>::None,
                    )
                }
            },
            Action::ShowHelp => {
                &&& final(state).ui_mode is Help
                &&& final(state).selected == old(state).selected
                &&& final(state).context_options == old(state).context_options
                &&& final(state).selected_context == old(state).selected_context
                &&& r == (RedrawType::Full, Option::<Command>::None)
            },
            Action::RequestMute => {
                let st = *old(state);
                &&& *final(state) == *old(state)
                &&& r.0 == RedrawType::Skip
                &&& if st.selected < st.page_entries.ids@.len() {
                    let id = st.page_entries.ids@[st.selected as int];
                    match st.entries.spec_get(id) {
                        Some(e) => match e.kind {
                            EntryKindV::Play(p) => r.1 matches Some(Command::MuteEntry(mid, flag))
                                && mid == id && flag == !p.mute,
                            EntryKindV::Card(_) => r.1 is None,
                        },
                        None => r.1 is None,
                    }
                } else {
                    r.1 is None
                }
            },
            Action::RequestChangeVolume(d) => {
                let st = *old(state);
                &&& *final(state) == *old(state)
                &&& r.0 == RedrawType::Skip
                &&& if st.selected < st.page_entries.ids@.len() {
                    let id = st.page_entries.ids@[st.selected as int];
                    match st.entries.spec_get(id) {
                        Some(e) => match e.kind {
                            EntryKindV::Play(p) => r.1 matches Some(Command::SetVolume(mid, v))
                                && mid == id && v@.len() == p.volume.len() && forall|i: int|
                                0 <= i < p.volume.len() ==> v@[i] == spec_changed_volume(
                                    p.volume[i],
                                    d,
                                ),
                            EntryKindV::Card(_) => r.1 is None,
                        },
                        None => r.1 is None,
                    }
                } else {
                    r.1 is None
                }
            },
            _ => *final(state) == *old(state) && r == (RedrawType::Skip, Option::<Command>::None),
        },
{
    match msg {
        Action::MoveUp(n) => {
            let step = *n as usize;
            state.selected = if state.selected >= step {
                state.selected - step
            } else {
                0
            };
            (RedrawType::Entries, None)
        }
        Action::MoveDown(n) => {
            let len = state.page_entries.len();
            if len > 0 {
                let max_i = len - 1;
                let step = *n as usize;
                let room = max_i - state.selected;
                state.selected = if step <= room {
                    state.selected + step
                } else {
                    max_i
                };
            }
            (RedrawType::Entries, None)
        }
        Action::OpenContextMenu => {
            let picked: Option<Vec<ContextMenuOption>> = match state.page_entries.get(
                state.selected,
            ) {
                Some(id) => match state.entries.get(id) {
                    Some(e) => Some(options_for(e)),
                    None => None,
                },
                None => None,
            };
            match picked {
                Some(opts) => {
                    state.context_options = opts;
                    state.selected_context = 0;
                    state.ui_mode = UIMode::ContextMenu;
                    (RedrawType::ContextMenu, None)
                }
                None => (RedrawType::Skip, None),
            }
        }
        Action::ShowHelp => {
            state.ui_mode = UIMode::Help;
            (RedrawType::Full, None)
        }
        Action::RequestMute => {
            let cmd: Option<Command> = match state.page_entries.get(state.selected) {
                Some(id) => match state.entries.get(id) {
                    Some(e) => match &e.kind {
                        EntryKind::Play(p) => Some(Command::MuteEntry(id, !p.mute)),
                        EntryKind::Card(_) => None,
                    },
                    None => None,
                },
                None => None,
            };
            (RedrawType::Skip, cmd)
        }
        Action::RequestChangeVolume(d) => {
            let cmd: Option<Command> = match state.page_entries.get(state.selected) {
                Some(id) => match state.entries.get(id) {
                    Some(e) => match &e.kind {
                        EntryKind::Play(p) => Some(
                            Command::SetVolume(id, change_volume_vec(&p.volume, *d)),
                        ),
                        EntryKind::Card(_) => None,
                    },
                    None => None,
                },
                None => None,
            };
            (RedrawType::Skip, cmd)
        }
        _ => (RedrawType::Skip, None),
    }
}

/// What confirming the highlighted context-menu option does to the mode
/// and which command it produces, given the selected record.
pub open spec fn spec_confirm_outcome(opt: ContextMenuOption, id: EntryIdentifier, e: EntryV) -> (
    UIMode,
    Option<Command>,
) {
    match opt {
        ContextMenuOption::ToggleMute => (
            UIMode::Normal,
            match e.kind {
                EntryKindV::Play(p) => Some(Command::MuteEntry(id, !p.mute)),
                EntryKindV::Card(_) => None,
            },
        ),
        ContextMenuOption::ToggleSuspend => (
            UIMode::Normal,
            match e.kind {
                EntryKindV::Play(p) => Some(Command::SetSuspend(id, !p.suspended)),
                EntryKindV::Card(_) => None,
            },
        ),
        ContextMenuOption::Move => (UIMode::MoveEntry(id, None), None),
        ContextMenuOption::Kill => (UIMode::Normal, Some(Command::KillEntry(id))),
        ContextMenuOption::Profile(name) => (
            UIMode::Normal,
            Some(Command::ChangeCardProfile(id, name)),
        ),
    }
}

/// The selected record when the selection points at a live one: the pair
/// of its identifier and its stored value.
pub open spec fn spec_selected_live(
    s: Seq<EntryV>,
    ids: Seq<EntryIdentifier>,
    selected: int,
) -> Option<(EntryIdentifier, EntryV)> {
    if 0 <= selected < ids.len() {
        match spec_find(s, ids[selected]) {
            Some(e) => Some((ids[selected], e)),
            None => None,
        }
    } else {
        None
    }
}

/// The UI mode after the active mode's handler, as a function of the mode,
/// the event, and the state the handler reads: list navigation opens the
/// menu or the help overlay; the menu closes on cancel or confirm (confirm
/// on the move option enters move mode); help leaves on any decoded user
/// action other than a further help request; move mode steps its
/// highlighted target through the page's parent records (`pt`) and leaves
/// on confirm or cancel; the retry banner ignores everything.
pub open spec fn spec_mode_after(
    ui: UIMode,
    msg: Action,
    s: Seq<EntryV>,
    ids: Seq<EntryIdentifier>,
    selected: int,
    sc: int,
    opts: Seq<ContextMenuOption>,
    pt: EntryType,
) -> UIMode {
    match ui {
        UIMode::Normal => match msg {
            Action::OpenContextMenu => if spec_selected_live(s, ids, selected) is Some {
                UIMode::ContextMenu
            } else {
                UIMode::Normal
            },
            Action::ShowHelp => UIMode::Help,
            _ => UIMode::Normal,
        },
        UIMode::ContextMenu => match msg {
            Action::CloseContextMenu => UIMode::Normal,
            Action::Confirm => match spec_selected_live(s, ids, selected) {
                Some(p) => if 0 <= sc < opts.len() {
                    spec_confirm_outcome(opts[sc], p.0, p.1).0
                } else {
                    UIMode::Normal
                },
                None => UIMode::Normal,
            },
            _ => UIMode::ContextMenu,
        },
        UIMode::Help => match msg {
            Action::ShowHelp => UIMode::Help,
            Action::MoveUp(_) | Action::MoveDown(_) | Action::OpenContextMenu
                | Action::CloseContextMenu | Action::Confirm | Action::RequestMute
                | Action::RequestChangeVolume(_) | Action::InputVolumeValue | Action::Hide
                | Action::ChangePage(_) | Action::CyclePages(_) => UIMode::Normal,
            _ => UIMode::Help,
        },
        UIMode::MoveEntry(src, cand) => match msg {
            Action::MoveUp(_) | Action::MoveDown(_) => UIMode::MoveEntry(
                src,
                spec_step_candidate(spec_ids_of_type(s, pt), cand, msg is MoveUp),
            ),
            Action::Confirm | Action::CloseContextMenu => UIMode::Normal,
            _ => UIMode::MoveEntry(src, cand),
        },
        UIMode::RetryIn(t) => UIMode::RetryIn(t),
    }
}

/// The active mode handler's repaint proposal.
pub open spec fn spec_mode_redraw(
    ui: UIMode,
    msg: Action,
    s: Seq<EntryV>,
    ids: Seq<EntryIdentifier>,
    selected: int,
) -> RedrawType {
    match ui {
        UIMode::Normal => match msg {
            Action::MoveUp(_) | Action::MoveDown(_) => RedrawType::Entries,
            Action::OpenContextMenu => if spec_selected_live(s, ids, selected) is Some {
                RedrawType::ContextMenu
            } else {
                RedrawType::Skip
            },
            Action::ShowHelp => RedrawType::Full,
            _ => RedrawType::Skip,
        },
        UIMode::ContextMenu => match msg {
            Action::MoveUp(_) | Action::MoveDown(_) => RedrawType::ContextMenu,
            Action::CloseContextMenu | Action::Confirm => RedrawType::Full,
            _ => RedrawType::Skip,
        },
        UIMode::Help => match msg {
            Action::ShowHelp => RedrawType::Full,
            Action::MoveUp(_) | Action::MoveDown(_) | Action::OpenContextMenu
                | Action::CloseContextMenu | Action::Confirm | Action::RequestMute
                | Action::RequestChangeVolume(_) | Action::InputVolumeValue | Action::Hide
                | Action::ChangePage(_) | Action::CyclePages(_) => RedrawType::Full,
            _ => RedrawType::Skip,
        },
        UIMode::MoveEntry(_, _) => match msg {
            Action::MoveUp(_) | Action::MoveDown(_) => RedrawType::Entries,
            Action::Confirm | Action::CloseContextMenu => RedrawType::Full,
            _ => RedrawType::Skip,
        },
        UIMode::RetryIn(_) => RedrawType::Skip,
    }
}

/// The selected row after the active mode's handler: only plain list
/// navigation moves it, by `n` rows, saturating at the ends.
pub open spec fn spec_selection_after_mode(
    ui: UIMode,
    msg: Action,
    selected: int,
    page_len: int,
) -> int {
    match ui {
        UIMode::Normal => match msg {
            Action::MoveUp(n) => if selected >= n as int {
                selected - n as int
            } else {
                0
            },
            Action::MoveDown(n) => if page_len == 0 {
                selected
            } else if selected + n < page_len {
                selected + n as int
            } else {
                page_len - 1
            },
            _ => selected,
        },
        _ => selected,
    }
}

/// The highlighted context-menu row after the active mode's handler:
/// opening the menu rests it at the top; navigation inside the menu moves
/// it by `n` rows, saturating at the ends.
pub open spec fn spec_selected_context_after(
    ui: UIMode,
    msg: Action,
    s: Seq<EntryV>,
    ids: Seq<EntryIdentifier>,
    selected: int,
    sc: int,
    opts_len: int,
) -> int {
    match ui {
        UIMode::Normal => match msg {
            Action::OpenContextMenu => if spec_selected_live(s, ids, selected) is Some {
                0
            } else {
                sc
            },
            _ => sc,
        },
        UIMode::ContextMenu => match msg {
            Action::MoveUp(n) => if sc >= n as int {
                sc - n as int
            } else {
                0
            },
            Action::MoveDown(n) => if opts_len == 0 {
                sc
            } else if sc + n < opts_len {
                sc + n as int
            } else {
                opts_len - 1
            },
            _ => sc,
        },
        _ => sc,
    }
}

/// The context-menu option list after the active mode's handler: only
/// opening the menu replaces it, with the selected record's options.
pub open spec fn spec_options_after(
    ui: UIMode,
    msg: Action,
    s: Seq<EntryV>,
    ids: Seq<EntryIdentifier>,
    selected: int,
    opts: Seq<ContextMenuOption>,
) -> Seq<ContextMenuOption> {
    match ui {
        UIMode::Normal => match msg {
            Action::OpenContextMenu => match spec_selected_live(s, ids, selected) {
                Some(p) => spec_options(p.1),
                None => opts,
            },
            _ => opts,
        },
        _ => opts,
    }
}

/// What the active mode's handler hands the backend: exactly the command
/// the mode and event call for against the selected record, or nothing.
pub open spec fn spec_mode_command_ok(
    ui: UIMode,
    msg: Action,
    s: Seq<EntryV>,
    ids: Seq<EntryIdentifier>,
    selected: int,
    sc: int,
    opts: Seq<ContextMenuOption>,
    c: Option<Command>,
) -> bool {
    match ui {
        UIMode::Normal => match msg {
            Action::RequestMute => match spec_selected_live(s, ids, selected) {
                Some(p) => match p.1.kind {
                    EntryKindV::Play(pl) => c == Some(Command::MuteEntry(p.0, !pl.mute)),
                    EntryKindV::Card(_) => c is None,
                },
                None => c is None,
            },
            Action::RequestChangeVolume(d) => match spec_selected_live(s, ids, selected) {
                Some(p) => match p.1.kind {
                    EntryKindV::Play(pl) => c matches Some(Command::SetVolume(mid, v)) && mid
                        == p.0 && v@.len() == pl.volume.len() && forall|i: int|
                        0 <= i < pl.volume.len() ==> v@[i] == spec_changed_volume(pl.volume[i], d),
                    EntryKindV::Card(_) => c is None,
                },
                None => c is None,
            },
            _ => c is None,
        },
        UIMode::ContextMenu => match msg {
            Action::Confirm => match spec_selected_live(s, ids, selected) {
                Some(p) => if 0 <= sc < opts.len() {
                    c == spec_confirm_outcome(opts[sc], p.0, p.1).1
                } else {
                    c is None
                },
                None => c is None,
            },
            _ => c is None,
        },
        UIMode::MoveEntry(src, cand) => match msg {
            Action::Confirm => match cand {
                Some(t) => c == Some(Command::MoveEntryToParent(src, t)),
                None => c is None,
            },
            _ => c is None,
        },
        _ => c is None,
    }
}

/// The handler of the open context menu: moves the highlight, closes the
/// menu, or applies the highlighted option — turning it into a backend
/// command and returning to normal mode (or entering move mode).
pub fn context_menu_handler(msg: &Action, state: &mut RSState) -> (r: (RedrawType, Option<Command>))
    requires
        old(state).wf(),
        old(state).ui_mode is ContextMenu,
    ensures
        final(state).wf(),
        final(state).ui_mode == spec_mode_after(
            old(state).ui_mode,
            *msg,
            old(state).entries@,
            old(state).page_entries.ids@,
            old(state).selected as int,
            old(state).selected_context as int,
            old(state).context_options@,
            old(state).current_page.spec_parent_child_types().0,
        ),
        r.0 == spec_mode_redraw(
            old(state).ui_mode,
            *msg,
            old(state).entries@,
            old(state).page_entries.ids@,
            old(state).selected as int,
        ),
        final(state).selected as int == spec_selection_after_mode(
            old(state).ui_mode,
            *msg,
            old(state).selected as int,
            old(state).page_entries.ids@.len() as int,
        ),
        final(state).selected_context as int == spec_selected_context_after(
            old(state).ui_mode,
            *msg,
            old(state).entries@,
            old(state).page_entries.ids@,
            old(state).selected as int,
            old(state).selected_context as int,
            old(state).context_options@.len() as int,
        ),
        final(state).context_options@ == spec_options_after(
            old(state).ui_mode,
            *msg,
            old(state).entries@,
            old(state).page_entries.ids@,
            old(state).selected as int,
            old(state).context_options@,
        ),
        spec_mode_command_ok(
            old(state).ui_mode,
            *msg,
            old(state).entries@,
            old(state).page_entries.ids@,
            old(state).selected as int,
            old(state).selected_context as int,
            old(state).context_options@,
            r.1,
        ),
        final(state).entries@ == old(state).entries@,
        final(state).page_entries == old(state).page_entries,
        final(state).current_page == old(state).current_page,
        final(state).scroll == old(state).scroll,
        final(state).redraw == old(state).redraw,
        final(state).selected == old(state).selected,
        final(state).context_options == old(state).context_options,
        match *msg {
            Action::MoveUp(n) => {
                &&& final(state).selected_context as int == if old(state).selected_context as int
                    >= n as int {
                    old(state).selected_context - n as int
                } else {
                    0
                }
                &&& final(state).ui_mode == old(state).ui_mode
                &&& r == (RedrawType::ContextMenu, Option::<Command>::None)
            },
            Action::MoveDown(n) => {
                let len = old(state).context_options@.len() as int;
                &&& final(state).selected_context as int == if len == 0 {
                    old(state).selected_context as int
                } else if old(state).selected_context + n < len {
                    old(state).selected_context + n as int
                } else {
                    len - 1
                }
                &&& final(state).ui_mode == old(state).ui_mode
                &&& r == (RedrawType::ContextMenu, Option::<Command>::None)
            },
            Action::CloseContextMenu => {
                &&& final(state).ui_mode is Normal
                &&& final(state).selected_context == old(state).selected_context
                &&& r == (RedrawType::Full, Option::<Command>::None)
            },
            Action::Confirm => {
                let st = *old(state);
                &&& final(state).selected_context == old(state).selected_context
                &&& r.0 == RedrawType::Full
                &&& if st.selected < st.page_entries.ids@.len() && st.selected_context
                    < st.context_options@.len() && st.entries.spec_get(
                    st.page_entries.ids@[st.selected as int],
                ) is Some {
                    let id = st.page_entries.ids@[st.selected as int];
                    let e = st.entries.spec_get(id)->Some_0;
                    let outcome = spec_confirm_outcome(
                        st.context_options@[st.selected_context as int],
                        id,
                        e,
                    );
                    final(state).ui_mode == outcome.0 && r.1 == outcome.1
                } else {
                    final(state).ui_mode is Normal && r.1 is None
                }
            },
            _ => *final(state) == *old(state) && r == (RedrawType::Skip, Option::<Command>::None),
        },
{
    match msg {
        Action::MoveUp(n) => {
            let step = *n as usize;
            state.selected_context = if state.selected_context >= step {
                state.selected_context - step
            } else {
                0
            };
            (RedrawType::ContextMenu, None)
        }
        Action::MoveDown(n) => {
            let len = state.context_options.len();
            if len > 0 {
                let max_i = len - 1;
                let step = *n as usize;
                let room = max_i - state.selected_context;
                state.selected_context = if step <= room {
                    state.selected_context + step
                } else {
                    max_i
                };
            }
            (RedrawType::ContextMenu, None)
        }
        Action::CloseContextMenu => {
            state.ui_mode = UIMode::Normal;
            (RedrawType::Full, None)
        }
        Action::Confirm => {
            let mut next_mode = UIMode::Normal;
            let mut cmd: Option<Command> = None;
            if state.selected_context < state.context_options.len() {
                match state.page_entries.get(state.selected) {
                    Some(id) => match state.entries.get(id) {
                        Some(e) => {
                            match &state.context_options[state.selected_context] {
                                ContextMenuOption::ToggleMute => {
                                    match &e.kind {
                                        EntryKind::Play(p) => {
                                            cmd = Some(Command::MuteEntry(id, !p.mute));
                                        }
                                        EntryKind::Card(_) => {}
                                    }
                                }
                                ContextMenuOption::ToggleSuspend => {
                                    match &e.kind {
                                        EntryKind::Play(p) => {
                                            cmd = Some(Command::SetSuspend(id, !p.suspended));
                                        }
                                        EntryKind::Card(_) => {}
                                    }
                                }
                                ContextMenuOption::Move => {
                                    next_mode = UIMode::MoveEntry(id, None);
                                }
                                ContextMenuOption::Kill => {
                                    cmd = Some(Command::KillEntry(id));
                                }
                                ContextMenuOption::Profile(name) => {
                                    cmd = Some(Command::ChangeCardProfile(id, name.clone()));
                                }
                            }
                        }
                        None => {}
                    },
                    None => {}
                }
            }
            state.ui_mode = next_mode;
            (RedrawType::Full, cmd)
        }
        _ => (RedrawType::Skip, None),
    }
}

/// The handler of the help overlay: any decoded user action other than a
/// further help request leaves the overlay; backend pushes and repaints
/// keep it up.
pub fn help_handler(msg: &Action, state: &mut RSState) -> (r: (RedrawType, Option<Command>))
    requires
        old(state).wf(),
        old(state).ui_mode is Help,
    ensures
        final(state).wf(),
        final(state).ui_mode == spec_mode_after(
            old(state).ui_mode,
            *msg,
            old(state).entries@,
            old(state).page_entries.ids@,
            old(state).selected as int,
            old(state).selected_context as int,
            old(state).context_options@,
            old(state).current_page.spec_parent_child_types().0,
        ),
        r.0 == spec_mode_redraw(
            old(state).ui_mode,
            *msg,
            old(state).entries@,
            old(state).page_entries.ids@,
            old(state).selected as int,
        ),
        final(state).selected as int == spec_selection_after_mode(
            old(state).ui_mode,
            *msg,
            old(state).selected as int,
            old(state).page_entries.ids@.len() as int,
        ),
        final(state).selected_context as int == spec_selected_context_after(
            old(state).ui_mode,
            *msg,
            old(state).entries@,
            old(state).page_entries.ids@,
            old(state).selected as int,
            old(state).selected_context as int,
            old(state).context_options@.len() as int,
        ),
        final(state).context_options@ == spec_options_after(
            old(state).ui_mode,
            *msg,
            old(state).entries@,
            old(state).page_entries.ids@,
            old(state).selected as int,
            old(state).context_options@,
        ),
        spec_mode_command_ok(
            old(state).ui_mode,
            *msg,
            old(state).entries@,
            old(state).page_entries.ids@,
            old(state).selected as int,
            old(state).selected_context as int,
            old(state).context_options@,
            r.1,
        ),
        final(state).entries@ == old(state).entries@,
        final(state).page_entries == old(state).page_entries,
        final(state).current_page == old(state).current_page,
        final(state).scroll == old(state).scroll,
        final(state).redraw == old(state).redraw,
        final(state).selected == old(state).selected,
        final(state).selected_context == old(state).selected_context,
        final(state).context_options == old(state).context_options,
        r.1 is None,
        match *msg {
            Action::ShowHelp => final(state).ui_mode is Help && r.0 == RedrawType::Full,
            Action::MoveUp(_) | Action::MoveDown(_) | Action::OpenContextMenu
                | Action::CloseContextMenu | Action::Confirm | Action::RequestMute
                | Action::RequestChangeVolume(_) | Action::InputVolumeValue | Action::Hide
                | Action::ChangePage(_) | Action::CyclePages(_) => {
                &&& final(state).ui_mode is Normal
                &&& r.0 == RedrawType::Full
            },
            _ => final(state).ui_mode == old(state).ui_mode && r.0 == RedrawType::Skip,
        },
{
    match msg {
        Action::ShowHelp => {
            state.ui_mode = UIMode::Help;
            (RedrawType::Full, None)
        }
        Action::MoveUp(_)
        | Action::MoveDown(_)
        | Action::OpenContextMenu
        | Action::CloseContextMenu
        | Action::Confirm
        | Action::RequestMute
        | Action::RequestChangeVolume(_)
        | Action::InputVolumeValue
        | Action::Hide
        | Action::ChangePage(_)
        | Action::CyclePages(_) => {
            state.ui_mode = UIMode::Normal;
            (RedrawType::Full, None)
        }
        _ => (RedrawType::Skip, None),
    }
}

/// The target device highlighted after one navigation step in move mode:
/// nothing changes when the page has no parent records; an unset or stale
/// highlight lands on the first parent; otherwise the highlight moves one
/// parent up or down, stopping at the ends.
pub open spec fn spec_step_candidate(
    parents: Seq<EntryIdentifier>,
    cand: Option<EntryIdentifier>,
    up: bool,
) -> Option<EntryIdentifier> {
    if parents.len() == 0 {
        cand
    } else {
        match cand {
            None => Some(parents[0]),
            Some(c) => match spec_first_pos(parents, c) {
                None => Some(parents[0]),
                Some(i) => {
                    let k: int = if up {
                        if i == 0 {
                            0
                        } else {
                            i - 1
                        }
                    } else {
                        if i + 1 < parents.len() {
                            i + 1
                        } else {
                            parents.len() - 1
                        }
                    };
                    Some(parents[k])
                },
            },
        }
    }
}

/// The handler of move mode: steps the highlighted target device through
/// the page's parent records, commits the reparenting as a backend
/// command, or cancels.
#[verifier::rlimit(60)]
pub fn move_entry_handler(msg: &Action, state: &mut RSState) -> (r: (RedrawType, Option<Command>))
    requires
        old(state).wf(),
        old(state).ui_mode is MoveEntry,
    ensures
        final(state).wf(),
        final(state).ui_mode == spec_mode_after(
            old(state).ui_mode,
            *msg,
            old(state).entries@,
            old(state).page_entries.ids@,
            old(state).selected as int,
            old(state).selected_context as int,
            old(state).context_options@,
            old(state).current_page.spec_parent_child_types().0,
        ),
        r.0 == spec_mode_redraw(
            old(state).ui_mode,
            *msg,
            old(state).entries@,
            old(state).page_entries.ids@,
            old(state).selected as int,
        ),
        final(state).selected as int == spec_selection_after_mode(
            old(state).ui_mode,
            *msg,
            old(state).selected as int,
            old(state).page_entries.ids@.len() as int,
        ),
        final(state).selected_context as int == spec_selected_context_after(
            old(state).ui_mode,
            *msg,
            old(state).entries@,
            old(state).page_entries.ids@,
            old(state).selected as int,
            old(state).selected_context as int,
            old(state).context_options@.len() as int,
        ),
        final(state).context_options@ == spec_options_after(
            old(state).ui_mode,
            *msg,
            old(state).entries@,
            old(state).page_entries.ids@,
            old(state).selected as int,
            old(state).context_options@,
        ),
        spec_mode_command_ok(
            old(state).ui_mode,
            *msg,
            old(state).entries@,
            old(state).page_entries.ids@,
            old(state).selected as int,
            old(state).selected_context as int,
            old(state).context_options@,
            r.1,
        ),
        final(state).entries@ == old(state).entries@,
        final(state).page_entries == old(state).page_entries,
        final(state).current_page == old(state).current_page,
        final(state).scroll == old(state).scroll,
        final(state).redraw == old(state).redraw,
        final(state).selected == old(state).selected,
        final(state).selected_context == old(state).selected_context,
        final(state).context_options == old(state).context_options,
        match *msg {
            Action::MoveUp(_) | Action::MoveDown(_) => (old(
                state,
            ).ui_mode matches UIMode::MoveEntry(src, cand) ==> {
                let parents = crate::entry::spec_ids_of_type(
                    old(state).entries@,
                    old(state).current_page.spec_parent_child_types().0,
                );
                &&& r == (RedrawType::Entries, Option::<Command>::None)
                &&& final(state).ui_mode == UIMode::MoveEntry(
                    src,
                    spec_step_candidate(parents, cand, *msg is MoveUp),
                )
            }),
            Action::Confirm => (old(state).ui_mode matches UIMode::MoveEntry(src, cand) ==> {
                &&& final(state).ui_mode is Normal
                &&& r.0 == RedrawType::Full
                &&& match cand {
                    Some(t) => r.1 matches Some(Command::MoveEntryToParent(s2, t2)) && s2 == src
                        && t2 == t,
                    None => r.1 is None,
                }
            }),
            Action::CloseContextMenu => final(state).ui_mode is Normal && r == (
                RedrawType::Full,
                Option::<Command>::None,
            ),
            _ => *final(state) == *old(state) && r == (RedrawType::Skip, Option::<Command>::None),
        },
{
    let (src, cand) = match state.ui_mode {
        UIMode::MoveEntry(s, c) => (s, c),
        _ => {
            proof {
                assert(false);
            }
            (EntryIdentifier::new(EntryType::Sink, 0), None)
        }
    };
    match msg {
        Action::MoveUp(_) | Action::MoveDown(_) => {
            let up = match msg {
                Action::MoveUp(_) => true,
                _ => false,
            };
            let (pt, _ct) = state.current_page.parent_child_types();
            let parents = state.entries.iter_type(pt);
            if parents.len() > 0 {
                let ni: usize = match cand {
                    None => 0,
                    Some(c) => match first_pos(&parents, c) {
                        None => 0,
                        Some(i) => if up {
                            if i == 0 {
                                0
                            } else {
                                i - 1
                            }
                        } else {
                            if i + 1 < parents.len() {
                                i + 1
                            } else {
                                parents.len() - 1
                            }
                        },
                    },
                };
                let c2 = parents[ni];
                state.ui_mode = UIMode::MoveEntry(src, Some(c2));
            }
            (RedrawType::Entries, None)
        }
        Action::Confirm => {
            state.ui_mode = UIMode::Normal;
            match cand {
                Some(t) => (RedrawType::Full, Some(Command::MoveEntryToParent(src, t))),
                None => (RedrawType::Full, None),
            }
        }
        Action::CloseContextMenu => {
            state.ui_mode = UIMode::Normal;
            (RedrawType::Full, None)
        }
        _ => (RedrawType::Skip, None),
    }
}

/// What one processed event hands back to the loop around the core: the
/// merged repaint instruction, the commands for the backend, and whether
/// the application must stop.
pub struct EventOutcome {
    pub redraw: RedrawType,
    pub commands: Vec<Command>,
    pub exit: bool,
}

/// Events the ordinary handler chain runs for; the four lifecycle events
/// are decided before the chain.
pub open spec fn is_chain_event(msg: Action) -> bool {
    !(msg is ExitSignal || msg is PADisconnected || msg is RetryIn || msg is ConnectToPA)
}

/// Route one inbound event: the exit signal stops the loop untouched; a
/// disconnect clears all entity state (to normal mode, with a command
/// emptying the monitor set, or to the retry countdown); a reconnect
/// starts state afresh.  Every other event runs the chain — generic
/// handler, entry-hierarchy handler, the active mode's handler, scroll
/// handler — whose repaint proposals merge through the redraw lattice and
/// whose commands are collected in order.
pub fn process_event(state: &mut RSState, msg: &Action, page_height: usize) -> (r: EventOutcome)
    requires
        old(state).wf(),
        page_height >= 1,
    ensures
        final(state).wf(),
        r.exit == (*msg is ExitSignal),
        *msg is ExitSignal ==> *final(state) == *old(state) && r.redraw == RedrawType::Exit
            && r.commands@.len() == 0,
        *msg is PADisconnected ==> final(state).is_reset() && final(state).ui_mode is Normal
            && r.redraw == RedrawType::Full && r.commands@.len() == 1 && (
        r.commands@[0] matches Command::CreateMonitors(m) && m@.len() == 0),
        *msg matches Action::RetryIn(t) ==> final(state).is_reset() && final(state).ui_mode
            == UIMode::RetryIn(t) && r.redraw == RedrawType::Full && r.commands@.len() == 0,
        *msg is ConnectToPA ==> final(state).is_reset() && final(state).ui_mode is Normal
            && r.redraw == RedrawType::Full && r.commands@.len() == 0,
        is_chain_event(*msg) ==> {
            &&& final(state).redraw == r.redraw
            &&& final(state).selected < final(state).page_entries.ids@.len()
                || final(state).selected == 0
            &&& final(state).scroll <= final(state).selected
            &&& final(state).selected < final(state).scroll + page_height
        },
        (is_chain_event(*msg) && crate::entries_updates::is_refresh_event(*msg))
            ==> final(state).page_entries.ids@ == crate::page::spec_generate_page(
            final(state).entries@,
            final(state).current_page,
        ),
        // The ordered composition of the chain: the generic handler's store
        // and page transition, the entry-hierarchy handler's re-projection,
        // monitor command and selection remap, the active mode's handler
        // transition and command, the scroll adjustment, and the repaint
        // instruction merged from the four proposals (a viewport move alone
        // contributes an `Entries` repaint).
        is_chain_event(*msg) ==> {
            let st = *old(state);
            let page1 = spec_page_after_general(st.current_page, *msg);
            let pt = page1.spec_parent_child_types().0;
            let ct = page1.spec_parent_child_types().1;
            let refresh = crate::entries_updates::is_refresh_event(*msg);
            let store_g = spec_store_after_general(st.entries@, *msg);
            let store_f = if refresh {
                crate::page::spec_recompute(
                    crate::entries_updates::spec_store_after_toggle(
                        *msg,
                        store_g,
                        st.page_entries.ids@,
                        st.selected as int,
                    ),
                    pt,
                    ct,
                )
            } else {
                store_g
            };
            let ids_f = if refresh {
                crate::page::spec_generate_page(store_f, page1)
            } else {
                st.page_entries.ids@
            };
            let changed = refresh && !(st.page_entries.ids@ == ids_f
                && st.page_entries.parent_type == pt);
            let sel_h = if refresh {
                crate::entries_updates::spec_projected_selection(
                    crate::entries_updates::spec_follow_ident(st),
                    ids_f,
                )
            } else {
                st.selected as int
            };
            let sel_m = spec_selection_after_mode(st.ui_mode, *msg, sel_h, ids_f.len() as int);
            let moved = final(state).scroll != st.scroll || final(state).selected as int != sel_m;
            let hier_r = if changed {
                RedrawType::Entries
            } else {
                RedrawType::Skip
            };
            let mode_r = spec_mode_redraw(
                st.ui_mode,
                *msg,
                st.entries@,
                st.page_entries.ids@,
                st.selected as int,
            );
            &&& final(state).current_page == page1
            &&& final(state).entries@ == store_f
            &&& final(state).page_entries.ids@ == ids_f
            &&& refresh ==> final(state).page_entries.parent_type == pt
            &&& !refresh ==> final(state).page_entries == st.page_entries
            &&& final(state).ui_mode == spec_mode_after(
                st.ui_mode,
                *msg,
                st.entries@,
                st.page_entries.ids@,
                st.selected as int,
                st.selected_context as int,
                st.context_options@,
                pt,
            )
            &&& final(state).selected as int == crate::scroll::spec_clamped_selected(
                sel_m,
                ids_f.len() as int,
            )
            &&& final(state).scroll as int == if ids_f.len() == 0 {
                0
            } else {
                crate::scroll::spec_adjusted_scroll(
                    st.scroll as int,
                    final(state).selected as int,
                    page_height as int,
                )
            }
            &&& final(state).selected_context as int == spec_selected_context_after(
                st.ui_mode,
                *msg,
                st.entries@,
                st.page_entries.ids@,
                st.selected as int,
                st.selected_context as int,
                st.context_options@.len() as int,
            )
            &&& final(state).context_options@ == spec_options_after(
                st.ui_mode,
                *msg,
                st.entries@,
                st.page_entries.ids@,
                st.selected as int,
                st.context_options@,
            )
            &&& r.redraw == RedrawType::spec_merge(
                RedrawType::spec_merge(
                    RedrawType::spec_merge(spec_general_redraw(*msg), hier_r),
                    mode_r,
                ),
                if moved {
                    RedrawType::Entries
                } else {
                    RedrawType::Skip
                },
            )
            &&& r.commands@.len() <= 2
            &&& if changed {
                &&& r.commands@.len() >= 1
                &&& (r.commands@[0] matches Command::CreateMonitors(m) && m@ == if page1 is Cards {
                    Seq::<(EntryIdentifier, Option<u32>)>::empty()
                } else {
                    crate::monitor::spec_monitor_list(store_f, ids_f)
                })
                &&& spec_mode_command_ok(
                    st.ui_mode,
                    *msg,
                    st.entries@,
                    st.page_entries.ids@,
                    st.selected as int,
                    st.selected_context as int,
                    st.context_options@,
                    if r.commands@.len() == 2 {
                        Some(r.commands@[1])
                    } else {
                        None
                    },
                )
            } else {
                &&& r.commands@.len() <= 1
                &&& spec_mode_command_ok(
                    st.ui_mode,
                    *msg,
                    st.entries@,
                    st.page_entries.ids@,
                    st.selected as int,
                    st.selected_context as int,
                    st.context_options@,
                    if r.commands@.len() == 1 {
                        Some(r.commands@[0])
                    } else {
                        None
                    },
                )
            }
        },
{
    match msg {
        Action::ExitSignal => {
            return EventOutcome { redraw: RedrawType::Exit, commands: Vec::new(), exit: true };
        }
        Action::PADisconnected => {
            let mut commands: Vec<Command> = Vec::new();
            commands.push(Command::CreateMonitors(Vec::new()));
            *state = RSState::default();
            state.redraw = RedrawType::Full;
            return EventOutcome { redraw: RedrawType::Full, commands, exit: false };
        }
        Action::RetryIn(t) => {
            *state = RSState::default();
            state.ui_mode = UIMode::RetryIn(*t);
            state.redraw = RedrawType::Full;
            return EventOutcome { redraw: RedrawType::Full, commands: Vec::new(), exit: false };
        }
        Action::ConnectToPA => {
            *state = RSState::default();
            state.redraw = RedrawType::Full;
            return EventOutcome { redraw: RedrawType::Full, commands: Vec::new(), exit: false };
        }
        _ => {}
    }

    let mut commands: Vec<Command> = Vec::new();
    let mut redraw = general_handler(msg, state);

    let (hierarchy_redraw, hierarchy_cmd) = action_handler(msg, state);
    hierarchy_redraw.apply(&mut redraw);
    match hierarchy_cmd {
        Some(c) => commands.push(c),
        None => {}
    }

    let mode = state.ui_mode;
    let (mode_redraw, mode_cmd) = match mode {
        UIMode::Normal => normal_handler(msg, state),
        UIMode::ContextMenu => context_menu_handler(msg, state),
        UIMode::Help => help_handler(msg, state),
        UIMode::MoveEntry(_, _) => move_entry_handler(msg, state),
        UIMode::RetryIn(_) => (RedrawType::Skip, None),
    };
    mode_redraw.apply(&mut redraw);
    match mode_cmd {
        Some(c) => commands.push(c),
        None => {}
    }

    let page_len = state.page_entries.len();
    let moved = adjust_scroll(&mut state.scroll, &mut state.selected, page_height, page_len);
    if moved {
        RedrawType::Entries.apply(&mut redraw);
    }

    state.redraw = redraw;
    EventOutcome { redraw, commands, exit: false }
}

} // verus!


