//! The entry-hierarchy handler: runs for every event, and re-projects the
//! page whenever the event could have changed the store or the hide state.

use crate::actions::{Action, Command};
use crate::entry::{spec_toggle_hide, EntryIdentifier, EntryV};
use crate::monitor::{monitor_list, spec_monitor_list};
use crate::page::{
    first_pos, generate_page, recompute_hidden, spec_first_pos, spec_generate_page, spec_recompute,
    PageType,
};
use crate::redraw::RedrawType;
use crate::state::{RSState, UIMode};
use vstd::prelude::*;

verus! {

/// The events after which the page must be re-projected: anything that
/// may have changed membership, parentage, the active page, or hide state.
pub open spec fn is_refresh_event(msg: Action) -> bool {
    ||| msg is Redraw
    ||| msg is EntryRemoved
    ||| msg is EntryUpdate
    ||| msg is ChangePage
    ||| msg is CyclePages
    ||| msg is Hide
}

/// The store after the hide toggle a `Hide` event applies to the selected
/// record; any other event leaves the store alone here.
pub open spec fn spec_store_after_toggle(
    msg: Action,
    entries: Seq<EntryV>,
    page_ids: Seq<EntryIdentifier>,
    selected: int,
) -> Seq<EntryV> {
    if msg is Hide && 0 <= selected < page_ids.len() {
        spec_toggle_hide(entries, page_ids[selected])
    } else {
        entries
    }
}

/// The row the selection lands on after a re-projection: the first row
/// showing the followed identifier, or the top row when it is not shown.
pub open spec fn spec_projected_selection(
    follow: Option<EntryIdentifier>,
    ids: Seq<EntryIdentifier>,
) -> int {
    match follow {
        None => 0,
        Some(x) => match spec_first_pos(ids, x) {
            Some(i) => i,
            None => 0,
        },
    }
}

/// The identifier the selection follows across a re-projection: the
/// record being moved while in move mode, else the record selected before.
pub open spec fn spec_follow_ident(st: RSState) -> Option<EntryIdentifier> {
    match st.ui_mode {
        UIMode::MoveEntry(src, _) => Some(src),
        _ => if st.selected < st.page_entries.ids@.len() {
            Some(st.page_entries.ids@[st.selected as int])
        } else {
            None
        },
    }
}

/// Re-project the page after an event that may have changed it: apply a
/// pending hide toggle, recompute every parent's aggregated hide status,
/// regenerate the visible sequence, remap the selection onto the record
/// it was following (first occurrence, else row 0), and, when the visible
/// sequence changed, propose an `Entries` repaint together with a
/// `CreateMonitors` command holding the new desired-subscription set (the
/// cards page subscribes nothing).  Events that cannot change the page
/// leave the state alone and propose nothing.
pub fn action_handler(msg: &Action, state: &mut RSState) -> (r: (RedrawType, Option<Command>))
    requires
        old(state).wf(),
    ensures
        final(state).wf(),
        !is_refresh_event(*msg) ==> *final(state) == *old(state) && r.0 == RedrawType::Skip
            && r.1 is None,
        is_refresh_event(*msg) ==> {
            let pt = old(state).current_page.spec_parent_child_types().0;
            let ct = old(state).current_page.spec_parent_child_types().1;
            let toggled = spec_store_after_toggle(
                *msg,
                old(state).entries@,
                old(state).page_entries.ids@,
                old(state).selected as int,
            );
            let new_ids = spec_generate_page(spec_recompute(toggled, pt, ct), old(state).current_page);
            let changed = !(old(state).page_entries.ids@ == new_ids && old(
                state,
            ).page_entries.parent_type == pt);
            &&& final(state).entries@ == spec_recompute(toggled, pt, ct)
            &&& final(state).page_entries.ids@ == new_ids
            &&& final(state).page_entries.parent_type == pt
            &&& final(state).current_page == old(state).current_page
            &&& final(state).ui_mode == old(state).ui_mode
            &&& final(state).scroll == old(state).scroll
            &&& final(state).redraw == old(state).redraw
            &&& final(state).selected_context == old(state).selected_context
            &&& final(state).context_options == old(state).context_options
            &&& final(state).selected as int == spec_projected_selection(
                spec_follow_ident(*old(state)),
                new_ids,
            )
            &&& match spec_follow_ident(*old(state)) {
                Some(x) => if new_ids.contains(x) {
                    &&& (final(state).selected as int) < new_ids.len()
                    &&& new_ids[final(state).selected as int] == x
                    &&& forall|j: int| 0 <= j < final(state).selected ==> new_ids[j] != x
                } else {
                    final(state).selected == 0
                },
                None => final(state).selected == 0,
            }
            &&& r.0 == if changed {
                RedrawType::Entries
            } else {
                RedrawType::Skip
            }
            &&& if changed {
                r.1 matches Some(Command::CreateMonitors(m)) && m@ == if old(
                    state,
                ).current_page is Cards {
                    Seq::<(EntryIdentifier, Option<u32>)>::empty()
                } else {
                    spec_monitor_list(final(state).entries@, new_ids)
                }
            } else {
                r.1 is None
            }
        },
{
    match msg {
        Action::Redraw
        | Action::EntryRemoved(_)
        | Action::EntryUpdate(_, _)
        | Action::ChangePage(_)
        | Action::CyclePages(_) => {}
        Action::Hide => {
            match state.page_entries.get(state.selected) {
                Some(sel_id) => {
                    state.entries.toggle_hide(sel_id);
                }
                None => {}
            }
        }
        _ => {
            return (RedrawType::Skip, None);
        }
    }

    let follow: Option<EntryIdentifier> = match state.ui_mode {
        UIMode::MoveEntry(src, _) => Some(src),
        _ => state.page_entries.get(state.selected),
    };

    let (pt, _ct) = state.current_page.parent_child_types();
    recompute_hidden(&mut state.entries, state.current_page);
    let new_ids = generate_page(&state.entries, state.current_page);
    let changed = state.page_entries.set(new_ids, pt);

    match follow {
        Some(x) => {
            match first_pos(&state.page_entries.ids, x) {
                Some(i) => {
                    state.selected = i;
                }
                None => {
                    state.selected = 0;
                }
            }
        }
        None => {
            state.selected = 0;
        }
    }

    if changed {
        let cmd = if state.current_page == PageType::Cards {
            Command::CreateMonitors(Vec::new())
        } else {
            Command::CreateMonitors(monitor_list(state))
        };
        (RedrawType::Entries, Some(cmd))
    } else {
        (RedrawType::Skip, None)
    }
}

} // verus!
