//! The monitor registrar: which peak-level monitor sources the backend
//! must keep subscribed for the records visible on the current page.

use crate::entry::{spec_find, Entries, EntryIdentifier, EntryKind, EntryKindV, EntryType, EntryV};
use crate::state::RSState;
use vstd::prelude::*;

verus! {

/// The monitor source to subscribe for the visible record `id`: a
/// playback stream borrows the monitor source of its owning output
/// device (two-hop lookup through its device back-reference); every other
/// record reports its own.  Absent records and broken links resolve to
/// nothing.
pub open spec fn spec_resolved_monitor(s: Seq<EntryV>, id: EntryIdentifier) -> Option<u32> {
    match spec_find(s, id) {
        None => None,
        Some(e) => if id.entry_type is SinkInput {
            match e.kind {
                EntryKindV::Play(p) => match p.sink {
                    Some(si) => match spec_find(
                        s,
                        EntryIdentifier { entry_type: EntryType::Sink, index: si },
                    ) {
                        Some(dev) => dev.own_monitor(),
                        None => None,
                    },
                    None => None,
                },
                EntryKindV::Card(_) => None,
            }
        } else {
            e.own_monitor()
        },
    }
}

/// The desired-subscription set for a visible sequence: one pair per
/// visible identifier that is live in the store, in page order, mapping
/// it to its resolved monitor source.
pub open spec fn spec_monitor_list(
    s: Seq<EntryV>,
    ids: Seq<EntryIdentifier>,
) -> Seq<(EntryIdentifier, Option<u32>)>
    decreases ids.len(),
{
    if ids.len() == 0 {
        Seq::empty()
    } else {
        spec_monitor_list(s, ids.drop_last())
            + match spec_find(s, ids.last()) {
                None => Seq::empty(),
                Some(_) => seq![(ids.last(), spec_resolved_monitor(s, ids.last()))],
            }
    }
}

/// The full desired-subscription set for the page currently displayed:
/// what a `replace active monitors` command hands the backend.
pub fn monitor_list(state: &RSState) -> (r: Vec<(EntryIdentifier, Option<u32>)>)
    ensures
        r@ == spec_monitor_list(state.entries@, state.page_entries.ids@),
{
    let mut r: Vec<(EntryIdentifier, Option<u32>)> = Vec::new();
    let ids = &state.page_entries.ids;
    let entries = &state.entries;
    let mut i: usize = 0;
    while i < ids.len()
        invariant
            i <= ids@.len(),
            r@ == spec_monitor_list(entries@, ids@.take(i as int)),
        decreases ids@.len() - i,
    {
        let id = ids[i];
        assert(ids@.take(i + 1).drop_last() == ids@.take(i as int));
        assert(ids@.take(i + 1).last() == ids@[i as int]);
        match entries.get(id) {
            Some(e) => {
                let monitor: Option<u32> = if id.entry_type == EntryType::SinkInput {
                    match &e.kind {
                        EntryKind::Play(p) => match p.sink {
                            Some(si) => {
                                match entries.get(
                                    EntryIdentifier { entry_type: EntryType::Sink, index: si },
                                ) {
                                    Some(dev) => dev.own_monitor(),
                                    None => None,
                                }
                            }
                            None => None,
                        },
                        EntryKind::Card(_) => None,
                    }
                } else {
                    e.own_monitor()
                };
                assert(monitor == spec_resolved_monitor(entries@, id));
                r.push((id, monitor));
                assert(r@ =~= spec_monitor_list(entries@, ids@.take(i + 1)));
            }
            None => {
                assert(r@ =~= spec_monitor_list(entries@, ids@.take(i + 1)));
            }
        }
        i = i + 1;
    }
    proof {
        assert(ids@.take(ids@.len() as int) == ids@);
    }
    r
}

} // verus!
