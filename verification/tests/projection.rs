use rsmixer::actions::{Action, Command};
use rsmixer::dispatch::process_event;
use rsmixer::entry::{Entries, Entry, EntryIdentifier, EntryKind, EntryType, HiddenStatus, PlayEntry};
use rsmixer::page::{generate_page, recompute_hidden, PageType};
use rsmixer::redraw::RedrawType;
use rsmixer::state::RSState;

fn sink(index: u32, name: &str, monitor: Option<u32>) -> Entry {
    Entry {
        entry_type: EntryType::Sink,
        index,
        name: String::from(name),
        hidden: HiddenStatus::Show,
        parent: None,
        is_selected: false,
        hide_requested: false,
        kind: EntryKind::Play(PlayEntry {
            mute: false,
            volume: vec![65536],
            peak: 0,
            monitor_source: monitor,
            sink: None,
            suspended: false,
        }),
    }
}

fn sink_input(index: u32, name: &str, parent: u32) -> Entry {
    Entry {
        entry_type: EntryType::SinkInput,
        index,
        name: String::from(name),
        hidden: HiddenStatus::Show,
        parent: Some(parent),
        is_selected: false,
        hide_requested: false,
        kind: EntryKind::Play(PlayEntry {
            mute: false,
            volume: vec![65536],
            peak: 0,
            monitor_source: None,
            sink: Some(parent),
            suspended: false,
        }),
    }
}

fn ident(t: EntryType, i: u32) -> EntryIdentifier {
    EntryIdentifier::new(t, i)
}

#[test]
fn page_lists_devices_and_their_streams_in_order() {
    let mut store = Entries::new();
    store.insert_or_update(sink(1, "a", None));
    store.insert_or_update(sink(2, "b", None));
    store.insert_or_update(sink_input(10, "s", 2));
    store.insert_or_update(sink_input(11, "t", 1));
    let page = generate_page(&store, PageType::Output);
    assert_eq!(
        page,
        vec![
            ident(EntryType::Sink, 1),
            ident(EntryType::SinkInput, 11),
            ident(EntryType::Sink, 2),
            ident(EntryType::SinkInput, 10),
        ]
    );
}

#[test]
fn dangling_parent_references_are_ignored() {
    let mut store = Entries::new();
    store.insert_or_update(sink(1, "a", None));
    store.insert_or_update(sink_input(10, "orphan", 99));
    recompute_hidden(&mut store, PageType::Output);
    let dev = store.get(ident(EntryType::Sink, 1)).unwrap();
    assert_eq!(dev.hidden, HiddenStatus::NoKids);
    let page = generate_page(&store, PageType::Output);
    assert_eq!(page, vec![ident(EntryType::Sink, 1)]);
}

#[test]
fn hidden_aggregation_follows_the_toggle_and_the_children() {
    let mut store = Entries::new();
    store.insert_or_update(sink(1, "dev", None));
    store.insert_or_update(sink_input(2, "c1", 1));
    store.insert_or_update(sink_input(3, "c2", 1));
    store.toggle_hide(ident(EntryType::Sink, 1));
    recompute_hidden(&mut store, PageType::Output);
    assert_eq!(
        store.get(ident(EntryType::Sink, 1)).unwrap().hidden,
        HiddenStatus::HiddenKids
    );
    let page = generate_page(&store, PageType::Output);
    assert_eq!(page, vec![ident(EntryType::Sink, 1)]);

    store.remove(ident(EntryType::SinkInput, 2));
    store.remove(ident(EntryType::SinkInput, 3));
    recompute_hidden(&mut store, PageType::Output);
    assert_eq!(
        store.get(ident(EntryType::Sink, 1)).unwrap().hidden,
        HiddenStatus::NoKids
    );
}

#[test]
fn second_projection_run_proposes_no_repaint() {
    let mut state = RSState::default();
    let up1 = Action::EntryUpdate(ident(EntryType::Sink, 1), sink(1, "a", None));
    let outcome = process_event(&mut state, &up1, 10);
    assert_eq!(outcome.redraw, RedrawType::Entries);
    // A plain repaint request re-runs the projector with no store change:
    // the sequence is reproduced and the merged redraw is only the `Full`
    // the repaint request itself asks for, with no monitor command.
    let outcome = process_event(&mut state, &Action::Redraw, 10);
    assert_eq!(outcome.redraw, RedrawType::Full);
    assert!(outcome.commands.is_empty());
    let outcome = process_event(&mut state, &Action::Redraw, 10);
    assert!(outcome.commands.is_empty());
}

#[test]
fn selection_follows_the_selected_identifier() {
    let mut state = RSState::default();
    process_event(&mut state, &Action::EntryUpdate(ident(EntryType::Sink, 1), sink(1, "a", None)), 10);
    process_event(
        &mut state,
        &Action::EntryUpdate(ident(EntryType::SinkInput, 5), sink_input(5, "s", 1)),
        10,
    );
    process_event(&mut state, &Action::EntryUpdate(ident(EntryType::Sink, 2), sink(2, "b", None)), 10);
    // page is [Sink 1, SinkInput 5, Sink 2]; select Sink 2
    process_event(&mut state, &Action::MoveDown(2), 10);
    assert_eq!(state.selected, 2);
    assert_eq!(state.page_entries.ids[state.selected], ident(EntryType::Sink, 2));
    // removing the stream changes the visible set but keeps Sink 2 visible:
    // the selected index must still point at Sink 2
    process_event(&mut state, &Action::EntryRemoved(ident(EntryType::SinkInput, 5)), 10);
    assert_eq!(state.page_entries.ids.len(), 2);
    assert_eq!(state.page_entries.ids[state.selected], ident(EntryType::Sink, 2));
    assert_eq!(state.selected, 1);
}

#[test]
fn selection_falls_back_to_the_top_when_the_record_disappears() {
    let mut state = RSState::default();
    process_event(&mut state, &Action::EntryUpdate(ident(EntryType::Sink, 1), sink(1, "a", None)), 10);
    process_event(&mut state, &Action::EntryUpdate(ident(EntryType::Sink, 2), sink(2, "b", None)), 10);
    process_event(&mut state, &Action::MoveDown(1), 10);
    assert_eq!(state.selected, 1);
    process_event(&mut state, &Action::EntryRemoved(ident(EntryType::Sink, 2)), 10);
    assert_eq!(state.selected, 0);
}

#[test]
fn scenario_create_then_remove_drives_the_page() {
    let mut state = RSState::default();
    // create the output device: it appears alone on the output page
    let outcome = process_event(
        &mut state,
        &Action::EntryUpdate(ident(EntryType::Sink, 1), sink(1, "Speakers", None)),
        10,
    );
    assert_eq!(state.page_entries.ids, vec![ident(EntryType::Sink, 1)]);
    assert_eq!(state.selected, 0);
    assert_eq!(outcome.redraw, RedrawType::Entries);
    // create a playback stream under it: the page gains the stream row and
    // the device's aggregated hide status is recomputed
    let outcome = process_event(
        &mut state,
        &Action::EntryUpdate(ident(EntryType::SinkInput, 2), sink_input(2, "player", 1)),
        10,
    );
    assert_eq!(
        state.page_entries.ids,
        vec![ident(EntryType::Sink, 1), ident(EntryType::SinkInput, 2)]
    );
    assert_eq!(
        state.entries.get(ident(EntryType::Sink, 1)).unwrap().hidden,
        HiddenStatus::NoKids
    );
    assert_eq!(outcome.redraw, RedrawType::Entries);
    // remove the device: the page empties (the orphan stream has no parent
    // row to stand under) and the selection returns to the top
    let outcome = process_event(&mut state, &Action::EntryRemoved(ident(EntryType::Sink, 1)), 10);
    assert!(state.page_entries.ids.is_empty());
    assert_eq!(state.selected, 0);
    assert_eq!(outcome.redraw, RedrawType::Entries);
}

#[test]
fn page_change_emits_a_monitor_replacement() {
    let mut state = RSState::default();
    process_event(&mut state, &Action::EntryUpdate(ident(EntryType::Sink, 1), sink(1, "a", Some(4))), 10);
    let outcome = process_event(&mut state, &Action::ChangePage(PageType::Cards), 10);
    // the cards page is empty here and subscribes nothing
    assert!(state.page_entries.ids.is_empty());
    let mut saw_empty_monitors = false;
    for c in &outcome.commands {
        if let Command::CreateMonitors(m) = c {
            assert!(m.is_empty());
            saw_empty_monitors = true;
        }
    }
    assert!(saw_empty_monitors);
}

#[test]
fn hide_event_collapses_the_selected_devices_streams() {
    let mut state = RSState::default();
    process_event(&mut state, &Action::EntryUpdate(ident(EntryType::Sink, 1), sink(1, "a", None)), 10);
    process_event(
        &mut state,
        &Action::EntryUpdate(ident(EntryType::SinkInput, 2), sink_input(2, "s", 1)),
        10,
    );
    assert_eq!(state.page_entries.ids.len(), 2);
    // the device row is selected; hiding collapses its streams
    assert_eq!(state.selected, 0);
    let outcome = process_event(&mut state, &Action::Hide, 10);
    assert_eq!(state.page_entries.ids, vec![ident(EntryType::Sink, 1)]);
    assert_eq!(outcome.redraw, RedrawType::Entries);
    // hiding again shows them back
    process_event(&mut state, &Action::Hide, 10);
    assert_eq!(state.page_entries.ids.len(), 2);
}

#[test]
fn hide_with_an_empty_page_is_a_no_op() {
    let mut state = RSState::default();
    let outcome = process_event(&mut state, &Action::Hide, 10);
    assert!(state.page_entries.ids.is_empty());
    assert_eq!(outcome.redraw, RedrawType::Skip);
    assert!(outcome.commands.is_empty());
}
