use rsmixer::entry::{
    CardEntry, CardProfile, Entries, Entry, EntryIdentifier, EntryKind, EntryType, HiddenStatus,
    PlayEntry,
};

fn play_entry(mute: bool, volume: Vec<u32>, monitor: Option<u32>, sink: Option<u32>) -> PlayEntry {
    PlayEntry { mute, volume, peak: 0, monitor_source: monitor, sink, suspended: false }
}

fn sink(index: u32, name: &str, monitor: Option<u32>) -> Entry {
    Entry {
        entry_type: EntryType::Sink,
        index,
        name: String::from(name),
        hidden: HiddenStatus::Show,
        parent: None,
        is_selected: false,
        hide_requested: false,
        kind: EntryKind::Play(play_entry(false, vec![65536], monitor, None)),
    }
}

fn sink_input(index: u32, name: &str, parent: u32) -> Entry {
    Entry {
        entry_type: EntryType::SinkInput,
        index,
        name: String::from(name),
        hidden: HiddenStatus::Show,
        parent: Some(parent),
        is_selected: false,
        hide_requested: false,
        kind: EntryKind::Play(play_entry(false, vec![65536], None, Some(parent))),
    }
}

fn card(index: u32, name: &str, profiles: Vec<(&str, &str)>, active: Option<usize>) -> Entry {
    Entry {
        entry_type: EntryType::Card,
        index,
        name: String::from(name),
        hidden: HiddenStatus::Show,
        parent: None,
        is_selected: false,
        hide_requested: false,
        kind: EntryKind::Card(CardEntry {
            profiles: profiles
                .into_iter()
                .map(|(n, d)| CardProfile { name: String::from(n), description: String::from(d) })
                .collect(),
            selected_profile: active,
        }),
    }
}

#[test]
fn last_write_wins_for_updates() {
    let mut store = Entries::new();
    let id = EntryIdentifier::new(EntryType::Sink, 1);
    store.insert_or_update(sink(1, "first", None));
    store.insert_or_update(sink(1, "second", Some(9)));
    assert_eq!(store.len(), 1);
    let e = store.get(id).expect("record must be present");
    assert_eq!(e.name, "second");
    match &e.kind {
        EntryKind::Play(p) => assert_eq!(p.monitor_source, Some(9)),
        EntryKind::Card(_) => panic!("sink must hold a playable payload"),
    }
}

#[test]
fn remove_after_write_leaves_nothing() {
    let mut store = Entries::new();
    let id = EntryIdentifier::new(EntryType::Sink, 1);
    store.insert_or_update(sink(1, "a", None));
    store.remove(id);
    assert!(store.get(id).is_none());
    assert_eq!(store.len(), 0);
}

#[test]
fn removing_an_absent_identifier_is_a_no_op() {
    let mut store = Entries::new();
    store.insert_or_update(sink(1, "a", None));
    store.remove(EntryIdentifier::new(EntryType::Sink, 2));
    store.remove(EntryIdentifier::new(EntryType::Card, 1));
    assert_eq!(store.len(), 1);
    assert!(store.get(EntryIdentifier::new(EntryType::Sink, 1)).is_some());
}

#[test]
fn identifiers_are_unique_per_type_not_across_types() {
    let mut store = Entries::new();
    store.insert_or_update(sink(1, "device", None));
    store.insert_or_update(card(1, "hardware", vec![("a", "A")], Some(0)));
    assert_eq!(store.len(), 2);
    assert!(store.get(EntryIdentifier::new(EntryType::Sink, 1)).is_some());
    assert!(store.get(EntryIdentifier::new(EntryType::Card, 1)).is_some());
}

#[test]
fn interleaved_events_reflect_the_last_write() {
    let mut store = Entries::new();
    let id = EntryIdentifier::new(EntryType::SinkInput, 7);
    store.insert_or_update(sink_input(7, "one", 1));
    store.remove(id);
    store.insert_or_update(sink_input(7, "two", 2));
    store.insert_or_update(sink_input(7, "three", 3));
    let e = store.get(id).expect("record must be present");
    assert_eq!(e.name, "three");
    assert_eq!(e.parent, Some(3));
}

#[test]
fn iter_type_lists_in_store_order() {
    let mut store = Entries::new();
    store.insert_or_update(sink(2, "b", None));
    store.insert_or_update(sink_input(5, "s", 2));
    store.insert_or_update(sink(1, "a", None));
    let sinks = store.iter_type(EntryType::Sink);
    assert_eq!(sinks.len(), 2);
    assert_eq!(sinks[0], EntryIdentifier::new(EntryType::Sink, 2));
    assert_eq!(sinks[1], EntryIdentifier::new(EntryType::Sink, 1));
    let inputs = store.iter_type(EntryType::SinkInput);
    assert_eq!(inputs.len(), 1);
    assert_eq!(inputs[0], EntryIdentifier::new(EntryType::SinkInput, 5));
}

#[test]
fn update_in_place_keeps_store_order() {
    let mut store = Entries::new();
    store.insert_or_update(sink(1, "a", None));
    store.insert_or_update(sink(2, "b", None));
    store.insert_or_update(sink(1, "a2", None));
    let sinks = store.iter_type(EntryType::Sink);
    assert_eq!(sinks[0], EntryIdentifier::new(EntryType::Sink, 1));
    assert_eq!(sinks[1], EntryIdentifier::new(EntryType::Sink, 2));
    assert_eq!(store.get(sinks[0]).unwrap().name, "a2");
}

#[test]
fn toggle_hide_on_a_stream_flips_its_parent() {
    let mut store = Entries::new();
    store.insert_or_update(sink(1, "dev", None));
    store.insert_or_update(sink_input(2, "stream", 1));
    store.toggle_hide(EntryIdentifier::new(EntryType::SinkInput, 2));
    let dev = store.get(EntryIdentifier::new(EntryType::Sink, 1)).unwrap();
    assert!(dev.hide_requested);
    let stream = store.get(EntryIdentifier::new(EntryType::SinkInput, 2)).unwrap();
    assert!(!stream.hide_requested);
}

#[test]
fn toggle_hide_twice_restores_the_toggle() {
    let mut store = Entries::new();
    store.insert_or_update(sink(1, "dev", None));
    let id = EntryIdentifier::new(EntryType::Sink, 1);
    store.toggle_hide(id);
    assert!(store.get(id).unwrap().hide_requested);
    store.toggle_hide(id);
    assert!(!store.get(id).unwrap().hide_requested);
}

#[test]
fn card_report_drops_unnamed_profiles_and_defaults_descriptions() {
    let raw = vec![
        (Some(String::from("out")), Some(String::from("Output"))),
        (None, Some(String::from("ghost"))),
        (Some(String::from("duplex")), None),
    ];
    let card = CardEntry::from_report(raw, Some(String::from("duplex")));
    assert_eq!(card.profiles.len(), 2);
    assert_eq!(card.profiles[0].name, "out");
    assert_eq!(card.profiles[0].description, "Output");
    assert_eq!(card.profiles[1].name, "duplex");
    assert_eq!(card.profiles[1].description, "duplex");
    assert_eq!(card.selected_profile, Some(1));
}

#[test]
fn card_report_with_unknown_active_selects_nothing() {
    let raw = vec![(Some(String::from("out")), None)];
    let card = CardEntry::from_report(raw, Some(String::from("missing")));
    assert_eq!(card.selected_profile, None);
    let card = CardEntry::from_report(vec![(Some(String::from("out")), None)], None);
    assert_eq!(card.selected_profile, None);
}

#[test]
fn builders_assemble_well_formed_records() {
    let e = Entry::new_play(
        EntryType::Sink,
        3,
        String::from("dev"),
        None,
        play_entry(true, vec![100], Some(8), None),
    );
    assert_eq!(e.entry_type, EntryType::Sink);
    assert_eq!(e.index, 3);
    assert_eq!(e.hidden, HiddenStatus::Show);
    assert!(!e.hide_requested);
    let c = Entry::new_card(4, String::from("hw"), CardEntry::from_report(vec![], None));
    assert_eq!(c.entry_type, EntryType::Card);
    assert!(matches!(c.kind, EntryKind::Card(_)));
}

#[test]
fn card_profiles_carry_over() {
    let mut store = Entries::new();
    store.insert_or_update(card(3, "hw", vec![("out", "Output"), ("duplex", "Duplex")], Some(1)));
    let e = store.get(EntryIdentifier::new(EntryType::Card, 3)).unwrap();
    match &e.kind {
        EntryKind::Card(c) => {
            assert_eq!(c.profiles.len(), 2);
            assert_eq!(c.profiles[0].name, "out");
            assert_eq!(c.profiles[1].description, "Duplex");
            assert_eq!(c.selected_profile, Some(1));
        }
        EntryKind::Play(_) => panic!("card must hold a card payload"),
    }
}
