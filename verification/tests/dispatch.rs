use rsmixer::actions::{Action, Command};
use rsmixer::dispatch::process_event;
use rsmixer::entry::{
    CardEntry, CardProfile, Entry, EntryIdentifier, EntryKind, EntryType, HiddenStatus, PlayEntry,
};
use rsmixer::monitor::monitor_list;
use rsmixer::page::PageType;
use rsmixer::redraw::RedrawType;
use rsmixer::state::{ContextMenuOption, RSState, UIMode};

fn sink(index: u32, name: &str, monitor: Option<u32>) -> Entry {
    Entry {
        entry_type: EntryType::Sink,
        index,
        name: String::from(name),
        hidden: HiddenStatus::Show,
        parent: None,
        is_selected: false,
        hide_requested: false,
        kind: EntryKind::Play(PlayEntry {
            mute: false,
            volume: vec![65536],
            peak: 0,
            monitor_source: monitor,
            sink: None,
            suspended: false,
        }),
    }
}

fn sink_input(index: u32, name: &str, parent: u32) -> Entry {
    Entry {
        entry_type: EntryType::SinkInput,
        index,
        name: String::from(name),
        hidden: HiddenStatus::Show,
        parent: Some(parent),
        is_selected: false,
        hide_requested: false,
        kind: EntryKind::Play(PlayEntry {
            mute: false,
            volume: vec![65536, 65536],
            peak: 0,
            monitor_source: None,
            sink: Some(parent),
            suspended: false,
        }),
    }
}

fn card(index: u32, name: &str, profiles: Vec<(&str, &str)>, active: Option<usize>) -> Entry {
    Entry {
        entry_type: EntryType::Card,
        index,
        name: String::from(name),
        hidden: HiddenStatus::Show,
        parent: None,
        is_selected: false,
        hide_requested: false,
        kind: EntryKind::Card(CardEntry {
            profiles: profiles
                .into_iter()
                .map(|(n, d)| CardProfile { name: String::from(n), description: String::from(d) })
                .collect(),
            selected_profile: active,
        }),
    }
}

fn ident(t: EntryType, i: u32) -> EntryIdentifier {
    EntryIdentifier::new(t, i)
}

fn feed(state: &mut RSState, msg: Action) -> rsmixer::dispatch::EventOutcome {
    process_event(state, &msg, 10)
}

#[test]
fn exit_signal_stops_without_touching_state() {
    let mut state = RSState::default();
    feed(&mut state, Action::EntryUpdate(ident(EntryType::Sink, 1), sink(1, "a", None)));
    let outcome = feed(&mut state, Action::ExitSignal);
    assert!(outcome.exit);
    assert_eq!(outcome.redraw, RedrawType::Exit);
    assert!(outcome.commands.is_empty());
    assert_eq!(state.entries.len(), 1);
}

#[test]
fn disconnect_clears_everything_and_empties_the_monitor_set() {
    let mut state = RSState::default();
    feed(&mut state, Action::EntryUpdate(ident(EntryType::Sink, 1), sink(1, "a", Some(3))));
    feed(&mut state, Action::EntryUpdate(ident(EntryType::SinkInput, 2), sink_input(2, "s", 1)));
    assert!(state.entries.len() > 0);
    let outcome = feed(&mut state, Action::PADisconnected);
    assert_eq!(state.entries.len(), 0);
    assert!(state.page_entries.ids.is_empty());
    assert!(matches!(state.ui_mode, UIMode::Normal));
    assert_eq!(outcome.redraw, RedrawType::Full);
    assert_eq!(outcome.commands.len(), 1);
    match &outcome.commands[0] {
        Command::CreateMonitors(m) => assert!(m.is_empty()),
        _ => panic!("disconnect must replace the monitor set with nothing"),
    }
}

#[test]
fn retry_countdown_clears_everything_and_shows_the_banner() {
    let mut state = RSState::default();
    feed(&mut state, Action::EntryUpdate(ident(EntryType::Sink, 1), sink(1, "a", None)));
    let outcome = feed(&mut state, Action::RetryIn(5));
    assert_eq!(state.entries.len(), 0);
    assert!(state.page_entries.ids.is_empty());
    assert!(matches!(state.ui_mode, UIMode::RetryIn(5)));
    assert_eq!(outcome.redraw, RedrawType::Full);
}

#[test]
fn reconnect_returns_to_normal_with_fresh_state() {
    let mut state = RSState::default();
    feed(&mut state, Action::EntryUpdate(ident(EntryType::Sink, 1), sink(1, "a", None)));
    feed(&mut state, Action::RetryIn(5));
    let outcome = feed(&mut state, Action::ConnectToPA);
    assert!(matches!(state.ui_mode, UIMode::Normal));
    assert_eq!(state.entries.len(), 0);
    assert_eq!(outcome.redraw, RedrawType::Full);
}

#[test]
fn monitor_resolution_follows_the_device_back_reference() {
    let mut state = RSState::default();
    feed(&mut state, Action::EntryUpdate(ident(EntryType::Sink, 1), sink(1, "dev", Some(7))));
    feed(&mut state, Action::EntryUpdate(ident(EntryType::SinkInput, 2), sink_input(2, "s", 1)));
    let monitors = monitor_list(&state);
    assert_eq!(monitors.len(), 2);
    assert!(monitors.contains(&(ident(EntryType::Sink, 1), Some(7))));
    assert!(monitors.contains(&(ident(EntryType::SinkInput, 2), Some(7))));
}

#[test]
fn monitor_resolution_without_a_device_yields_nothing() {
    let mut state = RSState::default();
    feed(&mut state, Action::EntryUpdate(ident(EntryType::Sink, 1), sink(1, "dev", Some(7))));
    feed(&mut state, Action::EntryUpdate(ident(EntryType::SinkInput, 2), sink_input(2, "s", 1)));
    feed(&mut state, Action::EntryRemoved(ident(EntryType::Sink, 1)));
    // the orphan stream is off the page now; only live page rows are listed
    let monitors = monitor_list(&state);
    assert!(monitors.is_empty());
}

#[test]
fn malformed_updates_are_discarded() {
    let mut state = RSState::default();
    // a card-typed record carrying a playable payload
    let mut bad = sink(1, "bad", None);
    bad.entry_type = EntryType::Card;
    feed(&mut state, Action::EntryUpdate(ident(EntryType::Card, 1), bad));
    assert_eq!(state.entries.len(), 0);
    // an event whose identifier does not match the record it carries
    feed(&mut state, Action::EntryUpdate(ident(EntryType::Sink, 9), sink(1, "a", None)));
    assert_eq!(state.entries.len(), 0);
}

#[test]
fn mute_request_targets_the_selected_record() {
    let mut state = RSState::default();
    feed(&mut state, Action::EntryUpdate(ident(EntryType::Sink, 1), sink(1, "a", None)));
    let outcome = feed(&mut state, Action::RequestMute);
    assert_eq!(outcome.commands.len(), 1);
    match &outcome.commands[0] {
        Command::MuteEntry(id, flag) => {
            assert_eq!(*id, ident(EntryType::Sink, 1));
            assert!(*flag);
        }
        _ => panic!("a mute request must produce a mute command"),
    }
}

#[test]
fn volume_change_scales_by_percentage_points() {
    let mut state = RSState::default();
    feed(&mut state, Action::EntryUpdate(ident(EntryType::SinkInput, 2), sink_input(2, "s", 1)));
    // the page shows nothing for the orphan stream; add its device first
    feed(&mut state, Action::EntryUpdate(ident(EntryType::Sink, 1), sink(1, "dev", None)));
    feed(&mut state, Action::MoveDown(1));
    let outcome = feed(&mut state, Action::RequestChangeVolume(10));
    assert_eq!(outcome.commands.len(), 1);
    match &outcome.commands[0] {
        Command::SetVolume(id, v) => {
            assert_eq!(*id, ident(EntryType::SinkInput, 2));
            // ten points of full scale: 10 * 65536 / 100 = 6553 units
            assert_eq!(v.as_slice(), &[72089, 72089]);
        }
        _ => panic!("a volume request must produce a volume command"),
    }
    let outcome = feed(&mut state, Action::RequestChangeVolume(-110));
    match &outcome.commands[0] {
        Command::SetVolume(_, v) => {
            // a drop below zero saturates at zero
            assert_eq!(v.as_slice(), &[0, 0]);
        }
        _ => panic!("a volume request must produce a volume command"),
    }
}

#[test]
fn context_menu_for_a_device_offers_mute_and_suspend() {
    let mut state = RSState::default();
    feed(&mut state, Action::EntryUpdate(ident(EntryType::Sink, 1), sink(1, "a", None)));
    let outcome = feed(&mut state, Action::OpenContextMenu);
    assert_eq!(outcome.redraw, RedrawType::ContextMenu);
    assert!(matches!(state.ui_mode, UIMode::ContextMenu));
    assert_eq!(state.context_options.len(), 2);
    assert!(matches!(state.context_options[0], ContextMenuOption::ToggleMute));
    assert!(matches!(state.context_options[1], ContextMenuOption::ToggleSuspend));
    // confirming the suspend toggle issues the command and closes the menu
    feed(&mut state, Action::MoveDown(1));
    let outcome = feed(&mut state, Action::Confirm);
    assert!(matches!(state.ui_mode, UIMode::Normal));
    assert_eq!(outcome.commands.len(), 1);
    match &outcome.commands[0] {
        Command::SetSuspend(id, flag) => {
            assert_eq!(*id, ident(EntryType::Sink, 1));
            assert!(*flag);
        }
        _ => panic!("confirming the suspend toggle must produce a suspend command"),
    }
}

#[test]
fn context_menu_for_a_card_offers_its_profiles() {
    let mut state = RSState::default();
    feed(&mut state, Action::ChangePage(PageType::Cards));
    feed(
        &mut state,
        Action::EntryUpdate(
            ident(EntryType::Card, 4),
            card(4, "hw", vec![("out", "Output"), ("duplex", "Duplex")], Some(0)),
        ),
    );
    feed(&mut state, Action::OpenContextMenu);
    assert_eq!(state.context_options.len(), 2);
    feed(&mut state, Action::MoveDown(1));
    let outcome = feed(&mut state, Action::Confirm);
    match &outcome.commands[0] {
        Command::ChangeCardProfile(id, name) => {
            assert_eq!(*id, ident(EntryType::Card, 4));
            assert_eq!(name, "duplex");
        }
        _ => panic!("confirming a profile must produce a profile command"),
    }
}

#[test]
fn move_flow_reparents_the_stream() {
    let mut state = RSState::default();
    feed(&mut state, Action::EntryUpdate(ident(EntryType::Sink, 1), sink(1, "a", None)));
    feed(&mut state, Action::EntryUpdate(ident(EntryType::Sink, 2), sink(2, "b", None)));
    feed(&mut state, Action::EntryUpdate(ident(EntryType::SinkInput, 7), sink_input(7, "s", 1)));
    // page: [sink 1, stream 7, sink 2]; select the stream
    feed(&mut state, Action::MoveDown(1));
    assert_eq!(state.page_entries.ids[state.selected], ident(EntryType::SinkInput, 7));
    feed(&mut state, Action::OpenContextMenu);
    // stream menu: mute, move, kill — highlight the move entry
    feed(&mut state, Action::MoveDown(1));
    feed(&mut state, Action::Confirm);
    assert!(matches!(state.ui_mode, UIMode::MoveEntry(_, None)));
    // the first navigation step highlights the first device
    feed(&mut state, Action::MoveDown(1));
    match state.ui_mode {
        UIMode::MoveEntry(src, Some(c)) => {
            assert_eq!(src, ident(EntryType::SinkInput, 7));
            assert_eq!(c, ident(EntryType::Sink, 1));
        }
        _ => panic!("navigation in move mode must highlight a device"),
    }
    // step down to the second device and commit
    feed(&mut state, Action::MoveDown(1));
    let outcome = feed(&mut state, Action::Confirm);
    assert!(matches!(state.ui_mode, UIMode::Normal));
    match &outcome.commands[0] {
        Command::MoveEntryToParent(src, target) => {
            assert_eq!(*src, ident(EntryType::SinkInput, 7));
            assert_eq!(*target, ident(EntryType::Sink, 2));
        }
        _ => panic!("confirming a move must produce a reparent command"),
    }
}

#[test]
fn help_overlay_opens_and_any_key_leaves_it() {
    let mut state = RSState::default();
    let outcome = feed(&mut state, Action::ShowHelp);
    assert!(matches!(state.ui_mode, UIMode::Help));
    assert_eq!(outcome.redraw, RedrawType::Full);
    // a repaint request keeps the overlay up
    feed(&mut state, Action::Redraw);
    assert!(matches!(state.ui_mode, UIMode::Help));
    // any other key leaves it
    feed(&mut state, Action::MoveDown(1));
    assert!(matches!(state.ui_mode, UIMode::Normal));
}

#[test]
fn help_overlay_leaves_on_a_page_switch() {
    let mut state = RSState::default();
    feed(&mut state, Action::ShowHelp);
    assert!(matches!(state.ui_mode, UIMode::Help));
    feed(&mut state, Action::ChangePage(PageType::Cards));
    assert!(matches!(state.ui_mode, UIMode::Normal));
    assert_eq!(state.current_page, PageType::Cards);

    feed(&mut state, Action::ShowHelp);
    feed(&mut state, Action::CyclePages(1));
    assert!(matches!(state.ui_mode, UIMode::Normal));
    assert_eq!(state.current_page, PageType::Output);
}

#[test]
fn viewport_move_alone_upgrades_the_repaint() {
    let mut state = RSState::default();
    for i in 1..=6u32 {
        process_event(
            &mut state,
            &Action::EntryUpdate(ident(EntryType::Sink, i), sink(i, "d", None)),
            10,
        );
    }
    process_event(&mut state, &Action::MoveDown(5), 10);
    assert_eq!((state.selected, state.scroll), (5, 0));
    // a peak report asks only for one meter, but the smaller viewport must
    // slide to keep the selection visible, so the merged repaint grows to
    // the whole list region
    let outcome = process_event(
        &mut state,
        &Action::PeakVolumeUpdate(ident(EntryType::Sink, 1), 100),
        2,
    );
    assert_eq!(state.scroll, 4);
    assert_eq!(outcome.redraw, RedrawType::Entries);
}

#[test]
fn pages_cycle_forward_and_backward() {
    let mut state = RSState::default();
    assert_eq!(state.current_page, PageType::Output);
    feed(&mut state, Action::CyclePages(1));
    assert_eq!(state.current_page, PageType::Input);
    feed(&mut state, Action::CyclePages(2));
    assert_eq!(state.current_page, PageType::Output);
    feed(&mut state, Action::CyclePages(-1));
    assert_eq!(state.current_page, PageType::Cards);
}

#[test]
fn peak_updates_repaint_one_meter_only() {
    let mut state = RSState::default();
    feed(&mut state, Action::EntryUpdate(ident(EntryType::Sink, 1), sink(1, "a", None)));
    let outcome = feed(
        &mut state,
        Action::PeakVolumeUpdate(ident(EntryType::Sink, 1), 500),
    );
    assert_eq!(outcome.redraw, RedrawType::PeakVolume(ident(EntryType::Sink, 1)));
    match &state.entries.get(ident(EntryType::Sink, 1)).unwrap().kind {
        EntryKind::Play(p) => assert_eq!(p.peak, 500),
        EntryKind::Card(_) => panic!("sink must hold a playable payload"),
    }
}

#[test]
fn scroll_follows_the_selection_beyond_the_viewport() {
    let mut state = RSState::default();
    for i in 1..=6u32 {
        process_event(
            &mut state,
            &Action::EntryUpdate(ident(EntryType::Sink, i), sink(i, "d", None)),
            3,
        );
    }
    assert_eq!(state.scroll, 0);
    process_event(&mut state, &Action::MoveDown(4), 3);
    assert_eq!(state.selected, 4);
    // with three visible rows the viewport must slide down to row 2
    assert_eq!(state.scroll, 2);
    process_event(&mut state, &Action::MoveUp(4), 3);
    assert_eq!(state.selected, 0);
    assert_eq!(state.scroll, 0);
}
