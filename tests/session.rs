use std::sync::mpsc;

use igrep::{Entry, EntryType, Event, Ig, Match, State};

fn entry(name: &str, line: u64) -> Entry {
    Entry::new(
        name.to_string(),
        EntryType::File,
        vec![Match::new(line, "x".to_string(), vec![(0, 1)])],
    )
}

fn session() -> (mpsc::Sender<Event>, Ig) {
    let (tx, rx) = mpsc::channel();
    (tx, Ig::new(rx))
}

#[test]
fn new_session_is_idle_and_empty() {
    let (_tx, ig) = session();
    assert!(ig.is_idle());
    assert!(!ig.is_searching());
    assert!(!ig.exit_requested());
    assert!(ig.result_list().is_empty());
}

#[test]
fn three_entries_then_finished_gives_idle_with_three_entries() {
    let (tx, mut ig) = session();
    assert!(ig.search());
    assert!(ig.is_searching());
    tx.send(Event::NewEntry(entry("a.rs", 1))).unwrap();
    tx.send(Event::NewEntry(entry("b.rs", 2))).unwrap();
    tx.send(Event::NewEntry(entry("c.rs", 3))).unwrap();
    tx.send(Event::SearchingFinished).unwrap();
    ig.handle_searcher_event();
    assert!(ig.is_idle());
    assert_eq!(ig.result_list().len(), 3);
    let names: Vec<String> = ig.result_list().entries().iter().map(|e| e.name.clone()).collect();
    assert_eq!(names, vec!["a.rs", "b.rs", "c.rs"]);
}

#[test]
fn draining_with_nothing_queued_changes_nothing() {
    let (_tx, mut ig) = session();
    ig.search();
    ig.handle_searcher_event();
    assert!(ig.is_searching());
    assert!(ig.result_list().is_empty());
}

#[test]
fn search_while_searching_is_a_no_op() {
    let (tx, mut ig) = session();
    assert!(ig.search());
    tx.send(Event::NewEntry(entry("a.rs", 1))).unwrap();
    ig.handle_searcher_event();
    assert!(!ig.search());
    assert!(ig.is_searching());
    assert_eq!(ig.result_list().len(), 1);
}

#[test]
fn search_while_open_file_pending_is_a_no_op() {
    let (tx, mut ig) = session();
    ig.search();
    tx.send(Event::NewEntry(entry("a.rs", 1))).unwrap();
    ig.handle_searcher_event();
    ig.open_file();
    assert_eq!(ig.state(), State::OpenFile(false));
    assert!(!ig.search());
    assert_eq!(ig.state(), State::OpenFile(false));
    assert_eq!(ig.result_list().len(), 1);
}

#[test]
fn new_search_clears_previous_results() {
    let (tx, mut ig) = session();
    ig.search();
    tx.send(Event::NewEntry(entry("a.rs", 1))).unwrap();
    tx.send(Event::SearchingFinished).unwrap();
    ig.handle_searcher_event();
    assert_eq!(ig.result_list().len(), 1);
    assert!(ig.search());
    assert!(ig.result_list().is_empty());
    assert_eq!(ig.result_list().get_selected_entry(), None);
}

#[test]
fn finished_overrides_pending_open_file() {
    let (tx, mut ig) = session();
    ig.search();
    ig.open_file();
    assert_eq!(ig.state(), State::OpenFile(false));
    tx.send(Event::SearchingFinished).unwrap();
    ig.handle_searcher_event();
    assert!(ig.is_idle());
}

#[test]
fn error_event_ends_session() {
    let (tx, mut ig) = session();
    ig.search();
    tx.send(Event::NewEntry(entry("a.rs", 1))).unwrap();
    tx.send(Event::Error).unwrap();
    ig.handle_searcher_event();
    assert!(ig.exit_requested());
    assert_eq!(ig.result_list().len(), 1);
}

#[test]
fn error_event_ends_idle_session() {
    let (tx, mut ig) = session();
    tx.send(Event::Error).unwrap();
    ig.handle_searcher_event();
    assert!(ig.exit_requested());
}

#[test]
fn handle_events_applies_in_order() {
    let (_tx, mut ig) = session();
    ig.open_file();
    ig.handle_events(vec![Event::NewEntry(entry("a.rs", 4)), Event::Error, Event::SearchingFinished]);
    assert!(ig.is_idle());
    assert_eq!(ig.result_list().get_selected_entry(), Some(("a.rs".to_string(), 4)));
}

#[test]
fn open_file_if_requested_without_request_is_a_no_op() {
    let (tx, mut ig) = session();
    assert_eq!(ig.open_file_if_requested(), None);
    assert!(ig.is_idle());
    ig.search();
    tx.send(Event::NewEntry(entry("a.rs", 1))).unwrap();
    ig.handle_searcher_event();
    assert_eq!(ig.open_file_if_requested(), None);
    assert!(ig.is_searching());
    ig.exit();
    assert_eq!(ig.open_file_if_requested(), None);
    assert!(ig.exit_requested());
}

#[test]
fn open_file_while_idle_without_selection_returns_to_idle() {
    let (_tx, mut ig) = session();
    ig.open_file();
    assert_eq!(ig.state(), State::OpenFile(true));
    assert_eq!(ig.open_file_if_requested(), None);
    assert!(ig.is_idle());
}

#[test]
fn open_file_while_searching_returns_selection_and_resumes_search() {
    let (tx, mut ig) = session();
    ig.search();
    tx.send(Event::NewEntry(entry("src/a.rs", 12))).unwrap();
    ig.handle_searcher_event();
    ig.open_file();
    assert_eq!(ig.open_file_if_requested(), Some(("src/a.rs".to_string(), 12)));
    assert!(ig.is_searching());
    assert_eq!(ig.result_list().len(), 1);
}

#[test]
fn exit_from_any_state() {
    let (_tx, mut ig) = session();
    ig.exit();
    assert!(ig.exit_requested());
    let (_tx2, mut ig2) = session();
    ig2.search();
    ig2.open_file();
    ig2.exit();
    assert!(ig2.exit_requested());
}

#[test]
fn session_navigation_moves_selection_and_keeps_mode() {
    let (tx, mut ig) = session();
    ig.search();
    tx.send(Event::NewEntry(entry("a.rs", 3))).unwrap();
    tx.send(Event::NewEntry(entry("b.rs", 8))).unwrap();
    ig.handle_searcher_event();
    ig.next_match();
    assert_eq!(ig.result_list().get_selected_entry(), Some(("b.rs".to_string(), 8)));
    ig.previous_match();
    assert_eq!(ig.result_list().get_selected_entry(), Some(("a.rs".to_string(), 3)));
    assert!(ig.is_searching());
}
