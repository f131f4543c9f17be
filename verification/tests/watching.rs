//! The watch handler: cache maintenance, one typed event per raw OS
//! notification, the create/delete round trip, and the lossy-under-load
//! channel policy that keeps the notification thread from ever blocking.

use std::path::PathBuf;

use gitscribe::file_type::FileType;
use gitscribe::watcher::{FileEvent, WatchHandler};

use notify::event::{CreateKind, ModifyKind, RemoveKind};
use notify::{Event, EventKind};

fn create_event(path: &str) -> Event {
    Event::new(EventKind::Create(CreateKind::File)).add_path(PathBuf::from(path))
}

fn modify_event(path: &str) -> Event {
    Event::new(EventKind::Modify(ModifyKind::Any)).add_path(PathBuf::from(path))
}

fn remove_event(path: &str) -> Event {
    Event::new(EventKind::Remove(RemoveKind::File)).add_path(PathBuf::from(path))
}

#[test]
fn create_then_delete_round_trips_the_type() {
    let (tx, mut rx) = tokio::sync::mpsc::channel::<FileEvent>(16);
    let mut handler = WatchHandler::new(tx);

    let created = handler.handle(Ok(create_event("/w/new.md")));
    let deleted = handler.handle(Ok(remove_event("/w/new.md")));
    assert!(matches!(created, Some(FileEvent::Created(_, FileType::Markdown))));
    assert!(matches!(deleted, Some(FileEvent::Deleted(_, FileType::Markdown))));

    match rx.try_recv().expect("a created event") {
        FileEvent::Created(path, file_type) => {
            assert_eq!(path, "/w/new.md");
            assert_eq!(file_type, FileType::Markdown);
        },
        other => panic!("expected Created, got {:?}", other),
    }
    match rx.try_recv().expect("a deleted event") {
        FileEvent::Deleted(path, file_type) => {
            assert_eq!(path, "/w/new.md");
            assert_eq!(file_type, FileType::Markdown);
        },
        other => panic!("expected Deleted, got {:?}", other),
    }
    assert!(rx.try_recv().is_err(), "exactly one event per raw notification");
}

#[test]
fn modify_self_heals_an_untracked_path() {
    let (tx, mut rx) = tokio::sync::mpsc::channel::<FileEvent>(16);
    let mut handler = WatchHandler::new(tx);

    handler.handle(Ok(modify_event("/w/seen.css")));
    match rx.try_recv().expect("a modified event") {
        FileEvent::Modified(path, file_type) => {
            assert_eq!(path, "/w/seen.css");
            assert_eq!(file_type, FileType::Asset);
        },
        other => panic!("expected Modified, got {:?}", other),
    }

    // The classification is now cached: deleting reports the same type.
    handler.handle(Ok(remove_event("/w/seen.css")));
    match rx.try_recv().expect("a deleted event") {
        FileEvent::Deleted(_, file_type) => assert_eq!(file_type, FileType::Asset),
        other => panic!("expected Deleted, got {:?}", other),
    }
}

#[test]
fn modify_prefers_the_recorded_type() {
    let (tx, mut rx) = tokio::sync::mpsc::channel::<FileEvent>(16);
    let mut handler = WatchHandler::new(tx);

    // Seeded as Markdown (as an initial scan would have recorded it).
    handler.record("/w/doc.md".to_string(), FileType::Markdown);
    handler.handle(Ok(modify_event("/w/doc.md")));
    match rx.try_recv().expect("a modified event") {
        FileEvent::Modified(path, file_type) => {
            assert_eq!(path, "/w/doc.md");
            assert_eq!(file_type, FileType::Markdown);
        },
        other => panic!("expected Modified, got {:?}", other),
    }
}

#[test]
fn deleting_an_untracked_path_reports_other() {
    let (tx, mut rx) = tokio::sync::mpsc::channel::<FileEvent>(16);
    let mut handler = WatchHandler::new(tx);

    handler.handle(Ok(remove_event("/w/never-seen.md")));
    match rx.try_recv().expect("a deleted event") {
        FileEvent::Deleted(path, file_type) => {
            assert_eq!(path, "/w/never-seen.md");
            assert_eq!(file_type, FileType::Other);
        },
        other => panic!("expected Deleted, got {:?}", other),
    }
}

#[test]
fn events_without_a_path_are_ignored() {
    let (tx, mut rx) = tokio::sync::mpsc::channel::<FileEvent>(16);
    let mut handler = WatchHandler::new(tx);

    let emitted = handler.handle(Ok(Event::new(EventKind::Create(CreateKind::File))));
    assert!(emitted.is_none());
    assert!(rx.try_recv().is_err());
}

#[test]
fn watch_errors_become_error_events() {
    let (tx, mut rx) = tokio::sync::mpsc::channel::<FileEvent>(16);
    let mut handler = WatchHandler::new(tx);

    handler.handle(Err(notify::Error::generic("boom")));
    match rx.try_recv().expect("an error event") {
        FileEvent::Error(message) => {
            assert!(message.starts_with("Watch error: "), "message: {}", message);
            assert!(message.contains("boom"), "message: {}", message);
        },
        other => panic!("expected Error, got {:?}", other),
    }
}

#[test]
fn undrained_channel_drops_events_without_blocking() {
    // A consumer that never drains: the handler must keep returning
    // promptly, dropping what the bounded channel cannot take.
    let (tx, mut rx) = tokio::sync::mpsc::channel::<FileEvent>(1);
    let mut handler = WatchHandler::new(tx);

    for i in 0..200 {
        let path = format!("/w/burst-{}.md", i);
        let emitted = handler.handle(Ok(create_event(&path)));
        // The step happens whether or not the channel has room.
        assert!(matches!(emitted, Some(FileEvent::Created(_, _))));
    }

    // Exactly the one event the channel had room for survives.
    assert!(rx.try_recv().is_ok());
    assert!(rx.try_recv().is_err());

    // The handler is still live after the burst.
    handler.handle(Ok(create_event("/w/after.md")));
    match rx.try_recv().expect("an event after the burst") {
        FileEvent::Created(path, _) => assert_eq!(path, "/w/after.md"),
        other => panic!("expected Created, got {:?}", other),
    }
}
