//! End-to-end runs against a real directory: a one-shot scan through the
//! actual walker, and a live watch fed by real OS notifications.

use gitscribe::file_type::FileType;
use gitscribe::scanner::{ContentScanner, ScanOptions};
use gitscribe::watcher::FileEvent;

fn scanner_for(root: &std::path::Path) -> ContentScanner {
    let options = ScanOptions {
        root_dir: root.to_string_lossy().into_owned(),
        ..Default::default()
    };
    ContentScanner::new(options).expect("default patterns compile")
}

#[test]
fn scan_discovers_real_files() {
    let dir = tempfile::tempdir().unwrap();
    // A leading dot would make the files hidden, and the walker honors
    // the standard filters that skip hidden files.
    let md = tempfile::Builder::new().prefix("doc").suffix(".md").tempfile_in(dir.path()).unwrap();
    let txt = tempfile::Builder::new().prefix("note").suffix(".txt").tempfile_in(dir.path()).unwrap();

    let scanner = scanner_for(dir.path());
    let results = scanner.scan().expect("scan succeeds");

    assert_eq!(results.len(), 1);
    assert_eq!(results[0].path, md.path().to_string_lossy());
    assert_eq!(results[0].file_type, FileType::Markdown);
    drop(txt);
}

#[test]
fn watch_reports_a_created_markdown_file() {
    let dir = tempfile::tempdir().unwrap();
    let scanner = scanner_for(dir.path());
    let mut watcher = scanner.watch().expect("the OS watch installs");

    let file = tempfile::Builder::new().prefix("doc").suffix(".md").tempfile_in(dir.path()).unwrap();

    match watcher.receiver().blocking_recv().expect("a notification arrives") {
        FileEvent::Created(path, file_type) => {
            assert_eq!(path, file.path().to_string_lossy());
            assert_eq!(file_type, FileType::Markdown);
        },
        other => panic!("expected Created, got {:?}", other),
    }
}

#[test]
fn scan_honors_exclude_patterns_on_disk() {
    let dir = tempfile::tempdir().unwrap();
    let _md = tempfile::Builder::new().prefix("doc").suffix(".md").tempfile_in(dir.path()).unwrap();
    let css =
        tempfile::Builder::new().prefix("sty").suffix(".css").tempfile_in(dir.path()).unwrap();

    let options = ScanOptions {
        root_dir: dir.path().to_string_lossy().into_owned(),
        exclude_patterns: vec!["**/*.md".to_string()],
        ..Default::default()
    };
    let scanner = ContentScanner::new(options).unwrap();
    let results = scanner.scan().expect("scan succeeds");

    assert_eq!(results.len(), 1);
    assert_eq!(results[0].path, css.path().to_string_lossy());
    assert_eq!(results[0].file_type, FileType::Asset);
}

#[test]
fn scan_fails_on_a_missing_root() {
    let options = ScanOptions {
        root_dir: "/nonexistent-root-for-scanning".to_string(),
        ..Default::default()
    };
    let scanner = ContentScanner::new(options).unwrap();
    match scanner.scan() {
        Err(e) => {
            assert!(e.message.starts_with("Root directory unreadable: "), "message: {}", e.message);
            assert!(e.message.contains("/nonexistent-root-for-scanning"), "message: {}", e.message);
        },
        Ok(results) => panic!("scanning a missing root must fail, got {} results", results.len()),
    }
}

#[test]
fn watch_fails_on_a_missing_root() {
    let options = ScanOptions {
        root_dir: "/nonexistent-root-for-watching".to_string(),
        ..Default::default()
    };
    let scanner = ContentScanner::new(options).unwrap();
    match scanner.watch() {
        Err(e) => assert!(!e.message.is_empty()),
        Ok(_) => panic!("watching a missing root must fail"),
    }
}
