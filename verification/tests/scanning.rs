//! Scan decisions over walked entries: include/exclude filtering against
//! the real compiled glob sets, relativization to the root, classification
//! and timestamp fallback.

use gitscribe::file_type::FileType;
use gitscribe::patterns::ConfigError;
use gitscribe::scanner::{ContentScanner, FsEntry, ScanOptions};

fn file_entry(path: &str) -> FsEntry {
    FsEntry {
        path: path.to_string(),
        is_dir: false,
        has_metadata: true,
        modified: Some(42),
    }
}

fn scanner_with(root: &str, exclude: Vec<String>) -> ContentScanner {
    let options = ScanOptions {
        root_dir: root.to_string(),
        exclude_patterns: exclude,
        ..Default::default()
    };
    ContentScanner::new(options).expect("patterns must compile")
}

#[test]
fn test_scan_markdown_files() {
    let scanner = scanner_with("/r", vec![]);
    let entries = vec![file_entry("/r/test.md"), file_entry("/r/test.txt")];
    let results = scanner.scan_entries(&entries, 0);

    // Should find only the markdown file
    assert_eq!(results.len(), 1);
    assert_eq!(results[0].path, "/r/test.md");
    assert_eq!(results[0].file_type, FileType::Markdown);
}

#[test]
fn test_scan_asset_files() {
    let scanner = scanner_with("/r", vec![]);
    let entries = vec![
        file_entry("/r/test.jpg"),
        file_entry("/r/test.png"),
        file_entry("/r/test.css"),
    ];
    let results = scanner.scan_entries(&entries, 0);

    // Should find all asset files
    assert_eq!(results.len(), 3);

    let file_types: Vec<FileType> = results.iter().map(|r| r.file_type).collect();
    assert!(file_types.contains(&FileType::Asset));
    assert_eq!(file_types.iter().filter(|&&t| t == FileType::Asset).count(), 3);
}

#[test]
fn test_exclude_patterns() {
    let scanner = scanner_with("/r", vec!["**/ignored.md".to_string()]);
    let entries = vec![file_entry("/r/test.md"), file_entry("/r/ignored.md")];
    let results = scanner.scan_entries(&entries, 0);

    let md_files = results.iter().filter(|r| r.path.ends_with("/test.md")).count();
    let ignored_files = results.iter().filter(|r| r.path.ends_with("/ignored.md")).count();

    // Should find the non-ignored markdown file and not the ignored one
    assert_eq!(md_files, 1);
    assert_eq!(ignored_files, 0);
}

#[test]
fn exclude_subtracts_even_when_included() {
    // The excluded path is matched by an include pattern too: it must
    // still be absent.
    let scanner = scanner_with("/r", vec!["**/*.md".to_string()]);
    let entries = vec![file_entry("/r/a.md"), file_entry("/r/b.css")];
    let results = scanner.scan_entries(&entries, 0);
    assert_eq!(results.len(), 1);
    assert_eq!(results[0].path, "/r/b.css");
}

#[test]
fn directories_are_never_yielded() {
    let scanner = scanner_with("/r", vec![]);
    let dir = FsEntry {
        path: "/r/docs.md".to_string(),
        is_dir: true,
        has_metadata: true,
        modified: Some(42),
    };
    assert!(scanner.evaluate_entry(&dir, 0).is_none());
}

#[test]
fn paths_outside_the_root_are_skipped() {
    let scanner = scanner_with("/r", vec![]);
    let foreign = file_entry("/elsewhere/test.md");
    assert!(scanner.evaluate_entry(&foreign, 0).is_none());
    let sibling = file_entry("/rascal/test.md");
    assert!(scanner.evaluate_entry(&sibling, 0).is_none());
}

#[test]
fn unreadable_metadata_skips_the_entry() {
    let scanner = scanner_with("/r", vec![]);
    let entry = FsEntry {
        path: "/r/test.md".to_string(),
        is_dir: false,
        has_metadata: false,
        modified: None,
    };
    assert!(scanner.evaluate_entry(&entry, 0).is_none());
}

#[test]
fn missing_mtime_falls_back_to_now() {
    let scanner = scanner_with("/r", vec![]);
    let entry = FsEntry {
        path: "/r/test.md".to_string(),
        is_dir: false,
        has_metadata: true,
        modified: None,
    };
    let result = scanner.evaluate_entry(&entry, 777).expect("entry is wanted");
    assert_eq!(result.last_modified, 777);

    let timed = scanner.evaluate_entry(&file_entry("/r/test.md"), 777).unwrap();
    assert_eq!(timed.last_modified, 42);
}

#[test]
fn bad_pattern_aborts_construction() {
    let options = ScanOptions {
        root_dir: "/r".to_string(),
        include_patterns: vec!["**/*.md".to_string(), "a{".to_string()],
        exclude_patterns: vec![],
        follow_links: false,
    };
    match ContentScanner::new(options) {
        Err(ConfigError::BadPattern { pattern, reason }) => {
            assert_eq!(pattern, "a{");
            assert!(!reason.is_empty());
        },
        Err(ConfigError::BuildFailed { .. }) => panic!("wrong error variant"),
        Ok(_) => panic!("construction must fail on a malformed pattern"),
    }
}

#[test]
fn default_options_cover_markdown_and_assets() {
    let options = ScanOptions::default();
    assert_eq!(options.root_dir, ".");
    assert_eq!(
        options.include_patterns,
        vec![
            "**/*.md", "**/*.jpg", "**/*.jpeg", "**/*.png", "**/*.gif", "**/*.svg", "**/*.css",
            "**/*.js",
        ]
    );
    assert!(options.exclude_patterns.is_empty());
    assert!(!options.follow_links);
}

#[test]
fn counts_records_by_type() {
    let scanner = scanner_with("/r", vec![]);
    let entries = vec![
        file_entry("/r/a.md"),
        file_entry("/r/b.css"),
        file_entry("/r/c.md"),
        file_entry("/r/d.txt"),
    ];
    let results = scanner.scan_entries(&entries, 0);
    assert_eq!(gitscribe::scanner::count_file_types(&results), (2, 1, 0));
}

#[test]
fn scan_keeps_traversal_order() {
    let scanner = scanner_with("/r", vec![]);
    let entries = vec![
        file_entry("/r/z.md"),
        file_entry("/r/skip.txt"),
        file_entry("/r/a.md"),
    ];
    let results = scanner.scan_entries(&entries, 0);
    assert_eq!(results.len(), 2);
    assert_eq!(results[0].path, "/r/z.md");
    assert_eq!(results[1].path, "/r/a.md");
}
