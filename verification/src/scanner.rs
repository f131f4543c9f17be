//! One-shot content scanning: walk a root directory honoring ignore-file
//! rules, keep the files the include/exclude patterns want, classify each
//! by extension and record its modification time.
//!
//! The walk itself reads the disk through the `ignore` crate and can yield
//! anything; everything decided about a walked entry — relativization,
//! pattern filtering, classification, timestamp fallback — is verified
//! code over plain values, so `scan` is exactly `scan_entries` applied to
//! whatever the walker handed back.

use vstd::prelude::*;

use crate::file_type::{classify, spec_classify, FileType};
use crate::paths::{is_prefix, relative_to, spec_relative_to};
use crate::patterns::{compiles, config_error_describes, set_matches, ConfigError, PatternSet};

verus! {

/// Options for a scan: the root, the two pattern lists, and whether the
/// walk follows symbolic links (off by default, to avoid cycles).
#[derive(Debug, Clone)]
pub struct ScanOptions {
    /// Root directory to scan.
    pub root_dir: String,
    /// Glob patterns a file must match, relative to the root.
    pub include_patterns: Vec<String>,
    /// Glob patterns that subtract from the include matches.
    pub exclude_patterns: Vec<String>,
    /// Whether the walk follows symbolic links.
    pub follow_links: bool,
}

/// The default include patterns: markdown plus the recognized asset types.
pub open spec fn default_include_patterns() -> Seq<Seq<char>> {
    seq![
        "**/*.md"@,
        "**/*.jpg"@,
        "**/*.jpeg"@,
        "**/*.png"@,
        "**/*.gif"@,
        "**/*.svg"@,
        "**/*.css"@,
        "**/*.js"@,
    ]
}

impl Default for ScanOptions {
    /// The current directory, the default include patterns, no exclude
    /// patterns, and no symlink following.
    fn default() -> (r: Self)
        ensures
            r.root_dir@ == "."@,
            r.include_patterns.deep_view() == default_include_patterns(),
            r.exclude_patterns@.len() == 0,
            !r.follow_links,
    {
        let include_patterns: Vec<String> = vec![
            "**/*.md".to_owned(),
            "**/*.jpg".to_owned(),
            "**/*.jpeg".to_owned(),
            "**/*.png".to_owned(),
            "**/*.gif".to_owned(),
            "**/*.svg".to_owned(),
            "**/*.css".to_owned(),
            "**/*.js".to_owned(),
        ];
        proof {
            assert(include_patterns.deep_view() =~= default_include_patterns());
        }
        ScanOptions {
            root_dir: ".".to_owned(),
            include_patterns,
            exclude_patterns: Vec::new(),
            follow_links: false,
        }
    }
}

/// One scanned file: its path, its classification, and its modification
/// time in seconds since the Unix epoch. Produced fresh on every scan,
/// never mutated.
#[derive(Debug, Clone)]
pub struct ScanResult {
    /// Path to the file, as the walker yielded it.
    pub path: String,
    /// Classification of the file.
    pub file_type: FileType,
    /// Modification time, seconds since the Unix epoch; the scan time when
    /// the platform supplied none.
    pub last_modified: u64,
}

impl View for ScanResult {
    type V = (Seq<char>, FileType, u64);

    open spec fn view(&self) -> Self::V {
        (self.path@, self.file_type, self.last_modified)
    }
}

/// A failure of an operation against the filesystem or the OS watch.
#[derive(Debug, Clone)]
pub struct IoError {
    /// Human-readable description of the failure.
    pub message: String,
}

/// One filesystem entry as the directory walker reports it, reduced to
/// plain values: its path, whether it is a directory, whether its metadata
/// could be read at all, and its modification time if one was available.
#[derive(Debug, Clone)]
pub struct FsEntry {
    /// Path of the entry.
    pub path: String,
    /// Whether the path points at a directory.
    pub is_dir: bool,
    /// Whether the entry's metadata could be read; entries without
    /// readable metadata are skipped, not fatal.
    pub has_metadata: bool,
    /// Modification time in seconds since the Unix epoch, when available.
    pub modified: Option<u64>,
}

/// The scan record an entry produces: its path, its classification, and
/// its modification time with the scan time as fallback.
pub open spec fn spec_result_of(e: FsEntry, now: u64) -> (Seq<char>, FileType, u64) {
    (
        e.path@,
        spec_classify(e.path@),
        match e.modified {
            Some(m) => m,
            None => now,
        },
    )
}

/// Content scanner: owns the options and the two compiled pattern sets.
/// Compiled once per root-directory session; a pattern failure is a
/// terminal construction error, so no partial scanner exists.
pub struct ContentScanner {
    options: ScanOptions,
    include_set: PatternSet,
    exclude_set: PatternSet,
}

impl ContentScanner {
    /// The scan root.
    pub closed spec fn root(&self) -> Seq<char> {
        self.options.root_dir@
    }

    /// The include patterns, in order.
    pub closed spec fn include_patterns(&self) -> Seq<Seq<char>> {
        self.options.include_patterns.deep_view()
    }

    /// The exclude patterns, in order.
    pub closed spec fn exclude_patterns(&self) -> Seq<Seq<char>> {
        self.options.exclude_patterns.deep_view()
    }

    /// Whether the walk follows symbolic links.
    pub closed spec fn follow_links(&self) -> bool {
        self.options.follow_links
    }

    /// Both pattern sets are compiled from the scanner's own options.
    pub closed spec fn wf(&self) -> bool {
        &&& self.include_set.wf()
        &&& self.include_set.patterns() == self.include_patterns()
        &&& self.exclude_set.wf()
        &&& self.exclude_set.patterns() == self.exclude_patterns()
    }

    /// A path is wanted iff it lies under the root and its relative form
    /// matches an include pattern and no exclude pattern.
    pub open spec fn wants(&self, path: Seq<char>) -> bool {
        match spec_relative_to(path, self.root()) {
            Some(rel) => set_matches(self.include_patterns(), rel) && !set_matches(
                self.exclude_patterns(),
                rel,
            ),
            None => false,
        }
    }

    /// A walked entry enters the results iff it is a file, its path is
    /// wanted, and its metadata could be read.
    pub open spec fn selects(&self, e: FsEntry) -> bool {
        !e.is_dir && self.wants(e.path@) && e.has_metadata
    }

    /// Every record a scan may return: a wanted path, correctly
    /// classified.
    pub open spec fn result_ok(&self, sr: ScanResult) -> bool {
        self.wants(sr.path@) && sr.file_type == spec_classify(sr.path@)
    }

    /// `result_ok`, stated of a record's view.
    pub open spec fn result_ok_tuple(&self, o: (Seq<char>, FileType, u64)) -> bool {
        self.wants(o.0) && o.1 == spec_classify(o.0)
    }

    /// The root directory, as a string slice.
    pub(crate) fn root_dir_str(&self) -> (r: &str)
        ensures
            r@ == self.root(),
    {
        self.options.root_dir.as_str()
    }

    /// Creates a scanner by compiling both pattern lists; any compile
    /// failure aborts construction with the originating pattern, include
    /// list first.
    pub fn new(options: ScanOptions) -> (r: Result<ContentScanner, ConfigError>)
        ensures
            r is Ok <==> compiles(options.include_patterns.deep_view()) && compiles(
                options.exclude_patterns.deep_view(),
            ),
            r matches Ok(s) ==> s.wf() && s.root() == options.root_dir@ && s.include_patterns()
                == options.include_patterns.deep_view() && s.exclude_patterns()
                == options.exclude_patterns.deep_view() && s.follow_links()
                == options.follow_links,
            r matches Err(e) ==> (if !compiles(options.include_patterns.deep_view()) {
                config_error_describes(e, options.include_patterns.deep_view())
            } else {
                config_error_describes(e, options.exclude_patterns.deep_view())
            }),
    {
        let include_set = match PatternSet::compile(&options.include_patterns) {
            Ok(s) => s,
            Err(e) => {
                return Err(e);
            },
        };
        let exclude_set = match PatternSet::compile(&options.exclude_patterns) {
            Ok(s) => s,
            Err(e) => {
                return Err(e);
            },
        };
        Ok(ContentScanner { options, include_set, exclude_set })
    }

    /// Decides one walked entry: `Some` exactly when the entry is selected,
    /// with its classification and its timestamp (`now` as the fallback).
    pub fn evaluate_entry(&self, entry: &FsEntry, now: u64) -> (r: Option<ScanResult>)
        requires
            self.wf(),
        ensures
            r is Some <==> self.selects(*entry),
            r matches Some(sr) ==> sr@ == spec_result_of(*entry, now),
    {
        if entry.is_dir {
            return None;
        }
        let rel = match relative_to(entry.path.as_str(), self.options.root_dir.as_str()) {
            Some(rel) => rel,
            None => {
                return None;
            },
        };
        if !self.include_set.matches(rel) {
            return None;
        }
        if self.exclude_set.matches(rel) {
            return None;
        }
        if !entry.has_metadata {
            return None;
        }
        let file_type = classify(entry.path.as_str());
        let last_modified = match entry.modified {
            Some(m) => m,
            None => now,
        };
        Some(ScanResult { path: entry.path.clone(), file_type, last_modified })
    }

    /// Filters and classifies a whole list of walked entries, keeping
    /// traversal order.
    pub fn scan_entries(&self, entries: &Vec<FsEntry>, now: u64) -> (r: Vec<ScanResult>)
        requires
            self.wf(),
        ensures
            r@.map_values(|sr: ScanResult| sr@) == spec_scan(self, entries@, now),
    {
        let mut results: Vec<ScanResult> = Vec::new();
        let mut i: usize = 0;
        while i < entries.len()
            invariant
                self.wf(),
                0 <= i <= entries.len(),
                results@.map_values(|sr: ScanResult| sr@) == spec_scan(
                    self,
                    entries@.take(i as int),
                    now,
                ),
            decreases entries.len() - i,
        {
            let ghost prefix = entries@.take(i as int);
            match self.evaluate_entry(&entries[i], now) {
                Some(sr) => {
                    results.push(sr);
                },
                None => {},
            }
            proof {
                assert(entries@.take(i as int + 1).drop_last() =~= prefix);
                assert(entries@.take(i as int + 1).last() == entries@[i as int]);
                assert(results@.map_values(|sr: ScanResult| sr@) =~= spec_scan(
                    self,
                    entries@.take(i as int + 1),
                    now,
                ));
            }
            i += 1;
        }
        proof {
            assert(entries@.take(entries@.len() as int) =~= entries@);
        }
        results
    }

    /// Runs one full scan: walks the root honoring ignore-file rules,
    /// keeps the wanted files, classifies them and records modification
    /// times. A traversal failure naming the root itself means the root
    /// directory could not be read: that is fatal and returns a
    /// descriptive error. Every other per-entry failure is skipped, never
    /// fatal. Every record returned is a wanted path with its correct
    /// classification.
    pub fn scan(&self) -> (r: Result<Vec<ScanResult>, IoError>)
        requires
            self.wf(),
        ensures
            r matches Ok(v) ==> forall|i: int|
                0 <= i < v@.len() ==> self.result_ok(#[trigger] v@[i]),
            r matches Err(e) ==> e.message@.len() > 0 && is_prefix(
                "Root directory unreadable: "@,
                e.message@,
            ),
    {
        let raw = walk_collect(self.options.root_dir.as_str(), self.options.follow_links);
        let mut entries: Vec<FsEntry> = Vec::new();
        let mut i: usize = 0;
        while i < raw.len()
            invariant
                0 <= i <= raw.len(),
            decreases raw.len() - i,
        {
            match &raw[i] {
                Ok(e) => {
                    let path = entry_path(e);
                    let is_dir = entry_is_dir(e);
                    let (has_metadata, modified) = match entry_modified(e) {
                        Some(m) => (true, m),
                        None => (false, None),
                    };
                    entries.push(FsEntry { path, is_dir, has_metadata, modified });
                },
                Err(e) => {
                    // A failure naming the root itself is fatal; any other
                    // failed walk entry is skipped without aborting the scan.
                    match walk_error_path(e) {
                        Some(failed) => {
                            if failed == self.options.root_dir {
                                let detail = walk_error_string(e);
                                let message = failure_message(
                                    "Root directory unreadable: ",
                                    detail.as_str(),
                                );
                                proof {
                                    reveal_strlit("Root directory unreadable: ");
                                }
                                return Err(IoError { message });
                            }
                        },
                        None => {},
                    }
                },
            }
            i += 1;
        }
        let now = now_secs();
        let results = self.scan_entries(&entries, now);
        proof {
            lemma_spec_scan_sound(self, entries@, now);
            assert forall|j: int| 0 <= j < results@.len() implies self.result_ok(
                #[trigger] results@[j],
            ) by {
                assert(results@.map_values(|sr: ScanResult| sr@)[j] == results@[j]@);
            }
        }
        Ok(results)
    }
}

/// The records a scan of `entries` returns: one per selected entry, in
/// traversal order.
pub open spec fn spec_scan(s: &ContentScanner, entries: Seq<FsEntry>, now: u64) -> Seq<
    (Seq<char>, FileType, u64),
>
    decreases entries.len(),
{
    if entries.len() == 0 {
        Seq::empty()
    } else {
        let rest = spec_scan(s, entries.drop_last(), now);
        if s.selects(entries.last()) {
            rest.push(spec_result_of(entries.last(), now))
        } else {
            rest
        }
    }
}

/// Everything a scan returns is a wanted path, correctly classified.
pub proof fn lemma_spec_scan_sound(s: &ContentScanner, entries: Seq<FsEntry>, now: u64)
    ensures
        forall|j: int| 0 <= j < spec_scan(s, entries, now).len() ==> s.result_ok_tuple(
            #[trigger] spec_scan(s, entries, now)[j],
        ),
    decreases entries.len(),
{
    if entries.len() == 0 {
    } else {
        lemma_spec_scan_sound(s, entries.drop_last(), now);
        let rest = spec_scan(s, entries.drop_last(), now);
        let all = spec_scan(s, entries, now);
        if s.selects(entries.last()) {
            assert(all == rest.push(spec_result_of(entries.last(), now)));
            assert forall|j: int| 0 <= j < all.len() implies s.result_ok_tuple(all[j]) by {
                if j < rest.len() {
                    assert(all[j] == rest[j]);
                } else {
                    assert(all[j] == spec_result_of(entries.last(), now));
                }
            }
        }
    }
}

#[verifier::external_type_specification]
#[verifier::external_body]
pub struct ExDirEntry(ignore::DirEntry);

#[verifier::external_type_specification]
#[verifier::external_body]
pub struct ExIgnoreError(ignore::Error);

/// Relies on ignore::WalkBuilder: a one-shot recursive traversal of
/// `root` that honors standard ignore-file semantics (skipping what the
/// project's own ignore files suppress) and follows symlinks only when
/// asked; yields every surviving entry in traversal order, directories
/// included, with per-entry failures as `Err` items.
#[verifier::external_body]
fn walk_collect(root: &str, follow_links: bool) -> (r: Vec<
    Result<ignore::DirEntry, ignore::Error>,
>) {
    ignore::WalkBuilder::new(root).follow_links(follow_links).build().collect()
}

/// Relies on ignore::DirEntry::path for the path the entry points at.
#[verifier::external_body]
fn entry_path(e: &ignore::DirEntry) -> (r: String) {
    e.path().to_string_lossy().into_owned()
}

/// Relies on std's Path::is_dir: whether the path points at a directory.
#[verifier::external_body]
fn entry_is_dir(e: &ignore::DirEntry) -> (r: bool) {
    e.path().is_dir()
}

/// Relies on ignore::DirEntry::metadata and std's SystemTime arithmetic:
/// `None` when the metadata cannot be read at all; otherwise the
/// modification time in whole seconds since the Unix epoch, with inner
/// `None` when the platform supplies no usable time.
#[verifier::external_body]
fn entry_modified(e: &ignore::DirEntry) -> (r: Option<Option<u64>>) {
    match e.metadata() {
        Ok(m) => Some(
            match m.modified() {
                Ok(t) => t.duration_since(std::time::UNIX_EPOCH).ok().map(|d| d.as_secs()),
                Err(_) => None,
            },
        ),
        Err(_) => None,
    }
}

/// Relies on std's SystemTime::now: the clock reading in whole seconds
/// since the Unix epoch, 0 for a clock before it.
#[verifier::external_body]
fn now_secs() -> (r: u64) {
    match std::time::SystemTime::now().duration_since(std::time::UNIX_EPOCH) {
        Ok(d) => d.as_secs(),
        Err(_) => 0,
    }
}

/// Relies on the `WithPath` variant of ignore::Error: the path a
/// traversal failure names, if it names one (walk failures carry the
/// failing path outermost).
#[verifier::external_body]
fn walk_error_path(e: &ignore::Error) -> (r: Option<String>) {
    match e {
        ignore::Error::WithPath { path, .. } => Some(path.to_string_lossy().into_owned()),
        _ => None,
    }
}

/// Relies on the Display impl of ignore::Error for a human-readable
/// description of a traversal failure.
#[verifier::external_body]
fn walk_error_string(e: &ignore::Error) -> (r: String) {
    format!("{}", e)
}

/// A failure message: the context followed by the underlying description.
pub(crate) fn failure_message(context: &str, detail: &str) -> (r: String)
    ensures
        r@.len() >= context@.len(),
        is_prefix(context@, r@),
{
    let mut message = context.to_owned();
    message.append(detail);
    proof {
        assert((context@ + detail@).take(context@.len() as int) =~= context@);
    }
    message
}

/// How many records of the list carry the given classification.
pub open spec fn spec_count(results: Seq<ScanResult>, t: FileType) -> nat
    decreases results.len(),
{
    if results.len() == 0 {
        0
    } else {
        spec_count(results.drop_last(), t) + if results.last().file_type == t {
            1nat
        } else {
            0nat
        }
    }
}

/// No classification occurs more often than there are records.
proof fn lemma_spec_count_le_len(results: Seq<ScanResult>, t: FileType)
    ensures
        spec_count(results, t) <= results.len(),
    decreases results.len(),
{
    if results.len() > 0 {
        lemma_spec_count_le_len(results.drop_last(), t);
    }
}

/// Counts the scan records by classification: markdown, asset, other.
pub fn count_file_types(results: &Vec<ScanResult>) -> (r: (usize, usize, usize))
    ensures
        r.0 == spec_count(results@, FileType::Markdown),
        r.1 == spec_count(results@, FileType::Asset),
        r.2 == spec_count(results@, FileType::Other),
{
    let mut markdown: usize = 0;
    let mut asset: usize = 0;
    let mut other: usize = 0;
    let mut i: usize = 0;
    while i < results.len()
        invariant
            0 <= i <= results.len(),
            markdown == spec_count(results@.take(i as int), FileType::Markdown),
            asset == spec_count(results@.take(i as int), FileType::Asset),
            other == spec_count(results@.take(i as int), FileType::Other),
        decreases results.len() - i,
    {
        proof {
            assert(results@.take(i as int + 1).drop_last() =~= results@.take(i as int));
            lemma_spec_count_le_len(results@.take(i as int), FileType::Markdown);
            lemma_spec_count_le_len(results@.take(i as int), FileType::Asset);
            lemma_spec_count_le_len(results@.take(i as int), FileType::Other);
        }
        match results[i].file_type {
            FileType::Markdown => {
                markdown += 1;
            },
            FileType::Asset => {
                asset += 1;
            },
            FileType::Other => {
                other += 1;
            },
        }
        i += 1;
    }
    proof {
        assert(results@.take(results@.len() as int) =~= results@);
    }
    (markdown, asset, other)
}

} // verus!
