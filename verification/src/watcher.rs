//! Live watching: bridges raw OS filesystem notifications into typed
//! `FileEvent`s over a bounded channel, maintaining a classification cache.
//!
//! The OS delivers notifications on its own thread; the handler that runs
//! there is verified code (`WatchHandler::handle`), with the decision
//! logic — cache maintenance and event selection — pinned down by
//! `step_cache` and `step_emits`. The cache is owned exclusively by the
//! handler, so the notification thread is its only writer and reader.
//! Publication uses a non-blocking send: when the channel is full the
//! event is dropped rather than ever stalling OS notification delivery.

use vstd::prelude::*;
use vstd::hash_map::StringHashMap;
use vstd::string::StringExecFns;

use notify::Watcher;

use crate::file_type::{classify, spec_classify, FileType};
use crate::paths::is_prefix;
use crate::scanner::{failure_message, ContentScanner, IoError, ScanResult};

verus! {

/// The classes of raw OS events the watcher distinguishes.
#[derive(Debug, Clone, Copy, PartialEq, Eq, Structural)]
pub enum EventClass {
    /// A create-class OS event.
    Create,
    /// A modify-class OS event.
    Modify,
    /// A remove-class OS event.
    Remove,
    /// Anything else; ignored.
    Other,
}

/// A typed change event, produced only by the watcher.
#[derive(Debug, Clone)]
pub enum FileEvent {
    /// A file was created, with its classification.
    Created(String, FileType),
    /// A file was modified, with its cached (or freshly computed)
    /// classification.
    Modified(String, FileType),
    /// A file was deleted, with the classification recorded while it was
    /// tracked (`Other` if it never was).
    Deleted(String, FileType),
    /// The OS watch subsystem reported a failure; the watch stays
    /// installed.
    Error(String),
}

/// Specification-level image of a `FileEvent`.
pub enum FileEventView {
    /// Image of `FileEvent::Created`.
    Created(Seq<char>, FileType),
    /// Image of `FileEvent::Modified`.
    Modified(Seq<char>, FileType),
    /// Image of `FileEvent::Deleted`.
    Deleted(Seq<char>, FileType),
    /// Image of `FileEvent::Error`.
    Error(Seq<char>),
}

impl View for FileEvent {
    type V = FileEventView;

    open spec fn view(&self) -> FileEventView {
        match self {
            FileEvent::Created(p, t) => FileEventView::Created(p@, *t),
            FileEvent::Modified(p, t) => FileEventView::Modified(p@, *t),
            FileEvent::Deleted(p, t) => FileEventView::Deleted(p@, *t),
            FileEvent::Error(m) => FileEventView::Error(m@),
        }
    }
}

/// The classification-cache invariant: every tracked path is mapped to
/// its own classification. The seed scan establishes it, and every step
/// preserves it.
pub open spec fn cache_consistent(m: Map<Seq<char>, FileType>) -> bool {
    forall|p: Seq<char>| #[trigger] m.contains_key(p) ==> m[p] == spec_classify(p)
}

/// How one classified notification transforms the cache: Create inserts
/// the path's classification, Modify inserts it only if the path is
/// untracked (self-healing for files that predate the watch), Remove
/// evicts, directories and unrecognized classes change nothing.
pub open spec fn step_cache(
    m: Map<Seq<char>, FileType>,
    class: EventClass,
    path: Seq<char>,
    is_dir: bool,
) -> Map<Seq<char>, FileType> {
    if is_dir {
        m
    } else {
        match class {
            EventClass::Create => m.insert(path, spec_classify(path)),
            EventClass::Modify => if m.contains_key(path) {
                m
            } else {
                m.insert(path, spec_classify(path))
            },
            EventClass::Remove => m.remove(path),
            EventClass::Other => m,
        }
    }
}

/// Which event one classified notification publishes: exactly one per
/// create, modify or remove of a file, none for directories or other
/// classes. The deleted type is the tracked one, `Other` for untracked
/// paths.
pub open spec fn step_emits(
    m: Map<Seq<char>, FileType>,
    class: EventClass,
    path: Seq<char>,
    is_dir: bool,
) -> Option<FileEventView> {
    if is_dir {
        None
    } else {
        match class {
            EventClass::Create => Some(FileEventView::Created(path, spec_classify(path))),
            EventClass::Modify => Some(
                FileEventView::Modified(
                    path,
                    if m.contains_key(path) {
                        m[path]
                    } else {
                        spec_classify(path)
                    },
                ),
            ),
            EventClass::Remove => Some(
                FileEventView::Deleted(
                    path,
                    if m.contains_key(path) {
                        m[path]
                    } else {
                        FileType::Other
                    },
                ),
            ),
            EventClass::Other => None,
        }
    }
}

/// The handler that runs inside the OS notification callback: the
/// classification cache (exclusively owned here) and the sending half of
/// the event channel.
pub struct WatchHandler {
    cache: StringHashMap<FileType>,
    sender: tokio::sync::mpsc::Sender<FileEvent>,
}

impl WatchHandler {
    /// The classification cache: every tracked path's last-known type.
    pub closed spec fn cache(&self) -> Map<Seq<char>, FileType> {
        self.cache@
    }

    /// The sending half the handler publishes into.
    pub closed spec fn spec_sender(&self) -> tokio::sync::mpsc::Sender<FileEvent> {
        self.sender
    }

    /// A handler with an empty cache.
    pub fn new(sender: tokio::sync::mpsc::Sender<FileEvent>) -> (h: WatchHandler)
        ensures
            h.cache() == Map::<Seq<char>, FileType>::empty(),
            h.spec_sender() == sender,
    {
        WatchHandler { cache: StringHashMap::new(), sender }
    }

    /// Seeds the cache with one path's classification, as the initial
    /// scan found it.
    pub fn record(&mut self, path: String, file_type: FileType)
        ensures
            final(self).cache() == old(self).cache().insert(path@, file_type),
            final(self).spec_sender() == old(self).spec_sender(),
    {
        self.cache.insert(path, file_type);
    }

    /// Processes one classified notification: updates the cache and
    /// returns the event to publish, exactly as `step_cache` and
    /// `step_emits` prescribe.
    pub fn step(&mut self, class: EventClass, path: &String, is_dir: bool) -> (r: Option<
        FileEvent,
    >)
        ensures
            final(self).cache() == step_cache(old(self).cache(), class, path@, is_dir),
            final(self).spec_sender() == old(self).spec_sender(),
            r is Some <==> step_emits(old(self).cache(), class, path@, is_dir) is Some,
            r matches Some(ev) ==> Some(ev@) == step_emits(old(self).cache(), class, path@, is_dir),
    {
        if is_dir {
            return None;
        }
        match class {
            EventClass::Create => {
                let file_type = classify(path.as_str());
                self.cache.insert(path.clone(), file_type);
                Some(FileEvent::Created(path.clone(), file_type))
            },
            EventClass::Modify => {
                let cached: Option<FileType> = match self.cache.get(path.as_str()) {
                    Some(t) => Some(*t),
                    None => None,
                };
                let file_type = match cached {
                    Some(t) => t,
                    None => {
                        let t = classify(path.as_str());
                        self.cache.insert(path.clone(), t);
                        t
                    },
                };
                Some(FileEvent::Modified(path.clone(), file_type))
            },
            EventClass::Remove => {
                let cached: Option<FileType> = match self.cache.get(path.as_str()) {
                    Some(t) => Some(*t),
                    None => None,
                };
                let file_type = match cached {
                    Some(t) => t,
                    None => FileType::Other,
                };
                self.cache.remove(path.as_str());
                Some(FileEvent::Deleted(path.clone(), file_type))
            },
            EventClass::Other => None,
        }
    }

    /// Handles one raw OS notification and returns the event it published
    /// (whether or not the channel had room for it). A file change
    /// performs exactly one legal cache step — decided by `step_cache` and
    /// `step_emits` on the event's own class and first path — whatever the
    /// channel's state; a pathless event changes nothing; a watch failure
    /// publishes an `Error` event and leaves the cache alone. Publication
    /// never waits. Runs on the OS notification thread.
    #[verifier::rlimit(50)]
    pub fn handle(&mut self, res: Result<notify::Event, notify::Error>) -> (emitted: Option<
        FileEvent,
    >)
        ensures
            final(self).spec_sender() == old(self).spec_sender(),
            res matches Ok(ev) ==> (event_first_path_of(ev) matches Some(path) ==> (exists|
                is_dir: bool,
            |
                handled_file_event(
                    old(self).cache(),
                    final(self).cache(),
                    emitted,
                    event_class_of(ev),
                    path,
                    is_dir,
                ))),
            res matches Ok(ev) ==> (event_first_path_of(ev) is None ==> final(self).cache() == old(
                self,
            ).cache() && emitted is None),
            res is Err ==> final(self).cache() == old(self).cache() && (emitted matches Some(e2)
                && (exists|d: Seq<char>| e2@ == FileEventView::Error("Watch error: "@ + d))),
    {
        match res {
            Ok(event) => {
                proof {
                    assert(res matches Ok(e2) && e2 == event);
                }
                match event_first_path(&event) {
                    Some(path) => {
                        let is_dir = path_is_dir(path.as_str());
                        let class = event_class(&event);
                        let emitted = self.step(class, &path, is_dir);
                        match &emitted {
                            Some(ev) => {
                                let _ = try_send(&self.sender, duplicate_event(ev));
                            },
                            None => {},
                        }
                        proof {
                            let p2 = event_first_path_of(event).unwrap();
                            assert(p2 == path@);
                            assert(exists|d: bool|
                                handled_file_event(
                                    old(self).cache(),
                                    self.cache(),
                                    emitted,
                                    event_class_of(event),
                                    p2,
                                    d,
                                )) by {
                                assert(handled_file_event(
                                    old(self).cache(),
                                    self.cache(),
                                    emitted,
                                    event_class_of(event),
                                    p2,
                                    is_dir,
                                ));
                            }
                        }
                        return emitted;
                    },
                    None => {
                        return None;
                    },
                }
            },
            Err(e) => {
                let detail = notify_error_string(&e);
                let mut message: String = "Watch error: ".to_owned();
                message.append(detail.as_str());
                let emitted = FileEvent::Error(message);
                let _ = try_send(&self.sender, duplicate_event(&emitted));
                proof {
                    assert(emitted@ == FileEventView::Error("Watch error: "@ + detail@));
                }
                Some(emitted)
            },
        }
    }
}

/// One legal handling of a file notification: the cache moved exactly by
/// `step_cache`, and the published event decided exactly by `step_emits`,
/// for the named class and path.
pub open spec fn handled_file_event(
    pre: Map<Seq<char>, FileType>,
    post: Map<Seq<char>, FileType>,
    emitted: Option<FileEvent>,
    class: EventClass,
    path: Seq<char>,
    is_dir: bool,
) -> bool {
    &&& post == step_cache(pre, class, path, is_dir)
    &&& match emitted {
        Some(published) => Some(published@) == step_emits(pre, class, path, is_dir),
        None => step_emits(pre, class, path, is_dir) is None,
    }
}

/// A fresh event equal to the given one, so one event can be both
/// published and handed back.
fn duplicate_event(ev: &FileEvent) -> (r: FileEvent)
    ensures
        r@ == ev@,
{
    match ev {
        FileEvent::Created(p, t) => FileEvent::Created(p.clone(), *t),
        FileEvent::Modified(p, t) => FileEvent::Modified(p.clone(), *t),
        FileEvent::Deleted(p, t) => FileEvent::Deleted(p.clone(), *t),
        FileEvent::Error(m) => FileEvent::Error(m.clone()),
    }
}

/// The cache a seed list produces: one entry per record, in order, later
/// records overwriting earlier ones for the same path.
pub open spec fn seed_map(results: Seq<ScanResult>) -> Map<Seq<char>, FileType>
    decreases results.len(),
{
    if results.len() == 0 {
        Map::empty()
    } else {
        seed_map(results.drop_last()).insert(results.last().path@, results.last().file_type)
    }
}

/// A seed list whose every record carries its own classification produces
/// a consistent cache.
pub proof fn lemma_seed_map_consistent(s: &ContentScanner, results: Seq<ScanResult>)
    requires
        forall|j: int| 0 <= j < results.len() ==> s.result_ok(#[trigger] results[j]),
    ensures
        cache_consistent(seed_map(results)),
    decreases results.len(),
{
    if results.len() > 0 {
        lemma_seed_map_consistent(s, results.drop_last());
        assert(s.result_ok(results[results.len() - 1]));
    }
}

/// Live watcher: while this value lives the OS watch is installed and the
/// callback may fire; dropping it tears the OS watch down on every path
/// out of scope, while events already buffered stay consumable until the
/// receiver is dropped with it.
pub struct ContentWatcher {
    watcher: notify::RecommendedWatcher,
    receiver: tokio::sync::mpsc::Receiver<FileEvent>,
    seed: Ghost<Map<Seq<char>, FileType>>,
}

impl ContentWatcher {
    /// The classification cache as it was seeded when the OS watch was
    /// installed; the callback evolves it by `step_cache` from here.
    pub closed spec fn seed_cache(&self) -> Map<Seq<char>, FileType> {
        self.seed@
    }

    /// The receiving half of the event channel, for a consumer that
    /// drains it with tokio's own API.
    #[verifier::external_body]
    pub fn receiver(&mut self) -> &mut tokio::sync::mpsc::Receiver<FileEvent> {
        &mut self.receiver
    }

}

impl ContentScanner {
    /// Installs a recursive OS watch on the root with the classification
    /// cache seeded from the given records (in order, later records
    /// overwriting earlier ones for the same path), and returns the live
    /// watcher. Fails with a descriptive error when the OS watcher cannot
    /// be created or the watch cannot be installed.
    pub fn watch_with_seed(&self, seed: &Vec<ScanResult>) -> (r: Result<ContentWatcher, IoError>)
        requires
            self.wf(),
        ensures
            r matches Ok(w) ==> w.seed_cache() == seed_map(seed@),
            r matches Err(e) ==> e.message@.len() > 0 && (is_prefix(
                "Failed to create watcher: "@,
                e.message@,
            ) || is_prefix("Failed to watch directory: "@, e.message@)),
    {
        let (tx, rx) = event_channel(100);
        let mut handler = WatchHandler::new(tx);
        let mut i: usize = 0;
        while i < seed.len()
            invariant
                0 <= i <= seed.len(),
                handler.cache() == seed_map(seed@.take(i as int)),
            decreases seed.len() - i,
        {
            let path = seed[i].path.clone();
            let file_type = seed[i].file_type;
            handler.record(path, file_type);
            proof {
                assert(seed@.take(i as int + 1).drop_last() =~= seed@.take(i as int));
                assert(seed@.take(i as int + 1).last() == seed@[i as int]);
            }
            i += 1;
        }
        proof {
            assert(seed@.take(seed@.len() as int) =~= seed@);
        }
        let ghost seeded = handler.cache();
        let mut watcher = match watcher_new(handler, 1) {
            Ok(w) => w,
            Err(e) => {
                let detail = notify_error_string(&e);
                let message = failure_message("Failed to create watcher: ", detail.as_str());
                proof {
                    reveal_strlit("Failed to create watcher: ");
                }
                return Err(IoError { message });
            },
        };
        match watcher_start(&mut watcher, self.root_dir_str()) {
            Ok(()) => Ok(ContentWatcher { watcher, receiver: rx, seed: Ghost(seeded) }),
            Err(e) => {
                let detail = notify_error_string(&e);
                let message = failure_message("Failed to watch directory: ", detail.as_str());
                proof {
                    reveal_strlit("Failed to watch directory: ");
                }
                Err(IoError { message })
            },
        }
    }

    /// Seeds a classification cache with one fresh scan and installs a
    /// recursive OS watch on the root: the returned watcher starts from
    /// the mapping of a scan output — every seeded path wanted and carrying
    /// its own classification, so the cache starts consistent. The OS
    /// callback then classifies changed files, maintains the cache, and
    /// forwards exactly one typed event per raw notification into a
    /// bounded channel, dropping events rather than blocking when the
    /// channel is full. Fails when the root cannot be read or the OS
    /// watch cannot be installed.
    pub fn watch(&self) -> (r: Result<ContentWatcher, IoError>)
        requires
            self.wf(),
        ensures
            r matches Ok(w) ==> cache_consistent(w.seed_cache()) && (exists|v: Seq<ScanResult>|
                w.seed_cache() == seed_map(v) && (forall|j: int|
                    0 <= j < v.len() ==> self.result_ok(#[trigger] v[j]))),
            r matches Err(e) ==> e.message@.len() > 0 && (is_prefix(
                "Root directory unreadable: "@,
                e.message@,
            ) || is_prefix("Failed to create watcher: "@, e.message@) || is_prefix(
                "Failed to watch directory: "@,
                e.message@,
            )),
    {
        let seed = match self.scan() {
            Ok(v) => v,
            Err(e) => {
                return Err(e);
            },
        };
        match self.watch_with_seed(&seed) {
            Ok(w) => {
                proof {
                    lemma_seed_map_consistent(self, seed@);
                    assert(w.seed_cache() == seed_map(seed@) && (forall|j: int|
                        0 <= j < seed@.len() ==> self.result_ok(#[trigger] seed@[j])));
                }
                Ok(w)
            },
            Err(e) => Err(e),
        }
    }
}

#[verifier::external_type_specification]
#[verifier::external_body]
#[verifier::reject_recursive_types(T)]
pub struct ExSender<T>(tokio::sync::mpsc::Sender<T>);

#[verifier::external_type_specification]
#[verifier::external_body]
#[verifier::reject_recursive_types(T)]
pub struct ExReceiver<T>(tokio::sync::mpsc::Receiver<T>);

#[verifier::external_type_specification]
#[verifier::external_body]
pub struct ExEvent(notify::Event);

#[verifier::external_type_specification]
#[verifier::external_body]
pub struct ExNotifyError(notify::Error);

#[verifier::external_type_specification]
#[verifier::external_body]
pub struct ExRecommendedWatcher(notify::RecommendedWatcher);

/// Relies on tokio::sync::mpsc::channel: a bounded channel of capacity
/// `cap` (which must be positive) connecting one sender to one receiver,
/// delivering the events it accepted in the order they were sent.
#[verifier::external_body]
fn event_channel(cap: usize) -> (r: (
    tokio::sync::mpsc::Sender<FileEvent>,
    tokio::sync::mpsc::Receiver<FileEvent>,
))
    requires
        cap >= 1,
{
    tokio::sync::mpsc::channel(cap)
}

/// Relies on tokio's Sender::try_send: enqueues the event if the channel
/// has room and the receiver lives, and otherwise gives the event up
/// without ever waiting; returns whether the event was enqueued.
#[verifier::external_body]
fn try_send(s: &tokio::sync::mpsc::Sender<FileEvent>, ev: FileEvent) -> (r: bool) {
    s.try_send(ev).is_ok()
}

/// The class of OS event the `kind` field of a notify::Event holds:
/// create, modify, remove, or anything else.
pub uninterp spec fn event_class_of(e: notify::Event) -> EventClass;

/// The first of the paths the `paths` field of a notify::Event holds, if
/// it holds any.
pub uninterp spec fn event_first_path_of(e: notify::Event) -> Option<Seq<char>>;

/// Relies on the `paths` field of notify::Event: the first path the event
/// names, if it names any.
#[verifier::external_body]
fn event_first_path(e: &notify::Event) -> (r: Option<String>)
    ensures
        match r {
            Some(p) => event_first_path_of(*e) == Some(p@),
            None => event_first_path_of(*e) is None,
        },
{
    e.paths.first().map(|p| p.to_string_lossy().into_owned())
}

/// Relies on the `kind` field of notify::Event, telling the create-,
/// modify- and remove-class events apart; every other kind is ignored.
#[verifier::external_body]
fn event_class(e: &notify::Event) -> (r: EventClass)
    ensures
        r == event_class_of(*e),
{
    match e.kind {
        notify::EventKind::Create(_) => EventClass::Create,
        notify::EventKind::Modify(_) => EventClass::Modify,
        notify::EventKind::Remove(_) => EventClass::Remove,
        _ => EventClass::Other,
    }
}

/// Relies on std's Path::is_dir: whether the path points at a directory.
#[verifier::external_body]
fn path_is_dir(p: &str) -> (r: bool) {
    std::path::Path::new(p).is_dir()
}

/// Relies on the Display impl of notify::Error for a human-readable
/// description of a watch failure.
#[verifier::external_body]
fn notify_error_string(e: &notify::Error) -> (r: String) {
    format!("{}", e)
}

/// Relies on notify::RecommendedWatcher::new: constructs the platform's
/// recommended OS watcher, which invokes the handler once per raw
/// notification on the watcher's own thread, polling every `poll_secs`
/// seconds where the platform must poll. The watch's behavior from the
/// handler's cache onward is therefore `WatchHandler::handle`'s contract,
/// one call per notification.
#[verifier::external_body]
fn watcher_new(handler: WatchHandler, poll_secs: u64) -> (r: Result<
    notify::RecommendedWatcher,
    notify::Error,
>) {
    let mut handler = handler;
    notify::RecommendedWatcher::new(
        move |res: Result<notify::Event, notify::Error>| {
            handler.handle(res);
        },
        notify::Config::default().with_poll_interval(core::time::Duration::from_secs(poll_secs)),
    )
}

/// Relies on notify::Watcher::watch: begins watching `root` recursively;
/// fails when the OS watch cannot be installed (for instance when the
/// root does not exist or the platform's watch limit is exceeded).
#[verifier::external_body]
fn watcher_start(w: &mut notify::RecommendedWatcher, root: &str) -> (r: Result<
    (),
    notify::Error,
>) {
    w.watch(std::path::Path::new(root), notify::RecursiveMode::Recursive)
}

} // verus!
