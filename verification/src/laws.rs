//! Library-wide laws, proved once and stated where a reader can find
//! them: how file names determine classification, that exclude patterns
//! strictly subtract from scan results, and that the watcher's cache
//! round-trips a file's type from creation to deletion.

use vstd::prelude::*;

use crate::file_type::{
    ci_is, classify_ext, is_asset_ext, is_markdown_ext, last_index_of, lemma_last_index_of_props,
    spec_classify, spec_extension, FileType,
};
use crate::paths::spec_relative_to;
use crate::patterns::set_matches;
use crate::scanner::{lemma_spec_scan_sound, spec_scan, ContentScanner, FsEntry};
use crate::watcher::{cache_consistent, step_cache, step_emits, EventClass, FileEventView};

verus! {

/// A path that ends in `.` followed by `ext` — where `ext` holds no dot
/// and no separator, and the dot is not the first character of the final
/// component — has exactly `ext` as its extension.
pub proof fn lemma_extension_of_suffix(p: Seq<char>, ext: Seq<char>)
    requires
        p.len() >= ext.len() + 2,
        p[p.len() - ext.len() - 1] == '.',
        p[p.len() - ext.len() - 2] != '/',
        forall|i: int| 0 <= i < ext.len() ==> p[p.len() - ext.len() + i] == #[trigger] ext[i],
        forall|i: int| 0 <= i < ext.len() ==> #[trigger] ext[i] != '.' && ext[i] != '/',
    ensures
        spec_extension(p) == Some(ext),
{
    let n = p.len() as int;
    let k = n - ext.len() - 1;
    lemma_last_index_of_props(p, '.');
    lemma_last_index_of_props(p, '/');
    let dot = last_index_of(p, '.');
    let sep = last_index_of(p, '/');
    assert(dot >= k) by {
        if dot < k {
            assert(p[k] == '.');
        }
    }
    assert(dot <= k) by {
        if dot > k {
            assert(p[dot] == ext[dot - (k + 1)]);
        }
    }
    assert(sep < k - 1) by {
        if sep == k - 1 {
            assert(p[k - 1] == '/');
        }
        if sep == k {
            assert(p[k] == '.');
        }
        if sep > k {
            assert(p[sep] == ext[sep - (k + 1)]);
        }
    }
    assert(p.subrange(k + 1, n) =~= ext);
}

/// Any file whose name ends in `.md` (either letter case, and with the
/// dot not the first character of the final component) is classified as
/// Markdown. A bare dotfile such as `.md` has no extension and is
/// classified `Other` instead.
pub proof fn lemma_markdown_by_name(p: Seq<char>)
    requires
        p.len() >= 4,
        p[p.len() - 3] == '.',
        ci_is(p[p.len() - 2], 'm', 'M'),
        ci_is(p[p.len() - 1], 'd', 'D'),
        p[p.len() - 4] != '/',
    ensures
        spec_classify(p) == FileType::Markdown,
{
    let ext = p.subrange(p.len() - 2, p.len() as int);
    lemma_extension_of_suffix(p, ext);
    assert(is_markdown_ext(ext));
}

/// Any file whose name ends in a dot followed by one of the recognized
/// asset extensions (any letter case, dot not the first character of the
/// final component) is classified as an Asset.
pub proof fn lemma_asset_by_name(p: Seq<char>, ext: Seq<char>)
    requires
        is_asset_ext(ext),
        p.len() >= ext.len() + 2,
        p[p.len() - ext.len() - 1] == '.',
        p[p.len() - ext.len() - 2] != '/',
        p.subrange(p.len() - ext.len(), p.len() as int) == ext,
    ensures
        spec_classify(p) == FileType::Asset,
{
    assert(forall|i: int| 0 <= i < ext.len() ==> #[trigger] ext[i] != '.' && ext[i] != '/');
    lemma_extension_of_suffix(p, ext);
    assert(!is_markdown_ext(ext));
    assert(classify_ext(ext) == FileType::Asset);
}

/// A path whose extension is neither the markdown one nor an asset one —
/// or that has no extension at all — is classified `Other`.
pub proof fn lemma_other_by_extension(p: Seq<char>)
    requires
        match spec_extension(p) {
            Some(e) => !is_markdown_ext(e) && !is_asset_ext(e),
            None => true,
        },
    ensures
        spec_classify(p) == FileType::Other,
{
}

/// Exclude patterns strictly subtract from include matches: a path whose
/// relative form is matched by an include pattern and an exclude pattern
/// appears in no scan output, whatever the walker yielded.
pub proof fn lemma_exclude_strictly_subtracts(
    s: &ContentScanner,
    entries: Seq<FsEntry>,
    now: u64,
    path: Seq<char>,
)
    requires
        spec_relative_to(path, s.root()) is Some,
        set_matches(s.include_patterns(), spec_relative_to(path, s.root()).unwrap()),
        set_matches(s.exclude_patterns(), spec_relative_to(path, s.root()).unwrap()),
    ensures
        forall|j: int|
            0 <= j < spec_scan(s, entries, now).len() ==> (#[trigger] spec_scan(
                s,
                entries,
                now,
            )[j]).0 != path,
{
    lemma_spec_scan_sound(s, entries, now);
    assert(!s.wants(path));
}

/// An empty pattern list matches nothing: with no exclude patterns
/// configured, nothing is ever subtracted from the include matches.
pub proof fn lemma_empty_pattern_list_matches_nothing(path: Seq<char>)
    ensures
        !set_matches(Seq::<Seq<char>>::empty(), path),
{
}

/// Every watcher step keeps the cache consistent: each tracked path stays
/// mapped to its own classification.
pub proof fn lemma_step_preserves_consistency(
    m: Map<Seq<char>, FileType>,
    class: EventClass,
    path: Seq<char>,
    is_dir: bool,
)
    requires
        cache_consistent(m),
    ensures
        cache_consistent(step_cache(m, class, path, is_dir)),
{
}

/// Cache round trip: creating a file publishes a `Created` event with the
/// path's classification, and deleting it afterwards (with no deletion in
/// between) publishes a `Deleted` event carrying exactly the type that
/// was recorded at creation.
pub proof fn lemma_create_then_delete_round_trip(m: Map<Seq<char>, FileType>, path: Seq<char>)
    ensures
        step_emits(m, EventClass::Create, path, false) == Some(
            FileEventView::Created(path, spec_classify(path)),
        ),
        step_emits(
            step_cache(m, EventClass::Create, path, false),
            EventClass::Remove,
            path,
            false,
        ) == Some(FileEventView::Deleted(path, spec_classify(path))),
{
}

} // verus!
