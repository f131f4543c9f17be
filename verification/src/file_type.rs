//! Semantic classification of files by extension.
//!
//! Classification is total: every path gets a `FileType`, falling back to
//! `Other` when the path has no extension or an unrecognized one. The
//! extension is the portion of the final path component after its last
//! `.`, provided that dot is not the component's first character (so
//! dotfiles such as `.gitignore` have no extension). Comparison with the
//! recognized extensions is ASCII case-insensitive.

use vstd::prelude::*;

verus! {

/// Semantic type of a discovered file, derived from its extension alone.
#[derive(Debug, Clone, Copy, PartialEq, Eq, Structural)]
pub enum FileType {
    /// Markdown files (`md`).
    Markdown,
    /// Asset files: images, stylesheets and scripts.
    Asset,
    /// Everything else, including files without an extension.
    Other,
}

/// `c` is the letter given by its lower-case form `lo` and upper-case form
/// `up`, in either case.
pub open spec fn ci_is(c: char, lo: char, up: char) -> bool {
    c == lo || c == up
}

/// Index of the last occurrence of `c` in `s`, or -1 if `c` does not occur.
pub open spec fn last_index_of(s: Seq<char>, c: char) -> int
    decreases s.len(),
{
    if s.len() == 0 {
        -1
    } else if s[s.len() - 1] == c {
        s.len() - 1
    } else {
        last_index_of(s.drop_last(), c)
    }
}

/// `last_index_of` returns a position of `c` in `s` with nothing but
/// non-`c` characters after it, or -1 when `c` does not occur at all.
pub proof fn lemma_last_index_of_props(s: Seq<char>, c: char)
    ensures
        -1 <= last_index_of(s, c) < s.len(),
        last_index_of(s, c) >= 0 ==> s[last_index_of(s, c)] == c,
        forall|j: int| last_index_of(s, c) < j < s.len() ==> s[j] != c,
    decreases s.len(),
{
    if s.len() == 0 {
    } else if s[s.len() - 1] == c {
    } else {
        lemma_last_index_of_props(s.drop_last(), c);
        assert(forall|j: int| 0 <= j < s.len() - 1 ==> s[j] == s.drop_last()[j]);
    }
}

/// Extending a sequence by one character either moves the last occurrence
/// to the new position or leaves it where it was.
pub proof fn lemma_last_index_of_step(s: Seq<char>, c: char, i: int)
    requires
        0 <= i < s.len(),
    ensures
        last_index_of(s.take(i + 1), c) == if s[i] == c {
            i
        } else {
            last_index_of(s.take(i), c)
        },
{
    let t = s.take(i + 1);
    assert(t[t.len() - 1] == s[i]);
    if s[i] == c {
    } else {
        assert(t.drop_last() =~= s.take(i));
    }
}

/// The extension of a path: what follows the last `.` of the final path
/// component, provided that dot is not the component's first character.
pub open spec fn spec_extension(p: Seq<char>) -> Option<Seq<char>> {
    let dot = last_index_of(p, '.');
    let sep = last_index_of(p, '/');
    if dot > sep + 1 {
        Some(p.subrange(dot + 1, p.len() as int))
    } else {
        None
    }
}

/// The recognized markdown extension, ASCII case-insensitively.
pub open spec fn is_markdown_ext(e: Seq<char>) -> bool {
    e.len() == 2 && ci_is(e[0], 'm', 'M') && ci_is(e[1], 'd', 'D')
}

/// The recognized asset extensions (jpg, jpeg, png, gif, svg, css, js),
/// ASCII case-insensitively.
pub open spec fn is_asset_ext(e: Seq<char>) -> bool {
    ||| (e.len() == 3 && ci_is(e[0], 'j', 'J') && ci_is(e[1], 'p', 'P') && ci_is(e[2], 'g', 'G'))
    ||| (e.len() == 4 && ci_is(e[0], 'j', 'J') && ci_is(e[1], 'p', 'P') && ci_is(e[2], 'e', 'E')
        && ci_is(e[3], 'g', 'G'))
    ||| (e.len() == 3 && ci_is(e[0], 'p', 'P') && ci_is(e[1], 'n', 'N') && ci_is(e[2], 'g', 'G'))
    ||| (e.len() == 3 && ci_is(e[0], 'g', 'G') && ci_is(e[1], 'i', 'I') && ci_is(e[2], 'f', 'F'))
    ||| (e.len() == 3 && ci_is(e[0], 's', 'S') && ci_is(e[1], 'v', 'V') && ci_is(e[2], 'g', 'G'))
    ||| (e.len() == 3 && ci_is(e[0], 'c', 'C') && ci_is(e[1], 's', 'S') && ci_is(e[2], 's', 'S'))
    ||| (e.len() == 2 && ci_is(e[0], 'j', 'J') && ci_is(e[1], 's', 'S'))
}

/// Classification of an extension.
pub open spec fn classify_ext(e: Seq<char>) -> FileType {
    if is_markdown_ext(e) {
        FileType::Markdown
    } else if is_asset_ext(e) {
        FileType::Asset
    } else {
        FileType::Other
    }
}

/// Classification of a path: by its extension, `Other` if it has none.
pub open spec fn spec_classify(p: Seq<char>) -> FileType {
    match spec_extension(p) {
        Some(e) => classify_ext(e),
        None => FileType::Other,
    }
}

/// Index of the last occurrence of `c` in `s`, scanning once.
fn find_last(s: &str, c: char) -> (r: Option<usize>)
    ensures
        match r {
            Some(i) => i < s@.len() && last_index_of(s@, c) == i,
            None => last_index_of(s@, c) == -1,
        },
{
    let n = s.unicode_len();
    let mut r: Option<usize> = None;
    let mut i: usize = 0;
    while i < n
        invariant
            n == s@.len(),
            0 <= i <= n,
            match r {
                Some(k) => k < i && last_index_of(s@.take(i as int), c) == k,
                None => last_index_of(s@.take(i as int), c) == -1,
            },
        decreases n - i,
    {
        let ch = s.get_char(i);
        proof {
            lemma_last_index_of_step(s@, c, i as int);
        }
        if ch == c {
            r = Some(i);
        }
        i += 1;
    }
    proof {
        assert(s@.take(n as int) =~= s@);
    }
    r
}

/// Classification of an already-extracted extension.
fn classify_ext_str(e: &str) -> (t: FileType)
    ensures
        t == classify_ext(e@),
{
    let n = e.unicode_len();
    if n == 2 {
        let c0 = e.get_char(0);
        let c1 = e.get_char(1);
        if (c0 == 'm' || c0 == 'M') && (c1 == 'd' || c1 == 'D') {
            FileType::Markdown
        } else if (c0 == 'j' || c0 == 'J') && (c1 == 's' || c1 == 'S') {
            FileType::Asset
        } else {
            FileType::Other
        }
    } else if n == 3 {
        let c0 = e.get_char(0);
        let c1 = e.get_char(1);
        let c2 = e.get_char(2);
        if ((c0 == 'j' || c0 == 'J') && (c1 == 'p' || c1 == 'P') && (c2 == 'g' || c2 == 'G'))
            || ((c0 == 'p' || c0 == 'P') && (c1 == 'n' || c1 == 'N') && (c2 == 'g' || c2 == 'G'))
            || ((c0 == 'g' || c0 == 'G') && (c1 == 'i' || c1 == 'I') && (c2 == 'f' || c2 == 'F'))
            || ((c0 == 's' || c0 == 'S') && (c1 == 'v' || c1 == 'V') && (c2 == 'g' || c2 == 'G'))
            || ((c0 == 'c' || c0 == 'C') && (c1 == 's' || c1 == 'S') && (c2 == 's' || c2 == 'S')) {
            FileType::Asset
        } else {
            FileType::Other
        }
    } else if n == 4 {
        let c0 = e.get_char(0);
        let c1 = e.get_char(1);
        let c2 = e.get_char(2);
        let c3 = e.get_char(3);
        if (c0 == 'j' || c0 == 'J') && (c1 == 'p' || c1 == 'P') && (c2 == 'e' || c2 == 'E')
            && (c3 == 'g' || c3 == 'G') {
            FileType::Asset
        } else {
            FileType::Other
        }
    } else {
        FileType::Other
    }
}

/// Classifies a path by its extension, case-insensitively; total, with
/// `Other` as the fallback for paths without a recognized extension.
pub fn classify(path: &str) -> (t: FileType)
    ensures
        t == spec_classify(path@),
{
    let n = path.unicode_len();
    let dot = find_last(path, '.');
    let sep = find_last(path, '/');
    match dot {
        None => FileType::Other,
        Some(d) => {
            let in_name = match sep {
                None => d > 0,
                Some(sp) => d > sp + 1,
            };
            if in_name {
                let e = path.substring_char(d + 1, n);
                classify_ext_str(e)
            } else {
                FileType::Other
            }
        },
    }
}

} // verus!
