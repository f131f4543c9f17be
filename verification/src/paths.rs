//! Path strings relative to a scan root.
//!
//! Paths are modeled as strings with `/` as the component separator.
//! Include and exclude patterns are matched against the path relative to
//! the scan root, never the absolute path, so identical pattern sets
//! behave the same wherever the root directory lives on disk.

use vstd::prelude::*;

verus! {

/// Whether `pre` is a prefix of `s`.
pub open spec fn is_prefix(pre: Seq<char>, s: Seq<char>) -> bool {
    pre.len() <= s.len() && s.take(pre.len() as int) == pre
}

/// The path `p` relative to `root`: the remainder of `p` after `root` and
/// the separator that follows it. `None` when `p` does not lie under
/// `root` (textually), which a scan logs and skips.
pub open spec fn spec_relative_to(p: Seq<char>, root: Seq<char>) -> Option<Seq<char>> {
    if !is_prefix(root, p) {
        None
    } else if p.len() == root.len() {
        Some(Seq::empty())
    } else if root.len() == 0 {
        Some(p)
    } else if root[root.len() - 1] == '/' {
        Some(p.skip(root.len() as int))
    } else if p[root.len() as int] == '/' {
        Some(p.skip(root.len() as int + 1))
    } else {
        None
    }
}

/// The path `path` relative to `root`, or `None` when `path` does not lie
/// under `root`.
pub fn relative_to<'a>(path: &'a str, root: &str) -> (r: Option<&'a str>)
    ensures
        match r {
            Some(rel) => spec_relative_to(path@, root@) == Some(rel@),
            None => spec_relative_to(path@, root@) is None,
        },
{
    let pl = path.unicode_len();
    let rl = root.unicode_len();
    if rl > pl {
        proof {
            assert(!is_prefix(root@, path@));
        }
        return None;
    }
    let mut i: usize = 0;
    while i < rl
        invariant
            pl == path@.len(),
            rl == root@.len(),
            rl <= pl,
            0 <= i <= rl,
            forall|j: int| 0 <= j < i ==> path@[j] == root@[j],
        decreases rl - i,
    {
        if path.get_char(i) != root.get_char(i) {
            proof {
                assert(path@.take(rl as int)[i as int] != root@[i as int]);
                assert(!is_prefix(root@, path@));
            }
            return None;
        }
        i += 1;
    }
    proof {
        assert(path@.take(rl as int) =~= root@);
    }
    if pl == rl {
        let r = path.substring_char(pl, pl);
        proof {
            assert(r@ =~= Seq::<char>::empty());
        }
        return Some(r);
    }
    if rl == 0 {
        let r = path.substring_char(0, pl);
        proof {
            assert(r@ =~= path@);
        }
        return Some(r);
    }
    if root.get_char(rl - 1) == '/' {
        let r = path.substring_char(rl, pl);
        proof {
            assert(r@ =~= path@.skip(rl as int));
        }
        return Some(r);
    }
    if path.get_char(rl) == '/' {
        let r = path.substring_char(rl + 1, pl);
        proof {
            assert(r@ =~= path@.skip(rl + 1));
        }
        return Some(r);
    }
    None
}

} // verus!
