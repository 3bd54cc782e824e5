//! The path mapper: a deterministic, pure map from a URL to the local
//! storage path of the mirrored resource.
//!
//! The URL's path component, minus its leading separator, becomes a
//! directory chain under the run's output root, and a fixed filename inside
//! it holds the resource's raw bytes: `<root>/<url-path>/index.html`. Query
//! strings and fragments are not reflected in the stored path, so two URLs
//! differing only there collide by design; the mapping is injective on the
//! path component for paths without a trailing separator.

use vstd::prelude::*;
use vstd::string::StrSliceExecFns;
use vstd::string::StringExecFns;

use crate::urls::Url;

verus! {

/// The storage path assigned, under the output root `root`, to a URL with
/// the given path component: the path minus its leading `/`, rooted under
/// `root`, with `index.html` appended (directly where the path already ends
/// in a separator or is empty).
pub open spec fn storage_path_of(root: Seq<char>, path: Seq<char>) -> Seq<char> {
    let stripped = if path.len() > 0 && path[0] == '/' {
        path.subrange(1, path.len() as int)
    } else {
        path
    };
    if stripped.len() == 0 {
        root + "/"@ + "index.html"@
    } else if stripped.last() == '/' {
        root + "/"@ + stripped + "index.html"@
    } else {
        root + "/"@ + stripped + "/"@ + "index.html"@
    }
}

/// Maps a URL to the local path its bytes are stored at, under the output
/// root `root`. Pure and deterministic: the result depends on the root and
/// the URL's path component alone.
pub fn to_storage_path(root: &str, u: &Url) -> (r: String)
    ensures
        r@ == storage_path_of(root@, u@.path),
{
    let p = u.path.as_str();
    let n = p.unicode_len();
    let stripped: &str = if n > 0 && p.get_char(0) == '/' {
        p.substring_char(1, n)
    } else {
        p
    };
    let m = stripped.unicode_len();
    let mut s = String::from_str(root);
    s.append("/");
    s.append(stripped);
    if m > 0 && stripped.get_char(m - 1) != '/' {
        s.append("/");
    }
    s.append("index.html");
    proof {
        assert(s@ =~= storage_path_of(root@, u@.path));
    }
    s
}

/// Path determinism: the storage path is a function of the output root and
/// the URL's path component alone, so two URLs with equal paths — in
/// particular one URL mapped twice, and URLs differing only by query or
/// fragment — are stored at the same place.
pub proof fn lemma_storage_path_deterministic(root: Seq<char>, p1: Seq<char>, p2: Seq<char>)
    requires
        p1 == p2,
    ensures
        storage_path_of(root, p1) == storage_path_of(root, p2),
{
}

/// Path injectivity: under one output root, for URL paths that start with
/// the leading separator and do not end in one, distinct paths are stored
/// at distinct places. (A path with a trailing separator collides with its
/// trimmed form: `/a` and `/a/` both map to `<root>/a/index.html`.)
pub proof fn lemma_storage_path_injective(root: Seq<char>, p1: Seq<char>, p2: Seq<char>)
    requires
        p1.len() > 0,
        p2.len() > 0,
        p1[0] == '/',
        p2[0] == '/',
        p1.last() != '/',
        p2.last() != '/',
        p1 != p2,
    ensures
        storage_path_of(root, p1) != storage_path_of(root, p2),
{
    let s1 = p1.subrange(1, p1.len() as int);
    let s2 = p2.subrange(1, p2.len() as int);
    let head = root + "/"@;
    let tail = "/"@ + "index.html"@;
    assert(storage_path_of(root, p1) =~= head + s1 + tail);
    assert(storage_path_of(root, p2) =~= head + s2 + tail);
    if storage_path_of(root, p1) == storage_path_of(root, p2) {
        assert(s1.len() == s2.len());
        assert forall|i: int| 0 <= i < s1.len() implies s1[i] == s2[i] by {
            assert((head + s1 + tail)[head.len() + i] == s1[i]);
            assert((head + s2 + tail)[head.len() + i] == s2[i]);
        }
        assert(s1 =~= s2);
        assert forall|i: int| 0 <= i < p1.len() implies p1[i] == p2[i] by {
            if i >= 1 {
                assert(s1[i - 1] == p1[i]);
                assert(s2[i - 1] == p2[i]);
            }
        }
        assert(p1 =~= p2);
    }
}

} // verus!
