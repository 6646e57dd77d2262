//! Unix path text: absolute-path test, joining, and the parent directory.

use vstd::prelude::*;
use vstd::string::*;

verus! {

/// A Unix path is absolute when it starts at the root.
pub open spec fn is_absolute_path(p: Seq<char>) -> bool {
    p.len() > 0 && p[0] == '/'
}

/// `base.join(comp)` for Unix paths: an absolute `comp` replaces `base`;
/// otherwise a separator is put between them unless `base` is empty or
/// already ends in one.
pub open spec fn path_join(base: Seq<char>, comp: Seq<char>) -> Seq<char> {
    if is_absolute_path(comp) {
        comp
    } else if base.len() == 0 || base.last() == '/' {
        base + comp
    } else {
        base + seq!['/'] + comp
    }
}

/// What `std::path::Path::parent` gives for `path`, rendered as text.
pub uninterp spec fn path_parent_of(path: Seq<char>) -> Option<Seq<char>>;

/// The parent directory of `path`, or `.` where it has none.
pub open spec fn parent_or_dot(path: Seq<char>) -> Seq<char> {
    match path_parent_of(path) {
        Some(q) => q,
        None => seq!['.'],
    }
}

/// Calls `std::path::Path::parent` on `path`. Its result is named
/// `path_parent_of`; of it this states only what the documentation says
/// plainly: the empty path and the root have no parent, and a relative
/// path of one component (no separator) has the empty path as parent.
#[verifier::external_body]
fn path_parent(path: &str) -> (r: Option<String>)
    ensures
        match r {
            Some(q) => path_parent_of(path@) == Some(q@),
            None => path_parent_of(path@) is None,
        },
        path@.len() == 0 ==> r is None,
        path@ == seq!['/'] ==> r is None,
        path@.len() > 0 && !path@.contains('/') ==> r is Some && r.unwrap()@.len() == 0,
{
    match std::path::Path::new(path).parent() {
        Some(q) => Some(q.to_string_lossy().into_owned()),
        None => None,
    }
}

/// Whether `p` is an absolute Unix path.
pub fn is_absolute(p: &str) -> (b: bool)
    ensures
        b == is_absolute_path(p@),
{
    p.unicode_len() > 0 && p.get_char(0) == '/'
}

/// Joins `comp` onto `base` as `Path::join` does on Unix.
pub fn join_path(base: &str, comp: &str) -> (r: String)
    ensures
        r@ == path_join(base@, comp@),
{
    if is_absolute(comp) {
        return String::from_str(comp);
    }
    let n: usize = base.unicode_len();
    let mut r = String::from_str(base);
    if n > 0 && base.get_char(n - 1) != '/' {
        r.append("/");
        proof {
            reveal_strlit("/");
        }
    }
    r.append(comp);
    proof {
        if n > 0 {
            assert(base@.last() == base@[n - 1]);
        }
    }
    r
}

/// The parent directory of `path`, or `.` where `Path::parent` gives none.
pub fn parent_dir_or_dot(path: &str) -> (r: String)
    ensures
        r@ == parent_or_dot(path@),
{
    match path_parent(path) {
        Some(q) => q,
        None => {
            proof {
                reveal_strlit(".");
            }
            String::from_str(".")
        },
    }
}

} // verus!
