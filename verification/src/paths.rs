//! File system paths as text: the joining rule of `std::path::Path` on Unix.

use crate::text;
use vstd::prelude::*;
use vstd::string::*;

verus! {

/// Whether `path` starts at the root.
pub open spec fn is_absolute(path: Seq<char>) -> bool {
    path.len() > 0 && path[0] == '/'
}

/// `a` followed by `b`: an absolute `b` replaces `a`, and a separator is put
/// between them where `a` does not end with one.
pub open spec fn joined(a: Seq<char>, b: Seq<char>) -> Seq<char> {
    if is_absolute(b) {
        b
    } else if a.len() == 0 || a.last() == '/' {
        a + b
    } else {
        a.push('/') + b
    }
}

/// `Path::is_absolute`.
pub fn absolute(path: &str) -> (r: bool)
    ensures
        r == is_absolute(path@),
{
    let v = text::chars_of(path);
    v.len() > 0 && v[0] == '/'
}

/// `Path::join`.
pub fn join_path(a: &str, b: &str) -> (r: String)
    ensures
        r@ == joined(a@, b@),
{
    if absolute(b) {
        return b.to_owned();
    }
    let v = text::chars_of(a);
    if v.len() == 0 || v[v.len() - 1] == '/' {
        a.to_owned().concat(b)
    } else {
        let mut s = a.to_owned();
        s.push('/');
        s.concat(b)
    }
}

} // verus!
