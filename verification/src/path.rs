//! Path resolution: turning a request's URL path into a filesystem-relative
//! name by stripping exactly the leading `/`. Deliberately minimal: no
//! percent-decoding, no segment normalization, no rejection of `.` or `..`.

use vstd::prelude::*;
use vstd::string::StrSliceExecFns;

verus! {

/// What resolution leaves of a URL path: everything after the leading slash.
pub open spec fn resolved(path: Seq<char>) -> Seq<char> {
    path.subrange(1, path.len() as int)
}

/// Strips exactly one leading `/` from a URL path, yielding the relative
/// filesystem path used verbatim against the server's working directory.
pub fn resolve_path(path: &str) -> (r: String)
    requires
        path@.len() >= 1,
        path@[0] == '/',
    ensures
        r@ == resolved(path@),
{
    let n = path.unicode_len();
    let rest = path.substring_char(1, n);
    rest.to_owned()
}

} // verus!
