//! The directory listing: one line per entry whose name is representable as
//! text, in the order the entries were enumerated. An entry is handed in as
//! `None` when its name could not be represented as text; such entries are
//! silently skipped.

use vstd::prelude::*;
use vstd::string::StringExecFns;
use crate::http::{Response, ResponseBody, STATUS_OK, STATUS_SERVER_ERROR};

verus! {

/// The text one directory entry contributes to the listing: its name followed
/// by a newline, or nothing when the name is not representable as text.
pub open spec fn entry_line(name: Option<Seq<char>>) -> Seq<char> {
    match name {
        Some(s) => s.push('\n'),
        None => Seq::empty(),
    }
}

/// The full listing text for a snapshot of directory entries, in enumeration
/// order.
pub open spec fn listing_text(names: Seq<Option<Seq<char>>>) -> Seq<char>
    decreases names.len(),
{
    if names.len() == 0 {
        Seq::empty()
    } else {
        listing_text(names.drop_last()) + entry_line(names.last())
    }
}

/// Builds the listing body: each text-representable name on its own line, in
/// the given order; entries without a text name contribute nothing.
pub fn build_listing(names: &Vec<Option<String>>) -> (body: String)
    ensures
        body@ == listing_text(names.deep_view()),
{
    let ghost dv = names.deep_view();
    let mut body = String::new();
    proof {
        assert(dv.take(0) =~= Seq::<Option<Seq<char>>>::empty());
    }
    let n = names.len();
    for i in 0..n
        invariant
            n == names@.len(),
            dv == names.deep_view(),
            body@ == listing_text(dv.take(i as int)),
    {
        match &names[i] {
            Some(name) => {
                body.append(name.as_str());
                body.append("\n");
                proof {
                    reveal_strlit("\n");
                    assert(name@ + "\n"@ =~= name@.push('\n'));
                }
            },
            None => {},
        }
        proof {
            assert(dv.take(i + 1).drop_last() =~= dv.take(i as int));
            assert(dv.take(i + 1).last() == dv[i as int]);
            assert(listing_text(dv.take(i as int)) + Seq::<char>::empty()
                =~= listing_text(dv.take(i as int)));
        }
    }
    proof {
        assert(dv.take(n as int) =~= dv);
    }
    body
}

/// The listing handler's decision: a directory snapshot yields 200 with the
/// listing text; failure to enumerate the directory itself yields a server
/// error with an empty body.
pub fn list_response(entries: Option<&Vec<Option<String>>>) -> (r: Response)
    ensures
        entries matches Some(names) ==> (r.status == STATUS_OK
            && (r.body matches ResponseBody::Text(t) && t@ == listing_text(names.deep_view()))),
        entries is None ==> (r.status == STATUS_SERVER_ERROR && r.body is Empty),
{
    match entries {
        Some(names) => Response { status: STATUS_OK, body: ResponseBody::Text(build_listing(names)) },
        None => Response { status: STATUS_SERVER_ERROR, body: ResponseBody::Empty },
    }
}

} // verus!
