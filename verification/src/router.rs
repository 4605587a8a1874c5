//! Request routing: which handler serves a given (method, path) pair.

use vstd::prelude::*;
use vstd::string::StringExecFns;
use crate::http::HttpMethod;
use crate::path::{resolve_path, resolved};

verus! {

/// The handler selected for a request, with the resolved file name where one
/// applies.
#[derive(Debug)]
pub enum Route {
    /// GET `/list`: enumerate the working directory.
    ListDir,
    /// GET of any other path: stream the named file to the client.
    Download { name: String },
    /// POST of any path: write the request body to the named file.
    Upload { name: String },
    /// Any other method: nothing matches, the response is 404 with an empty
    /// body.
    NoRoute,
}

/// Selects exactly one handler for a request. The literal path `/list` on GET
/// always routes to the directory listing, even if a file named `list`
/// exists; every other GET downloads, every POST uploads, and any other
/// method matches nothing.
pub fn route_request(method: HttpMethod, path: &str) -> (r: Route)
    requires
        path@.len() >= 1,
        path@[0] == '/',
    ensures
        method is Get && path@ == "/list"@ ==> r is ListDir,
        method is Get && path@ != "/list"@ ==> (r matches Route::Download { name }
            && name@ == resolved(path@)),
        method is Post ==> (r matches Route::Upload { name } && name@ == resolved(path@)),
        method is Other ==> r is NoRoute,
{
    match method {
        HttpMethod::Get => {
            if path.to_owned() == String::from_str("/list") {
                Route::ListDir
            } else {
                Route::Download { name: resolve_path(path) }
            }
        },
        HttpMethod::Post => Route::Upload { name: resolve_path(path) },
        HttpMethod::Other => Route::NoRoute,
    }
}

} // verus!
