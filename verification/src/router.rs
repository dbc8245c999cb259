//! The request router: the four fixed routes, dispatched on method and path.
//! A delete path carries its trailing identifier segment; everything else is
//! left to the host framework's default not-found behavior.

use vstd::prelude::*;
use vstd::string::StrSliceExecFns;
use vstd::string::StringExecFns;

verus! {

/// The HTTP methods the routing table distinguishes.
pub enum Method {
    Get,
    Post,
    Delete,
}

/// The handler a request is dispatched to, with the identifier path segment
/// for a delete.
pub enum Route {
    Add,
    ReadAll,
    Edit,
    DeleteItem(String),
    NotFound,
}

/// Whether two strings hold the same characters.
fn str_eq(s: &str, t: &str) -> (r: bool)
    ensures
        r == (s@ == t@),
{
    let n: usize = s.unicode_len();
    let m: usize = t.unicode_len();
    if n != m {
        return false;
    }
    let mut i: usize = 0;
    while i < n
        invariant
            n == s@.len(),
            n == t@.len(),
            i <= n,
            forall|j: int| 0 <= j < i ==> s@[j] == t@[j],
        decreases n - i,
    {
        if s.get_char(i) != t.get_char(i) {
            return false;
        }
        i = i + 1;
    }
    proof {
        assert(s@ =~= t@);
    }
    true
}

/// Dispatches a request to one of the four fixed routes: POST `/add` to
/// Create, GET `/` to ReadAll, POST `/edit` to Update, and DELETE
/// `/delete/{id}` to Delete, which receives the path's trailing segment.
/// Everything else is unrouted.
pub fn route(method: &Method, path: &str) -> (r: Route)
    ensures
        r is Add <==> *method is Post && path@ == "/add"@,
        r is ReadAll <==> *method is Get && path@ == "/"@,
        r is Edit <==> *method is Post && path@ == "/edit"@,
        r is DeleteItem <==> *method is Delete && path@.len() >= 8 && path@.subrange(0, 8)
            == "/delete/"@,
        r is DeleteItem ==> r->DeleteItem_0@ == path@.subrange(8, path@.len() as int),
{
    proof {
        reveal_strlit("/add");
        reveal_strlit("/edit");
        reveal_strlit("/");
        reveal_strlit("/delete/");
    }
    match method {
        Method::Post => {
            if str_eq(path, "/add") {
                proof {
                    assert("/add"@.len() == 4);
                    assert("/edit"@.len() == 5);
                    assert(path@ != "/edit"@);
                }
                Route::Add
            } else if str_eq(path, "/edit") {
                Route::Edit
            } else {
                Route::NotFound
            }
        },
        Method::Get => {
            if str_eq(path, "/") {
                Route::ReadAll
            } else {
                Route::NotFound
            }
        },
        Method::Delete => {
            let n: usize = path.unicode_len();
            if n >= 8 {
                let prefix = path.substring_char(0, 8);
                if str_eq(prefix, "/delete/") {
                    let rest = path.substring_char(8, n);
                    Route::DeleteItem(String::from_str(rest))
                } else {
                    Route::NotFound
                }
            } else {
                Route::NotFound
            }
        },
    }
}

} // verus!
