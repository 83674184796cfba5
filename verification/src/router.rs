//! The request router: maps a request's path and method to one of two
//! fixed handlers and produces the response.
//!
//! Paths are matched exactly, with no wildcards; any other path or
//! method is out of this core's contract and is left to the transport's
//! default not-found behaviour. The root route serves the static index
//! page and never touches the controller; the change route commits one
//! toggle and confirms it, or reports a hardware fault with a
//! server-error status.

use vstd::prelude::*;
use vstd::string::StrSliceExecFns;
use crate::html::{change_html, change_page, fault_html, fault_page, index_html, index_page};
use crate::model::{step, RequestEvent};
use crate::output::OutputController;

verus! {

/// The request method, as far as this core reads it: the read-only
/// retrieval method, or anything else.
#[derive(Clone, Copy, Debug, PartialEq, Eq, Structural)]
pub enum Method {
    Get,
    Other,
}

/// A matched route.
#[derive(Clone, Copy, Debug, PartialEq, Eq, Structural)]
pub enum Route {
    /// The root path: serve the index page, no side effect.
    Index,
    /// The change path: toggle the output and confirm.
    Change,
}

/// A response ready to be written back through the transport.
#[derive(Clone, Copy, Debug, PartialEq, Eq)]
pub struct HttpResponse {
    pub status: u16,
    pub body: &'static str,
}

/// Which route, if any, a request matches: the retrieval method on
/// exactly `/` or exactly `/change`, and nothing else.
pub open spec fn route_of(path: Seq<char>, method: Method) -> Option<Route> {
    if method != Method::Get {
        None
    } else if path == "/"@ {
        Some(Route::Index)
    } else if path == "/change"@ {
        Some(Route::Change)
    } else {
        None
    }
}

/// The effect a request has on the output controller, given whether the
/// platform layer's pin write took effect.
pub open spec fn request_event(path: Seq<char>, method: Method, write_applied: bool) -> RequestEvent {
    if route_of(path, method) == Some(Route::Change) {
        if write_applied {
            RequestEvent::ToggleApplied
        } else {
            RequestEvent::ToggleFailed
        }
    } else {
        RequestEvent::Read
    }
}

/// Exact character-wise equality of two strings.
fn str_eq(a: &str, b: &str) -> (r: bool)
    ensures
        r == (a@ == b@),
{
    let a_len: usize = a.unicode_len();
    let b_len: usize = b.unicode_len();
    if a_len != b_len {
        return false;
    }
    let mut i: usize = 0;
    while i < a_len
        invariant
            a_len == a@.len(),
            a_len == b@.len(),
            i <= a_len,
            forall|j: int| 0 <= j < i ==> a@[j] == b@[j],
        decreases a_len - i,
    {
        if a.get_char(i) != b.get_char(i) {
            return false;
        }
        i = i + 1;
    }
    proof {
        assert(a@ =~= b@);
    }
    true
}

/// Match a request against the two fixed routes.
pub fn match_route(path: &str, method: Method) -> (r: Option<Route>)
    ensures
        r == route_of(path@, method),
{
    match method {
        Method::Get => {
            if str_eq(path, "/") {
                Some(Route::Index)
            } else if str_eq(path, "/change") {
                Some(Route::Change)
            } else {
                None
            }
        },
        Method::Other => None,
    }
}

/// Serve one request. The caller has already attempted the physical pin
/// flip for a matched change request and reports the outcome in
/// `write_applied` (it is ignored for any other request). Returns the
/// response to write back, or `None` for an unmatched request, which is
/// delegated to the transport's default handler.
pub fn dispatch(
    ctrl: &mut OutputController,
    path: &str,
    method: Method,
    write_applied: bool,
) -> (resp: Option<HttpResponse>)
    requires
        request_event(path@, method, write_applied) == RequestEvent::ToggleApplied
            ==> old(ctrl)@.commits < u64::MAX,
    ensures
        final(ctrl)@ == step(old(ctrl)@, request_event(path@, method, write_applied)),
        (resp is Some) == (route_of(path@, method) is Some),
        route_of(path@, method) == Some(Route::Index) ==> (resp matches Some(r)
            && r.status == 200 && r.body@ == index_page()),
        route_of(path@, method) == Some(Route::Change) && write_applied ==> (resp matches Some(r)
            && r.status == 200 && r.body@ == change_page()),
        route_of(path@, method) == Some(Route::Change) && !write_applied ==> (resp matches Some(r)
            && r.status == 500 && r.body@ == fault_page()),
{
    match match_route(path, method) {
        None => None,
        Some(Route::Index) => Some(HttpResponse { status: 200, body: index_html() }),
        Some(Route::Change) => match ctrl.toggle(write_applied) {
            Ok(_) => Some(HttpResponse { status: 200, body: change_html() }),
            Err(_) => Some(HttpResponse { status: 500, body: fault_html() }),
        },
    }
}

} // verus!
