use vstd::prelude::*;
use vstd::string::StringExecFns;

use crate::json::ToJson;
use crate::model::{handler, mock_document};

verus! {

/// An incoming request, as far as the server sees it.
pub struct Request {
    pub method: String,
    pub path: String,
    pub query: String,
    pub body: Vec<u8>,
}

/// The answer to a request: a status code, the media type of the body if
/// there is one, and the body.
pub struct Reply {
    pub status: u16,
    pub content_type: Option<String>,
    pub body: String,
}

/// A reply as plain values: status, media type, body.
pub type ReplyView = (u16, Option<Seq<char>>, Seq<char>);

impl View for Reply {
    type V = ReplyView;

    open spec fn view(&self) -> ReplyView {
        (
            self.status,
            match self.content_type {
                Some(t) => Some(t@),
                None => None,
            },
            self.body@,
        )
    }
}

/// The versioned transcription path.
pub open spec fn listen_path() -> Seq<char> {
    "/v1/listen"@
}

/// The version path above it.
pub open spec fn version_path() -> Seq<char> {
    "/v1"@
}

/// The two paths that are served; every other path is not found.
pub open spec fn is_registered(path: Seq<char>) -> bool {
    path == listen_path() || path == version_path()
}

/// The reply owed to `req`: the canned document as JSON with status 200 on
/// a registered path, whatever the method, query and body; an empty 404
/// elsewhere.
pub open spec fn reply_for(req: Request) -> ReplyView {
    if is_registered(req.path@) {
        (200, Some("application/json"@), mock_document())
    } else {
        (404, None, Seq::empty())
    }
}

/// `a` and `b` hold the same characters.
fn same_text(a: &str, b: &str) -> (r: bool)
    ensures
        r == (a@ == b@),
{
    let n = a.unicode_len();
    if n != b.unicode_len() {
        return false;
    }
    let mut i: usize = 0;
    while i < n
        invariant
            n == a@.len() == b@.len(),
            i <= n,
            a@.take(i as int) == b@.take(i as int),
        decreases n - i,
    {
        if a.get_char(i) != b.get_char(i) {
            return false;
        }
        assert(a@.take(i + 1) =~= a@.take(i as int).push(a@[i as int]));
        assert(b@.take(i + 1) =~= b@.take(i as int).push(b@[i as int]));
        i = i + 1;
    }
    assert(a@ =~= a@.take(n as int));
    assert(b@ =~= b@.take(n as int));
    true
}

/// Answers a request. Only the path is read: on `/v1/listen` and `/v1` the
/// reply is the canned transcription document with status 200, on any other
/// path an empty 404.
pub fn serve(req: &Request) -> (r: Reply)
    ensures
        r@ == reply_for(*req),
        is_registered(req.path@) ==> r.status == 200 && r.body@ == mock_document(),
        !is_registered(req.path@) ==> r.status == 404,
{
    let path = req.path.as_str();
    if same_text(path, "/v1/listen") || same_text(path, "/v1") {
        let body = handler().to_json();
        Reply { status: 200, content_type: Some(String::from_str("application/json")), body }
    } else {
        Reply { status: 404, content_type: None, body: String::new() }
    }
}

/// The reply depends on the path alone: requests that differ only in method,
/// query string or body are answered alike.
pub proof fn lemma_input_invariant(a: Request, b: Request)
    requires
        a.path@ == b.path@,
    ensures
        reply_for(a) == reply_for(b),
{
}

/// Every request on a registered path, on either of the two and by any
/// method, receives one and the same reply; so do any number of them.
pub proof fn lemma_registered_replies_identical(a: Request, b: Request)
    requires
        is_registered(a.path@),
        is_registered(b.path@),
    ensures
        reply_for(a) == reply_for(b),
        reply_for(a).0 == 200,
        reply_for(a).2 == mock_document(),
{
}

/// A request on any other path is not found.
pub proof fn lemma_unregistered_not_found(req: Request)
    requires
        !is_registered(req.path@),
    ensures
        reply_for(req).0 == 404,
{
}

} // verus!
