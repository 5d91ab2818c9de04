//! The answer that is given over HTTP, as plain values: the caller turns it
//! into a response of its server.

use vstd::prelude::*;
use vstd::utf8::encode_utf8;

verus! {

/// An HTTP response: the status, the headers in the order in which they are
/// set, each a name and a value, and the body.
#[derive(Debug, Clone, PartialEq, Eq)]
pub struct HttpResponse {
    pub status: u16,
    pub headers: Vec<(String, String)>,
    pub body: Vec<u8>,
}

/// The mathematical content of an [`HttpResponse`].
pub struct HttpResponseView {
    pub status: u16,
    pub headers: Seq<(Seq<char>, Seq<char>)>,
    pub body: Seq<u8>,
}

impl View for HttpResponse {
    type V = HttpResponseView;

    open spec fn view(&self) -> HttpResponseView {
        HttpResponseView {
            status: self.status,
            headers: Seq::new(
                self.headers@.len(),
                |i: int| (self.headers@[i].0@, self.headers@[i].1@),
            ),
            body: self.body@,
        }
    }
}

/// Whether a byte may stand in the value of a header: a tab, or anything
/// from the space on but the delete character.
pub open spec fn header_byte_ok(byte: u8) -> bool {
    (byte >= 32 && byte != 127) || byte == 9
}

/// Whether a text may be the value of a header: whether each byte of its
/// UTF-8 form may stand in one.
pub open spec fn is_header_value(text: Seq<char>) -> bool {
    forall|i: int| 0 <= i < encode_utf8(text).len() ==> header_byte_ok(#[trigger] encode_utf8(text)[i])
}

/// Calls `HeaderValue::from_str` of the `http` crate, as `axum` hands it on,
/// and tells whether it accepted the text. Not proved: it accepts a text
/// exactly when each of its bytes is a tab or is at least 32 and not 127.
#[verifier::external_body]
pub(crate) fn header_value_accepts(text: &str) -> (accepted: bool)
    ensures
        accepted == is_header_value(text@),
{
    axum::http::HeaderValue::from_str(text).is_ok()
}

/// The response to a request that failed: status 500, no header, no body.
pub open spec fn error_response() -> HttpResponseView {
    HttpResponseView { status: 500, headers: Seq::empty(), body: Seq::empty() }
}

/// The response that carries an image: status 200, the media type as
/// content type, after it the other headers, and the payload as the body.
pub open spec fn image_response(
    mime_type: Seq<char>,
    more_headers: Seq<(Seq<char>, Seq<char>)>,
    data: Seq<u8>,
) -> HttpResponseView {
    HttpResponseView {
        status: 200,
        headers: seq![("content-type"@, mime_type)] + more_headers,
        body: data,
    }
}

impl HttpResponse {
    /// Builds the response to a request that failed.
    pub fn internal_server_error() -> (response: HttpResponse)
        ensures
            response@ == error_response(),
    {
        let response = HttpResponse { status: 500, headers: Vec::new(), body: Vec::new() };
        assert(response@.headers =~= Seq::empty());
        response
    }
}

} // verus!
