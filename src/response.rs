//! Deciding how an upstream response is relayed: its status and headers, and
//! whether its body is buffered for rewriting or streamed through.
use vstd::prelude::*;
use vstd::string::{StringExecFns, StringSliceAdditionalSpecFns};
use crate::forward::{drop_named, is_named, without_named, Header};
use crate::text::{append_bytes, contains, contains_bytes, eq_ignore_case};

verus! {

/// Status of the response that the proxy fabricates when the upstream cannot
/// be reached: Bad Gateway.
pub const BAD_GATEWAY: u16 = 502;

/// The body relayed in place of an HTML document that could not be read
/// from upstream.
pub const UNREADABLE_DOCUMENT: &'static str = "Proxy error reading HTML";

/// How a response body travels to the client.
#[derive(Clone, Copy, Debug, PartialEq, Eq, Structural)]
pub enum BodyMode {
    /// An HTML document: buffered whole, so that the relay script can be
    /// inserted.
    Document,
    /// Anything else: relayed chunk by chunk as it arrives. `flagged` marks a
    /// chunked or event-stream response, whose progress is logged.
    Stream { flagged: bool },
}

/// The value of the first header of `hs` named `name`, or nothing when no
/// header has that name.
pub open spec fn header_value(hs: Seq<Header>, name: Seq<u8>) -> Seq<u8>
    decreases hs.len(),
{
    if hs.len() == 0 {
        Seq::empty()
    } else if is_named(hs[0], name) {
        hs[0].value@
    } else {
        header_value(hs.drop_first(), name)
    }
}

/// How the body of a response with headers `hs` is relayed.
pub open spec fn mode_of(hs: Seq<Header>) -> BodyMode {
    let content_type = header_value(hs, "content-type".spec_bytes());
    if contains(content_type, "text/html".spec_bytes()) {
        BodyMode::Document
    } else {
        BodyMode::Stream {
            flagged: contains(header_value(hs, "transfer-encoding".spec_bytes()), "chunked".spec_bytes())
                || contains(content_type, "event-stream".spec_bytes()) || contains(
                content_type,
                "x-component".spec_bytes(),
            ),
        }
    }
}

/// The headers relayed to the client: all of them, but `Content-Length` for a
/// rewritten document, whose length changes.
pub open spec fn relayed_headers(hs: Seq<Header>, mode: BodyMode) -> Seq<Header> {
    match mode {
        BodyMode::Document => without_named(hs, "content-length".spec_bytes()),
        BodyMode::Stream { .. } => hs,
    }
}

/// Status line and headers of the response that reaches the client, and how
/// its body travels.
pub struct ResponseHead {
    pub status: u16,
    pub headers: Vec<Header>,
    pub mode: BodyMode,
}

/// A response that the proxy writes itself, status, headers and body.
pub struct FabricatedResponse {
    pub status: u16,
    pub headers: Vec<Header>,
    pub body: String,
}

proof fn lemma_header_value_at(hs: Seq<Header>, name: Seq<u8>, i: int)
    requires
        0 <= i <= hs.len(),
        forall|k: int| 0 <= k < i ==> !is_named(#[trigger] hs[k], name),
    ensures
        header_value(hs, name) == if i < hs.len() && is_named(hs[i], name) {
            hs[i].value@
        } else {
            header_value(hs.subrange(i, hs.len() as int), name)
        },
    decreases i,
{
    if i > 0 {
        let rest = hs.drop_first();
        assert(!is_named(hs[0], name));
        assert forall|k: int| 0 <= k < i - 1 implies !is_named(#[trigger] rest[k], name) by {
            assert(rest[k] == hs[k + 1]);
        }
        lemma_header_value_at(rest, name, i - 1);
        assert(rest.subrange(i - 1, rest.len() as int) =~= hs.subrange(i, hs.len() as int));
    } else {
        assert(hs.subrange(0, hs.len() as int) =~= hs);
    }
}

/// The value of the first header named `name`; empty when there is none.
pub fn first_header_value<'a>(headers: &'a Vec<Header>, name: &[u8]) -> (r: &'a [u8])
    ensures
        r@ == header_value(headers@, name@),
{
    let n = headers.len();
    let mut i: usize = 0;
    while i < n
        invariant
            n == headers@.len(),
            i <= n,
            forall|k: int| 0 <= k < i ==> !is_named(#[trigger] headers@[k], name@),
        decreases n - i,
    {
        if eq_ignore_case(headers[i].name.as_slice(), name) {
            proof {
                lemma_header_value_at(headers@, name@, i as int);
            }
            return headers[i].value.as_slice();
        }
        i = i + 1;
    }
    proof {
        lemma_header_value_at(headers@, name@, n as int);
        assert(headers@.subrange(n as int, n as int).len() == 0);
    }
    &[]
}

/// Decides how the body of a response with `headers` is relayed.
pub fn body_mode(headers: &Vec<Header>) -> (r: BodyMode)
    ensures
        r == mode_of(headers@),
{
    let content_type = first_header_value(headers, "content-type".as_bytes());
    if contains_bytes(content_type, "text/html".as_bytes()) {
        BodyMode::Document
    } else {
        let chunked = contains_bytes(
            first_header_value(headers, "transfer-encoding".as_bytes()),
            "chunked".as_bytes(),
        );
        BodyMode::Stream {
            flagged: chunked || contains_bytes(content_type, "event-stream".as_bytes())
                || contains_bytes(content_type, "x-component".as_bytes()),
        }
    }
}

/// The status and headers relayed to the client for an upstream response with
/// `status` and `headers`: the status unchanged, every header but
/// `Content-Length` on an HTML document, and how the body travels.
pub fn plan_response(status: u16, headers: Vec<Header>) -> (r: ResponseHead)
    ensures
        r.status == status,
        r.mode == mode_of(headers@),
        r.headers@ == relayed_headers(headers@, r.mode),
{
    let mode = body_mode(&headers);
    let headers = match mode {
        BodyMode::Document => drop_named(headers, "content-length".as_bytes()),
        BodyMode::Stream { .. } => headers,
    };
    ResponseHead { status, headers, mode }
}

/// Whether `status` reports a server error (500 to 599).
pub fn is_server_error(status: u16) -> (r: bool)
    ensures
        r == (500 <= status <= 599),
{
    500 <= status && status <= 599
}

/// The text/plain body of a fabricated Bad Gateway response for the transport
/// error described by `error`.
pub open spec fn gateway_body(error: Seq<char>) -> Seq<char> {
    "Proxy error: "@ + error
}

/// The response that the proxy sends when the upstream request failed before
/// any response arrived (connect or header timeout, refused connection): Bad
/// Gateway with a plain-text body that names the error.
pub fn bad_gateway(error: &str) -> (r: FabricatedResponse)
    ensures
        r.status == BAD_GATEWAY,
        r.headers@.len() == 1,
        r.headers@[0].name@ == "content-type".spec_bytes(),
        r.headers@[0].value@ == "text/plain".spec_bytes(),
        r.body@ == gateway_body(error@),
{
    let mut name: Vec<u8> = Vec::new();
    append_bytes(&mut name, "content-type".as_bytes());
    let mut value: Vec<u8> = Vec::new();
    append_bytes(&mut value, "text/plain".as_bytes());
    let mut headers: Vec<Header> = Vec::new();
    headers.push(Header { name, value });
    let mut body = "Proxy error: ".to_owned();
    body.append(error);
    FabricatedResponse { status: BAD_GATEWAY, headers, body }
}

} // verus!
