//! Building the one upstream request that answers an inbound request.
use vstd::prelude::*;
use vstd::string::{StringExecFns, StringSliceAdditionalSpecFns};
use crate::text::{contains, contains_bytes, decimal, decimal_text, eq_ignore_case, equal_ignoring_case};

verus! {

/// One HTTP header: its name and its raw value bytes.
pub struct Header {
    pub name: Vec<u8>,
    pub value: Vec<u8>,
}

/// Whether header `h` has the name `name`, which header names compare up to
/// ASCII case.
pub open spec fn is_named(h: Header, name: Seq<u8>) -> bool {
    equal_ignoring_case(h.name@, name)
}

/// Whether header `h` is the `Host` header, which the upstream client sets
/// itself.
pub open spec fn is_host(h: Header) -> bool {
    is_named(h, "host".spec_bytes())
}

/// The headers of `hs` but those named `name`, in their order.
pub open spec fn without_named(hs: Seq<Header>, name: Seq<u8>) -> Seq<Header>
    decreases hs.len(),
{
    if hs.len() == 0 {
        Seq::empty()
    } else if is_named(hs.last(), name) {
        without_named(hs.drop_last(), name)
    } else {
        without_named(hs.drop_last(), name).push(hs.last())
    }
}

/// The inbound headers that are forwarded upstream: all but `Host`, in their
/// order.
pub open spec fn forwarded(hs: Seq<Header>) -> Seq<Header> {
    without_named(hs, "host".spec_bytes())
}

/// Whether the value of an `Accept` header asks for an event stream or a
/// component stream.
pub open spec fn asks_for_stream(value: Seq<u8>) -> bool {
    contains(value, "text/event-stream".spec_bytes()) || contains(value, "text/x-component".spec_bytes())
}

/// Whether some `Accept` header among `hs` asks for a streamed response.
pub open spec fn accepts_stream(hs: Seq<Header>) -> bool {
    exists|i: int|
        0 <= i < hs.len() && is_named(#[trigger] hs[i], "accept".spec_bytes()) && asks_for_stream(
            hs[i].value@,
        )
}

/// The upstream address for the request target `target` (path and query):
/// loopback, the upstream port, then the target unchanged.
pub open spec fn upstream_url(upstream_port: u16, target: Seq<char>) -> Seq<char> {
    "http://127.0.0.1:"@ + decimal(upstream_port as nat) + target
}

/// The body sent upstream: none when the inbound body is empty or could not
/// be read (`None`), else the inbound bytes.
pub open spec fn body_to_send(body: Option<Vec<u8>>) -> Option<Vec<u8>> {
    match body {
        Some(b) => if b@.len() == 0 {
            None
        } else {
            Some(b)
        },
        None => None,
    }
}

/// The request that the proxy issues upstream for one inbound request.
pub struct UpstreamRequest {
    /// The inbound method, unchanged.
    pub method: String,
    /// Loopback, the upstream port, and the inbound path and query.
    pub url: String,
    /// The inbound headers but `Host`.
    pub headers: Vec<Header>,
    /// The inbound body bytes, when there are any.
    pub body: Option<Vec<u8>>,
    /// Whether the client asked for a streamed response (used for logging).
    pub wants_stream: bool,
}

/// Whether the header is an `Accept` header that asks for a stream.
fn header_asks_for_stream(h: &Header) -> (r: bool)
    ensures
        r == (is_named(*h, "accept".spec_bytes()) && asks_for_stream(h.value@)),
{
    eq_ignore_case(h.name.as_slice(), "accept".as_bytes()) && (contains_bytes(
        h.value.as_slice(),
        "text/event-stream".as_bytes(),
    ) || contains_bytes(h.value.as_slice(), "text/x-component".as_bytes()))
}

/// Whether some `Accept` header among `headers` asks for a streamed response.
pub fn any_accepts_stream(headers: &Vec<Header>) -> (r: bool)
    ensures
        r == accepts_stream(headers@),
{
    let n = headers.len();
    let mut i: usize = 0;
    while i < n
        invariant
            n == headers@.len(),
            i <= n,
            forall|k: int|
                0 <= k < i ==> !(is_named(#[trigger] headers@[k], "accept".spec_bytes())
                    && asks_for_stream(headers@[k].value@)),
        decreases n - i,
    {
        if header_asks_for_stream(&headers[i]) {
            return true;
        }
        i = i + 1;
    }
    false
}

/// Removes the headers named `name` (up to ASCII case), keeping the order of
/// the others.
pub fn drop_named(headers: Vec<Header>, name: &[u8]) -> (r: Vec<Header>)
    ensures
        r@ == without_named(headers@, name@),
{
    let ghost all = headers@;
    let mut kept: Vec<Header> = Vec::new();
    for h in it: headers
        invariant
            it.seq() == all,
            kept@ == without_named(all.take(it.index() as int), name@),
    {
        let ghost done = all.take(it.index() as int);
        let ghost next = all.take(it.index() + 1);
        assert(next.drop_last() =~= done);
        assert(next.last() == h);
        if !eq_ignore_case(h.name.as_slice(), name) {
            kept.push(h);
        }
    }
    assert(all.take(all.len() as int) =~= all);
    kept
}

/// The upstream address for `target` on `upstream_port`.
pub fn upstream_url_for(upstream_port: u16, target: &str) -> (r: String)
    ensures
        r@ == upstream_url(upstream_port, target@),
{
    let mut url = "http://127.0.0.1:".to_owned();
    url.append(decimal_text(upstream_port as u64).as_str());
    url.append(target);
    url
}

/// Builds the single upstream request for an inbound request with `method`,
/// `target` (path and query), `headers` and `body` (`None` when the body could
/// not be read, which is then treated as empty).
///
/// Method, path, query and body bytes are passed on unchanged, and every
/// header but `Host`.
pub fn plan_upstream(
    upstream_port: u16,
    method: String,
    target: &str,
    headers: Vec<Header>,
    body: Option<Vec<u8>>,
) -> (r: UpstreamRequest)
    ensures
        r.method == method,
        r.url@ == upstream_url(upstream_port, target@),
        r.headers@ == forwarded(headers@),
        r.body == body_to_send(body),
        r.wants_stream == accepts_stream(headers@),
{
    let wants_stream = any_accepts_stream(&headers);
    let kept = drop_named(headers, "host".as_bytes());
    let body = match body {
        Some(b) => if b.len() == 0 {
            None
        } else {
            Some(b)
        },
        None => None,
    };
    UpstreamRequest { method, url: upstream_url_for(upstream_port, target), headers: kept, body, wants_stream }
}

} // verus!
