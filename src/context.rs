//! What the proxy knows of an inbound request from its arrival on.
use vstd::prelude::*;
use vstd::utf8::encode_utf8;
use crate::classify::{classify_request, kind_of, RequestKind};
use crate::ids::{issues, RequestIds};

verus! {

/// An inbound request as the proxy tracks it: the id that its log lines carry,
/// its method and target (path and query), and its category. It is read-only
/// and lives until the response is complete.
pub struct RequestContext {
    pub id: u64,
    pub method: String,
    pub target: String,
    pub kind: RequestKind,
}

impl RequestContext {
    /// Opens the context of a request that just arrived: draws its id from
    /// `ids` and classifies its target. `None`, with `ids` left as it was,
    /// once the ids are spent.
    pub fn open(ids: &mut RequestIds, method: String, target: String) -> (r: Option<RequestContext>)
        ensures
            match r {
                Some(c) => {
                    &&& issues(*old(ids), c.id, *final(ids))
                    &&& c.method == method
                    &&& c.target == target
                    &&& c.kind == kind_of(encode_utf8(target@))
                },
                None => old(ids).spec_next() == u64::MAX && *final(ids) == *old(ids),
            },
    {
        match ids.next_id() {
            Some(id) => {
                let kind = classify_request(target.as_str());
                Some(RequestContext { id, method, target, kind })
            },
            None => None,
        }
    }
}

} // verus!
