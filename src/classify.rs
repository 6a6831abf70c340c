//! Sorting request paths into the categories that decide how much of a
//! request's life is logged.
use vstd::prelude::*;
use vstd::string::StringSliceAdditionalSpecFns;
use crate::text::{bytes_equal, contains, contains_bytes};

verus! {

/// Handling time, in whole seconds, above which a static asset counts as slow
/// and its completion is logged.
pub const SLOW_ASSET_SECS: u64 = 5;

/// The category of a proxied request, decided from its path.
#[derive(Clone, Copy, Debug, PartialEq, Eq, Structural)]
pub enum RequestKind {
    /// A message posted to a session, answered by a long streamed generation.
    StreamingMessage,
    /// Any other call under the session API.
    SessionApi,
    /// Any other API call.
    Api,
    /// A script, style sheet or font.
    StaticAsset,
    /// The root document or another HTML page.
    Page,
    /// Everything else.
    Other,
}

/// The category of the request whose path (with query) has the bytes `path`.
pub open spec fn kind_of(path: Seq<u8>) -> RequestKind {
    if contains(path, "/api/session".spec_bytes()) && contains(path, "/message".spec_bytes()) {
        RequestKind::StreamingMessage
    } else if contains(path, "/api/session".spec_bytes()) {
        RequestKind::SessionApi
    } else if contains(path, "/api/".spec_bytes()) {
        RequestKind::Api
    } else if contains(path, ".js".spec_bytes()) || contains(path, ".css".spec_bytes())
        || contains(path, ".woff".spec_bytes()) {
        RequestKind::StaticAsset
    } else if path == "/".spec_bytes() || contains(path, ".html".spec_bytes()) {
        RequestKind::Page
    } else {
        RequestKind::Other
    }
}

/// Sorts a request path (with its query) into its category by the substrings
/// it contains.
pub fn classify_request(path: &str) -> (r: RequestKind)
    ensures
        r == kind_of(path.spec_bytes()),
{
    let p = path.as_bytes();
    let session = contains_bytes(p, "/api/session".as_bytes());
    if session && contains_bytes(p, "/message".as_bytes()) {
        RequestKind::StreamingMessage
    } else if session {
        RequestKind::SessionApi
    } else if contains_bytes(p, "/api/".as_bytes()) {
        RequestKind::Api
    } else if contains_bytes(p, ".js".as_bytes()) || contains_bytes(p, ".css".as_bytes())
        || contains_bytes(p, ".woff".as_bytes()) {
        RequestKind::StaticAsset
    } else if bytes_equal(p, "/".as_bytes()) || contains_bytes(p, ".html".as_bytes()) {
        RequestKind::Page
    } else {
        RequestKind::Other
    }
}

impl RequestKind {
    /// Whether every stage of a request of this kind is logged. Static assets
    /// are logged only when slow, so that they do not drown the log.
    pub open spec fn spec_logged_in_full(self) -> bool {
        self != RequestKind::StaticAsset
    }

    /// Whether the completion of a request of this kind, after `elapsed_secs`
    /// whole seconds, is logged.
    pub open spec fn spec_completion_logged(self, elapsed_secs: u64) -> bool {
        self.spec_logged_in_full() || elapsed_secs > SLOW_ASSET_SECS
    }

    /// Whether every stage of a request of this kind is logged.
    pub fn logged_in_full(&self) -> (r: bool)
        ensures
            r == self.spec_logged_in_full(),
    {
        !matches!(self, RequestKind::StaticAsset)
    }

    /// Whether the completion of a request of this kind, after `elapsed_secs`
    /// whole seconds, is logged.
    pub fn completion_logged(&self, elapsed_secs: u64) -> (r: bool)
        ensures
            r == self.spec_completion_logged(elapsed_secs),
    {
        self.logged_in_full() || elapsed_secs > SLOW_ASSET_SECS
    }

    /// The category's name as it appears in log lines.
    pub fn label(&self) -> (r: &'static str)
        ensures
            r@ == match self {
                RequestKind::StreamingMessage => "message (streaming)"@,
                RequestKind::SessionApi => "session API"@,
                RequestKind::Api => "API"@,
                RequestKind::StaticAsset => "static asset"@,
                RequestKind::Page => "page"@,
                RequestKind::Other => "other"@,
            },
    {
        match self {
            RequestKind::StreamingMessage => "message (streaming)",
            RequestKind::SessionApi => "session API",
            RequestKind::Api => "API",
            RequestKind::StaticAsset => "static asset",
            RequestKind::Page => "page",
            RequestKind::Other => "other",
        }
    }
}

} // verus!
