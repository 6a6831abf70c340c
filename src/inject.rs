//! Inserting the relay script into HTML documents.
//!
//! The script makes the page send its mutating requests (every method but
//! GET, HEAD and OPTIONS) through the embedding frame, which holds the long
//! connection, instead of through the embedding surface's own transport.
use vstd::prelude::*;
use vstd::slice::{slice_subrange, slice_to_vec};
use vstd::string::StringSliceAdditionalSpecFns;
use crate::text::{
    append_bytes, contains, find_bytes, find_bytes_ignore_case, first_occurrence, lower_bytes, occurs_at,
};

verus! {

/// How long, in milliseconds, a relayed call waits for the embedding frame's
/// reply before it fails with a network error. It exceeds the proxy's own
/// inactivity budget, so that an upstream stall surfaces from the proxy first.
pub const RELAY_TIMEOUT_MS: u64 = 600000;

/// The tag after which the relay script is inserted.
pub const HEAD_TAG: &'static str = "<head>";

/// The relay script. Read-only requests keep the native `fetch`; each other
/// call is posted to the embedding frame as a `relay-request` carrying a fresh
/// id, and settles on the `relay-response` or `relay-error` with that id.
/// Replies with an unknown or already settled id are ignored; a call with no
/// reply after the relay timeout fails with a network error.
pub const RELAY_SCRIPT: &'static str = r#"
(function() {
  var nativeFetch = window.fetch;
  var pending = {};
  var RELAY_TIMEOUT_MS = 600000;

  function settle(id) {
    var call = pending[id];
    if (call) {
      delete pending[id];
      clearTimeout(call.timer);
    }
    return call;
  }

  window.addEventListener('message', function(e) {
    var data = e.data;
    if (!data || !data.id || !pending[data.id]) return;
    if (data.type === 'relay-response') {
      settle(data.id).resolve(data);
    } else if (data.type === 'relay-error') {
      settle(data.id).reject(new TypeError(String(data.error)));
    }
  });

  window.fetch = function(input, init) {
    var method = (init && init.method) ? String(init.method).toUpperCase() : 'GET';
    if (method === 'GET' || method === 'HEAD' || method === 'OPTIONS' || window === window.parent) {
      return nativeFetch.call(window, input, init);
    }

    var url = typeof input === 'string' ? input : (input && input.url ? input.url : String(input));
    url = new URL(url, window.location.href).href;

    var headers = {};
    if (init && init.headers) {
      try {
        new Headers(init.headers).forEach(function(v, k) { headers[k] = v; });
      } catch (ex) {}
    }

    var body = (init && init.body != null) ? init.body : null;
    if (body !== null && typeof body !== 'string') {
      try { body = JSON.stringify(body); } catch (ex) { body = String(body); }
    }

    var id = Math.random().toString(36).slice(2) + Date.now().toString(36);

    return new Promise(function(resolve, reject) {
      var timer = setTimeout(function() {
        if (settle(id)) {
          reject(new TypeError('relay timeout after ' + (RELAY_TIMEOUT_MS / 1000) + 's'));
        }
      }, RELAY_TIMEOUT_MS);
      pending[id] = { resolve: resolve, reject: reject, timer: timer };
      window.parent.postMessage({
        type: 'relay-request',
        id: id,
        method: method,
        url: url,
        body: body,
        headers: headers
      }, '*');
    }).then(function(data) {
      return new Response(data.body, { status: data.status, headers: data.headers });
    });
  };
})();
"#;

/// The script block that is inserted into every HTML document.
pub open spec fn script_block() -> Seq<u8> {
    "<script>".spec_bytes() + RELAY_SCRIPT.spec_bytes() + "</script>".spec_bytes()
}

/// Where the script block goes in `html`: right after the first `<head>` tag;
/// failing that, after the first head tag in any letter case; failing that, at
/// the very start.
pub open spec fn injection_point(html: Seq<u8>) -> int {
    let tag = HEAD_TAG.spec_bytes();
    if contains(html, tag) {
        (choose|i: int| first_occurrence(html, tag, i)) + tag.len()
    } else if contains(lower_bytes(html), lower_bytes(tag)) {
        (choose|i: int| first_occurrence(lower_bytes(html), lower_bytes(tag), i)) + tag.len()
    } else {
        0
    }
}

/// The document `html` with the script block inserted.
pub open spec fn injected(html: Seq<u8>) -> Seq<u8> {
    let k = injection_point(html);
    html.subrange(0, k) + script_block() + html.subrange(k, html.len() as int)
}

proof fn lemma_first_occurrence_unique(hay: Seq<u8>, needle: Seq<u8>, i: int, j: int)
    requires
        first_occurrence(hay, needle, i),
        first_occurrence(hay, needle, j),
    ensures
        i == j,
{
    if i < j {
        assert(!occurs_at(hay, needle, i));
    } else if j < i {
        assert(!occurs_at(hay, needle, j));
    }
}

proof fn lemma_injection_point_bounds(html: Seq<u8>)
    ensures
        0 <= injection_point(html) <= html.len(),
{
    let tag = HEAD_TAG.spec_bytes();
    if contains(html, tag) {
        let i = choose|i: int| occurs_at(html, tag, i);
        lemma_first_exists(html, tag, i);
    } else if contains(lower_bytes(html), lower_bytes(tag)) {
        let i = choose|i: int| occurs_at(lower_bytes(html), lower_bytes(tag), i);
        lemma_first_exists(lower_bytes(html), lower_bytes(tag), i);
        assert(lower_bytes(tag).len() == tag.len());
        assert(lower_bytes(html).len() == html.len());
    }
}

/// Where there is an occurrence, there is a first one.
proof fn lemma_first_exists(hay: Seq<u8>, needle: Seq<u8>, i: int)
    requires
        occurs_at(hay, needle, i),
    ensures
        exists|f: int| first_occurrence(hay, needle, f),
    decreases i,
{
    if exists|k: int| 0 <= k < i && occurs_at(hay, needle, k) {
        let k = choose|k: int| 0 <= k < i && occurs_at(hay, needle, k);
        lemma_first_exists(hay, needle, k);
    } else {
        assert(first_occurrence(hay, needle, i));
    }
}

/// Script injection keeps the document: the block stands at the injection
/// point, and taking it out again gives back the document byte for byte.
/// When the document holds `<head>`, that point is right after the first
/// such tag; when it holds no head tag in any letter case, the block is
/// prepended.
pub proof fn lemma_injection_keeps_document(html: Seq<u8>)
    ensures
        ({
            let k = injection_point(html);
            let out = injected(html);
            let b = script_block().len();
            &&& 0 <= k <= html.len()
            &&& out.len() == html.len() + b
            &&& out.subrange(k, k + b) == script_block()
            &&& out.subrange(0, k) + out.subrange(k + b, out.len() as int) == html
        }),
        contains(html, HEAD_TAG.spec_bytes()) ==> exists|i: int|
            first_occurrence(html, HEAD_TAG.spec_bytes(), i) && injection_point(html) == i
                + HEAD_TAG.spec_bytes().len(),
        !contains(lower_bytes(html), lower_bytes(HEAD_TAG.spec_bytes())) ==> injected(html)
            == script_block() + html,
{
    lemma_injection_point_bounds(html);
    let k = injection_point(html);
    let out = injected(html);
    let b = script_block().len();
    let tag = HEAD_TAG.spec_bytes();
    assert(out.subrange(k, k + b) =~= script_block());
    assert(out.subrange(0, k) + out.subrange(k + b, out.len() as int) =~= html);
    if contains(html, tag) {
        let i = choose|i: int| occurs_at(html, tag, i);
        lemma_first_exists(html, tag, i);
        let f = choose|f: int| first_occurrence(html, tag, f);
        assert(first_occurrence(html, tag, f) && injection_point(html) == f + tag.len());
    } else if !contains(lower_bytes(html), lower_bytes(tag)) {
        assert(out =~= script_block() + html);
    }
    if !contains(lower_bytes(html), lower_bytes(tag)) && contains(html, tag) {
        let i = choose|i: int| occurs_at(html, tag, i);
        assert(lower_bytes(html).subrange(i, i + tag.len()) =~= lower_bytes(tag));
        assert(occurs_at(lower_bytes(html), lower_bytes(tag), i));
    }
}

/// Finds where the script block goes in `html`.
pub fn find_injection_point(html: &[u8]) -> (r: usize)
    ensures
        r == injection_point(html@),
        r <= html@.len(),
{
    let tag = HEAD_TAG.as_bytes();
    let n = html.len();
    let m = tag.len();
    match find_bytes(html, tag) {
        Some(i) => {
            proof {
                let c = choose|c: int| first_occurrence(html@, tag@, c);
                lemma_first_occurrence_unique(html@, tag@, i as int, c);
            }
            assert(i + m <= n);
            i + m
        },
        None => match find_bytes_ignore_case(html, tag) {
            Some(i) => {
                proof {
                    let c = choose|c: int| first_occurrence(lower_bytes(html@), lower_bytes(tag@), c);
                    lemma_first_occurrence_unique(lower_bytes(html@), lower_bytes(tag@), i as int, c);
                    assert(lower_bytes(tag@).len() == tag@.len());
                    assert(lower_bytes(html@).len() == html@.len());
                }
                assert(i + m <= n);
                i + m
            },
            None => 0,
        },
    }
}

/// The script block: the relay script wrapped in a script element.
pub fn script_block_bytes() -> (r: Vec<u8>)
    ensures
        r@ == script_block(),
{
    let mut block = slice_to_vec("<script>".as_bytes());
    append_bytes(&mut block, RELAY_SCRIPT.as_bytes());
    append_bytes(&mut block, "</script>".as_bytes());
    block
}

/// Inserts the relay script into the HTML document `html`, once: right after
/// its head tag, or at the start when it has none.
pub fn inject_relay_script(html: &[u8]) -> (r: Vec<u8>)
    ensures
        r@ == injected(html@),
{
    let k = find_injection_point(html);
    let mut out = slice_to_vec(slice_subrange(html, 0, k));
    append_bytes(&mut out, script_block_bytes().as_slice());
    append_bytes(&mut out, slice_subrange(html, k, html.len()));
    out
}

} // verus!
