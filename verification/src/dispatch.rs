//! Request dispatch: classifying an inbound request as a WebSocket upgrade or
//! plain HTTP, the subprotocol list offered on the downstream handshake, the
//! headers carried onto the upstream WebSocket, the upstream target URLs, the
//! request-body cap, and the responses the proxy synthesizes itself.
use vstd::prelude::*;

use crate::headers::{header_views, security_model, Header};
use crate::text::{
    dec_spec, eq_ignore_ascii_case, lemma_lower_ascii_fixed, lower, split_commas,
    split_commas_spec, str_views, trim, trim_spec, u16_to_dec,
};

verus! {

/// The value of the first header in `hs` whose lowercased name is `name`
/// (`name` is expected already lowercased), or `None` when there is none.
pub open spec fn first_header_value(hs: Seq<(Seq<char>, Seq<char>)>, name: Seq<char>) -> Option<
    Seq<char>,
>
    decreases hs.len(),
{
    if hs.len() == 0 {
        None
    } else if lower(hs[0].0) == name {
        Some(hs[0].1)
    } else {
        first_header_value(hs.drop_first(), name)
    }
}

proof fn lemma_first_header_value_skip(hs: Seq<(Seq<char>, Seq<char>)>, name: Seq<char>, k: int)
    requires
        0 <= k <= hs.len(),
        forall|m: int| 0 <= m < k ==> lower(#[trigger] hs[m].0) != name,
    ensures
        first_header_value(hs, name) == first_header_value(hs.skip(k), name),
    decreases k,
{
    if k == 0 {
        assert(hs.skip(0) =~= hs);
    } else {
        lemma_first_header_value_skip(hs.drop_first(), name, k - 1);
        assert(hs.drop_first().skip(k - 1) =~= hs.skip(k));
    }
}

/// The value of the first header whose name lowercases to the lowercase form
/// of `name`, as `first_header_value` describes.
pub fn get_header_value(headers: &Vec<Header>, name: &str) -> (r: Option<String>)
    ensures
        match r {
            Some(v) => first_header_value(header_views(headers@), lower(name@)) == Some(v@),
            None => first_header_value(header_views(headers@), lower(name@)) is None,
        },
{
    let ghost hv = header_views(headers@);
    let mut k: usize = 0;
    while k < headers.len() && !eq_ignore_ascii_case(headers[k].name.as_str(), name)
        invariant
            hv == header_views(headers@),
            k <= headers.len(),
            forall|m: int| 0 <= m < k ==> lower(#[trigger] hv[m].0) != lower(name@),
        decreases headers.len() - k,
    {
        k = k + 1;
    }
    proof {
        lemma_first_header_value_skip(hv, lower(name@), k as int);
    }
    if k < headers.len() {
        assert(hv.skip(k as int)[0] == hv[k as int]);
        Some(headers[k].value.clone())
    } else {
        assert(hv.skip(k as int) =~= Seq::<(Seq<char>, Seq<char>)>::empty());
        None
    }
}

/// True iff the headers classify the request as a WebSocket upgrade: the
/// first `upgrade` header exists and its value is `websocket`, both compared
/// case-insensitively.
pub open spec fn websocket_request(hs: Seq<(Seq<char>, Seq<char>)>) -> bool {
    match first_header_value(hs, "upgrade"@) {
        Some(v) => lower(v) == "websocket"@,
        None => false,
    }
}

/// Classify the request: WebSocket upgrade iff `Upgrade: websocket` is
/// present, compared case-insensitively; everything else is plain HTTP.
pub fn is_websocket_upgrade(headers: &Vec<Header>) -> (r: bool)
    ensures
        r == websocket_request(header_views(headers@)),
{
    proof {
        reveal_strlit("upgrade");
        reveal_strlit("websocket");
        lemma_lower_ascii_fixed("upgrade"@);
        lemma_lower_ascii_fixed("websocket"@);
    }
    match get_header_value(headers, "upgrade") {
        Some(v) => eq_ignore_ascii_case(v.as_str(), "websocket"),
        None => false,
    }
}

/// The subprotocols advertised by the client: the first
/// `sec-websocket-protocol` value split on commas, each entry trimmed.
pub open spec fn protocols_model(hs: Seq<(Seq<char>, Seq<char>)>) -> Seq<Seq<char>> {
    match first_header_value(hs, "sec-websocket-protocol"@) {
        Some(v) => split_commas_spec(v).map_values(|s: Seq<char>| trim_spec(s)),
        None => Seq::empty(),
    }
}

/// Extract the advertised subprotocols, as `protocols_model` describes.
pub fn extract_protocols(headers: &Vec<Header>) -> (r: Vec<String>)
    ensures
        str_views(r@) == protocols_model(header_views(headers@)),
{
    proof {
        reveal_strlit("sec-websocket-protocol");
        lemma_lower_ascii_fixed("sec-websocket-protocol"@);
    }
    match get_header_value(headers, "sec-websocket-protocol") {
        Some(v) => {
            let parts = split_commas(v.as_str());
            let ghost pv = str_views(parts@);
            let mut out: Vec<String> = Vec::new();
            let mut i: usize = 0;
            while i < parts.len()
                invariant
                    pv == str_views(parts@),
                    i <= parts.len(),
                    str_views(out@) == pv.take(i as int).map_values(|s: Seq<char>| trim_spec(s)),
                decreases parts.len() - i,
            {
                let ghost old_out = out@;
                let t = trim(parts[i].as_str());
                out.push(String::from_str(t));
                proof {
                    assert(parts@[i as int]@ == pv[i as int]);
                    assert(str_views(out@) =~= str_views(old_out).push(trim_spec(pv[i as int])));
                    assert(str_views(out@) =~= pv.take(i + 1).map_values(
                        |s: Seq<char>| trim_spec(s),
                    ));
                }
                i = i + 1;
            }
            assert(pv.take(parts.len() as int) =~= pv);
            out
        },
        None => {
            let out: Vec<String> = Vec::new();
            assert(str_views(out@) =~= Seq::<Seq<char>>::empty());
            out
        },
    }
}

/// The two inbound headers forwarded on the upstream WebSocket handshake:
/// the first `cookie` and the first `authorization`, when present.
pub open spec fn ws_forward_model(hs: Seq<(Seq<char>, Seq<char>)>) -> Seq<(Seq<char>, Seq<char>)> {
    (match first_header_value(hs, "cookie"@) {
        Some(v) => seq![("cookie"@, v)],
        None => Seq::<(Seq<char>, Seq<char>)>::empty(),
    }) + (match first_header_value(hs, "authorization"@) {
        Some(v) => seq![("authorization"@, v)],
        None => Seq::<(Seq<char>, Seq<char>)>::empty(),
    })
}

/// Select the headers carried onto the upstream WebSocket request, as
/// `ws_forward_model` describes; every other inbound header is dropped.
pub fn select_ws_headers(headers: &Vec<Header>) -> (r: Vec<Header>)
    ensures
        header_views(r@) == ws_forward_model(header_views(headers@)),
{
    proof {
        reveal_strlit("cookie");
        reveal_strlit("authorization");
        lemma_lower_ascii_fixed("cookie"@);
        lemma_lower_ascii_fixed("authorization"@);
    }
    let mut out: Vec<Header> = Vec::new();
    if let Some(v) = get_header_value(headers, "cookie") {
        out.push(Header { name: String::from_str("cookie"), value: v });
    }
    if let Some(v) = get_header_value(headers, "authorization") {
        out.push(Header { name: String::from_str("authorization"), value: v });
    }
    assert(header_views(out@) =~= ws_forward_model(header_views(headers@)));
    out
}

/// The upstream URL for an HTTP request: `http://127.0.0.1:<port><path>`,
/// where the path-and-query defaults to `/` when the request has none.
pub open spec fn http_target_model(port: u16, path_query: Option<Seq<char>>) -> Seq<char> {
    "http://127.0.0.1:"@ + dec_spec(port as nat) + (match path_query {
        Some(p) => p,
        None => "/"@,
    })
}

/// Build the upstream URL for an HTTP request, as `http_target_model`
/// describes.
pub fn build_target_url(upstream_port: u16, path_query: Option<&str>) -> (r: String)
    ensures
        r@ == http_target_model(
            upstream_port,
            match path_query {
                Some(p) => Some(p@),
                None => None,
            },
        ),
{
    let mut url = String::from_str("http://127.0.0.1:");
    let dec = u16_to_dec(upstream_port);
    url.append(dec.as_str());
    match path_query {
        Some(p) => url.append(p),
        None => url.append("/"),
    }
    url
}

/// The upstream URL for a WebSocket request: `ws://127.0.0.1:<port><path>`.
pub open spec fn ws_target_model(port: u16, path_query: Seq<char>) -> Seq<char> {
    "ws://127.0.0.1:"@ + dec_spec(port as nat) + path_query
}

/// Build the upstream URL for a WebSocket request, as `ws_target_model`
/// describes.
pub fn build_ws_url(upstream_port: u16, path_query: &str) -> (r: String)
    ensures
        r@ == ws_target_model(upstream_port, path_query@),
{
    let mut url = String::from_str("ws://127.0.0.1:");
    let dec = u16_to_dec(upstream_port);
    url.append(dec.as_str());
    url.append(path_query);
    url
}

/// The request-body cap enforced at the edge: 500 MiB.
pub const MAX_BODY_SIZE: usize = 500 * 1024 * 1024;

/// True iff a request body of `len` bytes is accepted at the edge; larger
/// bodies are rejected with status 413 before any upstream connection.
pub fn body_within_limit(len: usize) -> (r: bool)
    ensures
        r == (len <= MAX_BODY_SIZE),
{
    len <= MAX_BODY_SIZE
}

/// A response the proxy synthesizes itself, without consulting the upstream.
pub struct SynthesizedResponse {
    pub status: u16,
    pub body: String,
    pub headers: Vec<Header>,
}

/// The response for an upstream connection failure: 502 with body
/// `Bad Gateway` and the security headers.
pub fn bad_gateway_response() -> (r: SynthesizedResponse)
    ensures
        r.status == 502,
        r.body@ == "Bad Gateway"@,
        header_views(r.headers@) == security_model(),
{
    SynthesizedResponse {
        status: 502,
        body: String::from_str("Bad Gateway"),
        headers: crate::headers::security_headers(),
    }
}

/// The response for a failure reading the inbound request body: 400 with the
/// security headers.
pub fn body_read_error_response() -> (r: SynthesizedResponse)
    ensures
        r.status == 400,
        r.body@ == "Failed to read request body"@,
        header_views(r.headers@) == security_model(),
{
    SynthesizedResponse {
        status: 400,
        body: String::from_str("Failed to read request body"),
        headers: crate::headers::security_headers(),
    }
}

/// The response for a panic caught at the dispatcher's boundary: 500 with the
/// security headers; the fault never terminates the listener.
pub fn panic_response() -> (r: SynthesizedResponse)
    ensures
        r.status == 500,
        r.body@ == "Internal server error"@,
        header_views(r.headers@) == security_model(),
{
    SynthesizedResponse {
        status: 500,
        body: String::from_str("Internal server error"),
        headers: crate::headers::security_headers(),
    }
}

} // verus!
