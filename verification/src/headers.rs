//! Header policy of the proxy: the hop-by-hop list, the fixed security-header
//! set, and the two header rewrites — one for requests forwarded upstream, one
//! for responses sent back downstream.
use vstd::prelude::*;

use crate::text::{
    dec_spec, eq_ignore_ascii_case, lemma_lower_ascii_fixed, lower, u16_to_dec,
};

verus! {

/// One HTTP header: a name and a value.
pub struct Header {
    pub name: String,
    pub value: String,
}

/// The name/value views of a header sequence.
pub open spec fn header_views(hs: Seq<Header>) -> Seq<(Seq<char>, Seq<char>)> {
    hs.map_values(|h: Header| (h.name@, h.value@))
}

/// True iff `n` is one of the hop-by-hop header names, which an intermediary
/// must not forward; `n` is expected already lowercased.
pub open spec fn is_hop_name(n: Seq<char>) -> bool {
    ||| n == "connection"@
    ||| n == "keep-alive"@
    ||| n == "transfer-encoding"@
    ||| n == "te"@
    ||| n == "trailers"@
    ||| n == "upgrade"@
    ||| n == "proxy-authorization"@
    ||| n == "proxy-authenticate"@
    ||| n == "proxy-connection"@
}

/// True iff the lowercase form of `name` is a hop-by-hop header name.
pub fn is_hop_by_hop(name: &str) -> (r: bool)
    ensures
        r == is_hop_name(lower(name@)),
{
    proof {
        reveal_strlit("connection");
        reveal_strlit("keep-alive");
        reveal_strlit("transfer-encoding");
        reveal_strlit("te");
        reveal_strlit("trailers");
        reveal_strlit("upgrade");
        reveal_strlit("proxy-authorization");
        reveal_strlit("proxy-authenticate");
        reveal_strlit("proxy-connection");
        lemma_lower_ascii_fixed("connection"@);
        lemma_lower_ascii_fixed("keep-alive"@);
        lemma_lower_ascii_fixed("transfer-encoding"@);
        lemma_lower_ascii_fixed("te"@);
        lemma_lower_ascii_fixed("trailers"@);
        lemma_lower_ascii_fixed("upgrade"@);
        lemma_lower_ascii_fixed("proxy-authorization"@);
        lemma_lower_ascii_fixed("proxy-authenticate"@);
        lemma_lower_ascii_fixed("proxy-connection"@);
    }
    eq_ignore_ascii_case(name, "connection") || eq_ignore_ascii_case(name, "keep-alive")
        || eq_ignore_ascii_case(name, "transfer-encoding") || eq_ignore_ascii_case(name, "te")
        || eq_ignore_ascii_case(name, "trailers") || eq_ignore_ascii_case(name, "upgrade")
        || eq_ignore_ascii_case(name, "proxy-authorization")
        || eq_ignore_ascii_case(name, "proxy-authenticate")
        || eq_ignore_ascii_case(name, "proxy-connection")
}

/// The fixed security-header set, added to every response.
pub open spec fn security_model() -> Seq<(Seq<char>, Seq<char>)> {
    seq![
        ("strict-transport-security"@, "max-age=63072000; includeSubDomains; preload"@),
        ("x-content-type-options"@, "nosniff"@),
        ("x-frame-options"@, "SAMEORIGIN"@),
        ("referrer-policy"@, "strict-origin-when-cross-origin"@),
    ]
}

/// True iff `n` is the name of one of the security headers; `n` is expected
/// already lowercased.
pub open spec fn is_security_name(n: Seq<char>) -> bool {
    ||| n == "strict-transport-security"@
    ||| n == "x-content-type-options"@
    ||| n == "x-frame-options"@
    ||| n == "referrer-policy"@
}

/// The security headers, with their exact constant values.
pub fn security_headers() -> (r: Vec<Header>)
    ensures
        header_views(r@) == security_model(),
{
    let mut r: Vec<Header> = Vec::new();
    r.push(Header {
        name: String::from_str("strict-transport-security"),
        value: String::from_str("max-age=63072000; includeSubDomains; preload"),
    });
    r.push(Header {
        name: String::from_str("x-content-type-options"),
        value: String::from_str("nosniff"),
    });
    r.push(Header {
        name: String::from_str("x-frame-options"),
        value: String::from_str("SAMEORIGIN"),
    });
    r.push(Header {
        name: String::from_str("referrer-policy"),
        value: String::from_str("strict-origin-when-cross-origin"),
    });
    assert(header_views(r@) =~= security_model());
    r
}

/// True iff `n` is a header name that the forwarder always sets itself on the
/// upstream request; `n` is expected already lowercased.
pub open spec fn is_forced_request_name(n: Seq<char>) -> bool {
    ||| n == "host"@
    ||| n == "x-forwarded-for"@
    ||| n == "x-real-ip"@
    ||| n == "x-forwarded-proto"@
}

/// True iff an inbound header is copied onto the upstream request: it is not
/// hop-by-hop and not one of the names the forwarder sets itself.
pub open spec fn keep_request_header(p: (Seq<char>, Seq<char>)) -> bool {
    !is_hop_name(lower(p.0)) && !is_forced_request_name(lower(p.0))
}

/// The inbound headers that survive the request-side header policy.
pub open spec fn request_kept(hs: Seq<(Seq<char>, Seq<char>)>) -> Seq<(Seq<char>, Seq<char>)> {
    hs.filter(|p: (Seq<char>, Seq<char>)| keep_request_header(p))
}

/// The `host` value pointing at the upstream: `127.0.0.1:<port>`.
pub open spec fn upstream_host_value(port: u16) -> Seq<char> {
    "127.0.0.1:"@ + dec_spec(port as nat)
}

/// The whole upstream header set: the kept inbound headers, then `host`,
/// `x-forwarded-for`, `x-real-ip` and `x-forwarded-proto`.
pub open spec fn forward_model(
    inbound: Seq<(Seq<char>, Seq<char>)>,
    peer_ip: Seq<char>,
    port: u16,
) -> Seq<(Seq<char>, Seq<char>)> {
    request_kept(inbound) + seq![
        ("host"@, upstream_host_value(port)),
        ("x-forwarded-for"@, peer_ip),
        ("x-real-ip"@, peer_ip),
        ("x-forwarded-proto"@, "https"@),
    ]
}

fn is_forced_request(name: &str) -> (r: bool)
    ensures
        r == is_forced_request_name(lower(name@)),
{
    proof {
        reveal_strlit("host");
        reveal_strlit("x-forwarded-for");
        reveal_strlit("x-real-ip");
        reveal_strlit("x-forwarded-proto");
        lemma_lower_ascii_fixed("host"@);
        lemma_lower_ascii_fixed("x-forwarded-for"@);
        lemma_lower_ascii_fixed("x-real-ip"@);
        lemma_lower_ascii_fixed("x-forwarded-proto"@);
    }
    eq_ignore_ascii_case(name, "host") || eq_ignore_ascii_case(name, "x-forwarded-for")
        || eq_ignore_ascii_case(name, "x-real-ip")
        || eq_ignore_ascii_case(name, "x-forwarded-proto")
}

/// The request-side header rewrite: copy every inbound header that is neither
/// hop-by-hop nor one of the forwarding names, then set `host` to the
/// upstream, `x-forwarded-for` and `x-real-ip` to the peer IP, and
/// `x-forwarded-proto` to `https`.
pub fn build_upstream_headers(inbound: &Vec<Header>, peer_ip: &str, upstream_port: u16) -> (r:
    Vec<Header>)
    ensures
        header_views(r@) == forward_model(header_views(inbound@), peer_ip@, upstream_port),
        forall|i: int|
            0 <= i < r@.len() ==> !is_hop_name(lower(#[trigger] header_views(r@)[i].0)),
        r@.len() >= 4,
        header_views(r@)[r@.len() - 4] == ("host"@, upstream_host_value(upstream_port)),
        header_views(r@)[r@.len() - 3] == ("x-forwarded-for"@, peer_ip@),
        header_views(r@)[r@.len() - 2] == ("x-real-ip"@, peer_ip@),
        header_views(r@)[r@.len() - 1] == ("x-forwarded-proto"@, "https"@),
{
    let ghost iv = header_views(inbound@);
    let mut out: Vec<Header> = Vec::new();
    assert(header_views(out@) =~= request_kept(iv.take(0)));
    let mut i: usize = 0;
    while i < inbound.len()
        invariant
            iv == header_views(inbound@),
            i <= inbound.len(),
            header_views(out@) == request_kept(iv.take(i as int)),
        decreases inbound.len() - i,
    {
        let h = &inbound[i];
        let keep = !is_hop_by_hop(h.name.as_str()) && !is_forced_request(h.name.as_str());
        proof {
            reveal(Seq::filter);
            assert(iv.take(i + 1).drop_last() =~= iv.take(i as int));
            assert(iv.take(i + 1).last() == iv[i as int]);
        }
        if keep {
            let ghost old_out = out@;
            out.push(Header { name: h.name.clone(), value: h.value.clone() });
            assert(header_views(out@) =~= header_views(old_out).push((h.name@, h.value@)));
        }
        assert(header_views(out@) =~= request_kept(iv.take(i + 1)));
        i = i + 1;
    }
    assert(iv.take(inbound.len() as int) =~= iv);
    let mut port_host = String::from_str("127.0.0.1:");
    let port_dec = u16_to_dec(upstream_port);
    port_host.append(port_dec.as_str());
    out.push(Header { name: String::from_str("host"), value: port_host });
    out.push(Header { name: String::from_str("x-forwarded-for"), value: String::from_str(peer_ip) });
    out.push(Header { name: String::from_str("x-real-ip"), value: String::from_str(peer_ip) });
    out.push(Header { name: String::from_str("x-forwarded-proto"), value: String::from_str("https") });
    assert(header_views(out@) =~= forward_model(iv, peer_ip@, upstream_port));
    proof {
        let fin = header_views(out@);
        reveal_strlit("host");
        reveal_strlit("x-forwarded-for");
        reveal_strlit("x-real-ip");
        reveal_strlit("x-forwarded-proto");
        lemma_lower_ascii_fixed("host"@);
        lemma_lower_ascii_fixed("x-forwarded-for"@);
        lemma_lower_ascii_fixed("x-real-ip"@);
        lemma_lower_ascii_fixed("x-forwarded-proto"@);
        reveal_strlit("connection");
        reveal_strlit("keep-alive");
        reveal_strlit("transfer-encoding");
        reveal_strlit("te");
        reveal_strlit("trailers");
        reveal_strlit("upgrade");
        reveal_strlit("proxy-authorization");
        reveal_strlit("proxy-authenticate");
        reveal_strlit("proxy-connection");
        assert(!is_hop_name("host"@));
        assert(!is_hop_name("x-forwarded-for"@));
        assert(!is_hop_name("x-real-ip"@));
        assert("x-forwarded-proto"@ != "transfer-encoding"@) by {
            assert("x-forwarded-proto"@[0] != "transfer-encoding"@[0]);
        }
        assert(!is_hop_name("x-forwarded-proto"@));
        assert forall|i: int| 0 <= i < fin.len() implies !is_hop_name(
            lower(#[trigger] fin[i].0),
        ) by {
            broadcast use vstd::seq_lib::group_filter_ensures;

            if i < fin.len() - 4 {
                assert(fin[i] == request_kept(iv)[i]);
                assert(keep_request_header(request_kept(iv)[i]));
            }
        }
    }
    out
}

/// True iff an upstream response header is copied downstream: it is not
/// hop-by-hop, not `content-length`, and not one of the security names the
/// proxy sets itself.
pub open spec fn keep_response_header(p: (Seq<char>, Seq<char>)) -> bool {
    !is_hop_name(lower(p.0)) && lower(p.0) != "content-length"@ && !is_security_name(lower(p.0))
}

/// The upstream response headers that survive the response-side header policy.
pub open spec fn response_kept(hs: Seq<(Seq<char>, Seq<char>)>) -> Seq<(Seq<char>, Seq<char>)> {
    hs.filter(|p: (Seq<char>, Seq<char>)| keep_response_header(p))
}

/// The whole downstream header set: the security headers, then the kept
/// upstream response headers.
pub open spec fn response_model(upstream: Seq<(Seq<char>, Seq<char>)>) -> Seq<
    (Seq<char>, Seq<char>),
> {
    security_model() + response_kept(upstream)
}

fn is_security_header(name: &str) -> (r: bool)
    ensures
        r == is_security_name(lower(name@)),
{
    proof {
        reveal_strlit("strict-transport-security");
        reveal_strlit("x-content-type-options");
        reveal_strlit("x-frame-options");
        reveal_strlit("referrer-policy");
        lemma_lower_ascii_fixed("strict-transport-security"@);
        lemma_lower_ascii_fixed("x-content-type-options"@);
        lemma_lower_ascii_fixed("x-frame-options"@);
        lemma_lower_ascii_fixed("referrer-policy"@);
    }
    eq_ignore_ascii_case(name, "strict-transport-security")
        || eq_ignore_ascii_case(name, "x-content-type-options")
        || eq_ignore_ascii_case(name, "x-frame-options")
        || eq_ignore_ascii_case(name, "referrer-policy")
}

/// The response-side header rewrite: the security headers with their constant
/// values come first, then every upstream header that is neither hop-by-hop
/// nor `content-length` nor a security name.
pub fn build_response_headers(upstream: &Vec<Header>) -> (r: Vec<Header>)
    ensures
        header_views(r@) == response_model(header_views(upstream@)),
        r@.len() >= 4,
        header_views(r@)[0] == ("strict-transport-security"@, "max-age=63072000; includeSubDomains; preload"@),
        header_views(r@)[1] == ("x-content-type-options"@, "nosniff"@),
        header_views(r@)[2] == ("x-frame-options"@, "SAMEORIGIN"@),
        header_views(r@)[3] == ("referrer-policy"@, "strict-origin-when-cross-origin"@),
        forall|i: int|
            0 <= i < r@.len() ==> lower(#[trigger] header_views(r@)[i].0) != "content-length"@,
{
    let ghost uv = header_views(upstream@);
    let mut out: Vec<Header> = security_headers();
    assert(header_views(out@) =~= security_model() + response_kept(uv.take(0)));
    let mut i: usize = 0;
    while i < upstream.len()
        invariant
            uv == header_views(upstream@),
            i <= upstream.len(),
            header_views(out@) == security_model() + response_kept(uv.take(i as int)),
        decreases upstream.len() - i,
    {
        let h = &upstream[i];
        let keep = !is_hop_by_hop(h.name.as_str()) && !is_content_length(h.name.as_str())
            && !is_security_header(h.name.as_str());
        proof {
            reveal(Seq::filter);
            assert(uv.take(i + 1).drop_last() =~= uv.take(i as int));
            assert(uv.take(i + 1).last() == uv[i as int]);
        }
        if keep {
            let ghost old_out = out@;
            out.push(Header { name: h.name.clone(), value: h.value.clone() });
            assert(header_views(out@) =~= header_views(old_out).push((h.name@, h.value@)));
        }
        assert(header_views(out@) =~= security_model() + response_kept(uv.take(i + 1)));
        i = i + 1;
    }
    assert(uv.take(upstream.len() as int) =~= uv);
    proof {
        let fin = header_views(out@);
        reveal_strlit("strict-transport-security");
        reveal_strlit("x-content-type-options");
        reveal_strlit("x-frame-options");
        reveal_strlit("referrer-policy");
        reveal_strlit("content-length");
        lemma_lower_ascii_fixed("strict-transport-security"@);
        lemma_lower_ascii_fixed("x-content-type-options"@);
        lemma_lower_ascii_fixed("x-frame-options"@);
        lemma_lower_ascii_fixed("referrer-policy"@);
        assert forall|i: int| 0 <= i < fin.len() implies lower(#[trigger] fin[i].0)
            != "content-length"@ by {
            broadcast use vstd::seq_lib::group_filter_ensures;

            if i >= 4 {
                assert(fin[i] == response_kept(uv)[i - 4]);
                assert(keep_response_header(response_kept(uv)[i - 4]));
            }
        }
    }
    out
}

fn is_content_length(name: &str) -> (r: bool)
    ensures
        r == (lower(name@) == "content-length"@),
{
    proof {
        reveal_strlit("content-length");
        lemma_lower_ascii_fixed("content-length"@);
    }
    eq_ignore_ascii_case(name, "content-length")
}

} // verus!
