//! The HTTP proxy's per-request rules: where a request goes, which
//! headers cross the proxy, how methods are mapped, what the error
//! bodies say, and the supporter rewrite of chat-host response bodies.
//!
//! The listener itself accepts connections and moves bytes; every
//! decision it takes comes from the functions here.

use vstd::prelude::*;
use vstd::string::StringExecFns;
use crate::packet::{Packet, Frame, ServerPacketId, spec_parse_stream, spec_inject,
    spec_concat_frames, views_of, inject_supporter_privileges, lemma_concat_frames_push};
use crate::routing::{RouteDecision, spec_route, spec_map_host_to_ppy, route_request,
    map_host_to_ppy, map_to_raimoe_url, map_to_ppy_url};
use crate::strings::{spec_starts_with, spec_trim_trailing, spec_eq_ignore_ascii_case,
    spec_decimal, str_starts_with, str_eq, str_eq_ignore_ascii_case, u16_decimal};
use crate::tcp_proxy::spec_injected_frames;

verus! {

/// The body after the supporter rewrite: parsed as a packet stream; if
/// no complete `UserPrivileges` frame (id 71) is present the body is
/// returned verbatim, else every frame is rewritten and reserialized,
/// with the unparsed tail appended unchanged.
pub open spec fn spec_inject_body(b: Seq<u8>) -> Seq<u8> {
    let parsed = spec_parse_stream(b);
    if parsed.0.len() == 0 {
        b
    } else if forall|i: int| 0 <= i < parsed.0.len() ==> (#[trigger] parsed.0[i]).packet_id != 71 {
        b
    } else {
        spec_concat_frames(spec_injected_frames(parsed.0)) + parsed.1
    }
}

/// Rewrites a chat-host response body: sets the supporter bit in every
/// `UserPrivileges` frame.  A body that holds no such complete frame —
/// an error page, a redirect, or a partial stream — is returned
/// verbatim.
pub fn inject_supporter_into_bancho_response(body: Vec<u8>) -> (r: Vec<u8>)
    ensures
        r@ == spec_inject_body(body@),
{
    let (mut packets, remaining) = Packet::parse_stream(body.as_slice());

    if packets.len() == 0 && remaining.len() == 0 {
        return body;
    }

    let ghost orig = views_of(packets@);
    let mut modified = false;
    let mut output: Vec<u8> = Vec::new();
    let mut idx: usize = 0;
    proof {
        assert(orig.take(0) =~= Seq::<Frame>::empty());
        assert(spec_injected_frames(orig.take(0)) =~= Seq::<Frame>::empty());
    }
    while idx < packets.len()
        invariant
            idx <= packets@.len(),
            packets@.len() == orig.len(),
            forall|j: int| idx <= j < orig.len() ==> (#[trigger] packets@[j])@ == orig[j],
            output@ == spec_concat_frames(spec_injected_frames(orig.take(idx as int))),
            modified == exists|j: int| 0 <= j < idx && (#[trigger] orig[j]).packet_id == 71,
        decreases packets@.len() - idx,
    {
        let ghost f = orig[idx as int];
        if packets[idx].packet_type() == ServerPacketId::UserPrivileges {
            inject_supporter_privileges(&mut packets[idx]);
            modified = true;
        }
        proof {
            assert(packets@[idx as int]@ == spec_inject(f));
        }
        let mut frame_bytes = packets[idx].to_bytes();
        output.append(&mut frame_bytes);
        proof {
            lemma_concat_frames_push(spec_injected_frames(orig.take(idx as int)), spec_inject(f));
            assert(spec_injected_frames(orig.take(idx as int + 1)) =~= spec_injected_frames(
                orig.take(idx as int),
            ).push(spec_inject(f)));
        }
        idx += 1;
    }
    proof {
        assert(orig.take(packets@.len() as int) =~= orig);
    }

    if !modified {
        return body;
    }

    output.extend_from_slice(remaining.as_slice());
    proof {
        assert(output@ =~= spec_concat_frames(spec_injected_frames(orig))
            + spec_parse_stream(body@).1);
    }
    output
}

/// Everything the listener needs to forward one request.
pub struct UpstreamPlan {
    /// The full upstream URL.
    pub url: String,
    /// Whether this request counts as a beatmap download.
    pub is_download: bool,
    /// Whether the response body goes through the supporter rewrite.
    pub inject_bancho: bool,
}

/// Plans one request: a locally handled request goes to the mirror
/// (never rewritten, counted as a download on a `/d/` path); a forwarded
/// request goes to the mapped official host over HTTPS and is rewritten
/// only when injection is on and the upstream is the chat host.
pub fn plan_upstream(host: &str, path: &str, direct_base_url: &str, inject_supporter: bool) -> (p:
    UpstreamPlan)
    ensures
        spec_route(host@, path@) == RouteDecision::HandleLocally ==> ({
            &&& p.url@ == spec_trim_trailing(direct_base_url@, '/') + path@
            &&& !p.inject_bancho
            &&& p.is_download == spec_starts_with(path@, "/d/"@)
        }),
        spec_route(host@, path@) == RouteDecision::ForwardToPpy ==> ({
            &&& p.url@ == "https://"@ + spec_map_host_to_ppy(host@) + path@
            &&& p.inject_bancho == (inject_supporter && spec_map_host_to_ppy(host@)
                == "c.ppy.sh"@)
            &&& !p.is_download
        }),
{
    match route_request(host, path) {
        RouteDecision::HandleLocally => {
            let url = map_to_raimoe_url(path, direct_base_url);
            let is_download = str_starts_with(path, "/d/");
            UpstreamPlan { url, is_download, inject_bancho: false }
        },
        RouteDecision::ForwardToPpy => {
            let ppy_host = map_host_to_ppy(host);
            let is_bancho = str_eq(ppy_host, "c.ppy.sh");
            let url = map_to_ppy_url(host, path);
            UpstreamPlan { url, is_download: false, inject_bancho: inject_supporter && is_bancho }
        },
    }
}

/// A hop-by-hop request header that must not cross the proxy, compared
/// without regard to ASCII case.
pub open spec fn spec_is_hop_request_header(name: Seq<char>) -> bool {
    ||| spec_eq_ignore_ascii_case(name, "host"@)
    ||| spec_eq_ignore_ascii_case(name, "connection"@)
    ||| spec_eq_ignore_ascii_case(name, "keep-alive"@)
    ||| spec_eq_ignore_ascii_case(name, "transfer-encoding"@)
    ||| spec_eq_ignore_ascii_case(name, "te"@)
    ||| spec_eq_ignore_ascii_case(name, "trailer"@)
}

/// Whether a request header is forwarded upstream.  `Host`,
/// `Connection`, `Keep-Alive`, `Transfer-Encoding`, `TE` and `Trailer`
/// are dropped; the upstream client re-derives them.
pub fn forward_request_header(name: &str) -> (r: bool)
    ensures
        r == !spec_is_hop_request_header(name@),
{
    !(str_eq_ignore_ascii_case(name, "host") || str_eq_ignore_ascii_case(name, "connection")
        || str_eq_ignore_ascii_case(name, "keep-alive") || str_eq_ignore_ascii_case(
        name,
        "transfer-encoding",
    ) || str_eq_ignore_ascii_case(name, "te") || str_eq_ignore_ascii_case(name, "trailer"))
}

/// A response header the proxy recomputes or must not relay, compared
/// without regard to ASCII case.
pub open spec fn spec_is_dropped_response_header(name: Seq<char>) -> bool {
    ||| spec_eq_ignore_ascii_case(name, "transfer-encoding"@)
    ||| spec_eq_ignore_ascii_case(name, "connection"@)
    ||| spec_eq_ignore_ascii_case(name, "content-length"@)
}

/// Whether a response header is sent back to the client.
/// `Transfer-Encoding`, `Connection` and `Content-Length` are dropped;
/// the HTTP stack recomputes the last one.
pub fn forward_response_header(name: &str) -> (r: bool)
    ensures
        r == !spec_is_dropped_response_header(name@),
{
    !(str_eq_ignore_ascii_case(name, "transfer-encoding") || str_eq_ignore_ascii_case(
        name,
        "connection",
    ) || str_eq_ignore_ascii_case(name, "content-length"))
}

/// The request methods the proxy forwards as themselves.
#[derive(Debug, Clone, Copy, PartialEq, Eq, Structural)]
pub enum HttpMethod {
    Get,
    Post,
    Put,
    Delete,
    Head,
    Options,
    Patch,
}

/// The method a request name maps to: the seven common methods pass
/// through; any other name is coerced to `Get` (the game never uses the
/// rest).
pub open spec fn spec_map_method(name: Seq<char>) -> HttpMethod {
    if name == "GET"@ {
        HttpMethod::Get
    } else if name == "POST"@ {
        HttpMethod::Post
    } else if name == "PUT"@ {
        HttpMethod::Put
    } else if name == "DELETE"@ {
        HttpMethod::Delete
    } else if name == "HEAD"@ {
        HttpMethod::Head
    } else if name == "OPTIONS"@ {
        HttpMethod::Options
    } else if name == "PATCH"@ {
        HttpMethod::Patch
    } else {
        HttpMethod::Get
    }
}

/// Maps a request method name to the method the upstream request uses.
pub fn map_method(name: &str) -> (m: HttpMethod)
    ensures
        m == spec_map_method(name@),
{
    if str_eq(name, "GET") {
        HttpMethod::Get
    } else if str_eq(name, "POST") {
        HttpMethod::Post
    } else if str_eq(name, "PUT") {
        HttpMethod::Put
    } else if str_eq(name, "DELETE") {
        HttpMethod::Delete
    } else if str_eq(name, "HEAD") {
        HttpMethod::Head
    } else if str_eq(name, "OPTIONS") {
        HttpMethod::Options
    } else if str_eq(name, "PATCH") {
        HttpMethod::Patch
    } else {
        HttpMethod::Get
    }
}

/// The plain-text body of the 502 answer when an upstream cannot be
/// reached, by destination.
pub fn upstream_error_message(decision: &RouteDecision) -> (r: String)
    ensures
        *decision == RouteDecision::HandleLocally ==> r@ == "Failed to reach rai.moe"@,
        *decision == RouteDecision::ForwardToPpy ==> r@ == "Failed to reach osu! servers"@,
{
    match decision {
        RouteDecision::HandleLocally => String::from_str("Failed to reach rai.moe"),
        RouteDecision::ForwardToPpy => String::from_str("Failed to reach osu! servers"),
    }
}

/// Why binding a listener port failed.
pub enum BindErrorKind {
    /// Another process holds the port.
    AddrInUse,
    /// Binding needs elevated privileges.
    PermissionDenied,
    /// Any other I/O failure; the detail text names it.
    Other,
}

/// The user-facing message for a failed port bind: which port, what went
/// wrong, and what to do about it.
pub fn bind_error_message(kind: &BindErrorKind, port: u16, detail: &str) -> (r: String)
    ensures
        kind is AddrInUse ==> r@ == "Port "@ + spec_decimal(port as int)
            + " is already in use. Please close any application using this port (e.g., IIS, Skype, Docker, or another web server)."@,
        kind is PermissionDenied ==> r@ == "Permission denied binding to port "@ + spec_decimal(
            port as int,
        ) + ". Try running as Administrator."@,
        kind is Other ==> r@ == "Failed to bind to port "@ + spec_decimal(port as int) + ": "@
            + detail@,
{
    match kind {
        BindErrorKind::AddrInUse => {
            let mut r = String::from_str("Port ");
            r.append(u16_decimal(port).as_str());
            r.append(
                " is already in use. Please close any application using this port (e.g., IIS, Skype, Docker, or another web server).",
            );
            r
        },
        BindErrorKind::PermissionDenied => {
            let mut r = String::from_str("Permission denied binding to port ");
            r.append(u16_decimal(port).as_str());
            r.append(". Try running as Administrator.");
            r
        },
        BindErrorKind::Other => {
            let mut r = String::from_str("Failed to bind to port ");
            r.append(u16_decimal(port).as_str());
            r.append(": ");
            r.append(detail);
            r
        },
    }
}

} // verus!
