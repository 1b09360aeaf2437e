//! Request routing: decide per request whether it is served by the
//! beatmap mirror or forwarded to the official servers, and map local
//! host names to the official ones.
//!
//! A host name matches a base name only on a whole-label boundary: it is
//! the base itself or ends with `"." + base`.  A crafted host such as
//! `osu.ppy.sh.evil.com` therefore never matches.

use vstd::prelude::*;
use vstd::string::StrSliceExecFns;
use vstd::string::StringExecFns;
use crate::strings::{spec_starts_with, spec_ends_with, spec_index_of_char, spec_trim_trailing,
    str_eq, str_starts_with, str_ends_with, find_char, trim_trailing, lemma_index_of_char_absent,
    lemma_not_ends_with};

verus! {

/// Where one request is sent.
#[derive(Debug, Clone, PartialEq, Eq, Structural)]
pub enum RouteDecision {
    /// Serve from the beatmap mirror.
    HandleLocally,
    /// Forward to the official `*.ppy.sh` host.
    ForwardToPpy,
}

/// The host with anything from the first `:` on removed.
pub open spec fn spec_strip_port(host: Seq<char>) -> Seq<char> {
    let i = spec_index_of_char(host, ':');
    if i < 0 {
        host
    } else {
        host.take(i)
    }
}

/// The host equals the base name or ends with `"." + base`: a suffix
/// match on a whole-label boundary.
pub open spec fn spec_host_matches(host: Seq<char>, base: Seq<char>) -> bool {
    host == base || spec_ends_with(host, seq!['.'] + base)
}

/// The routing rule over (host, path), with the port already stripped.
pub open spec fn spec_route(host: Seq<char>, path: Seq<char>) -> RouteDecision {
    let h = spec_strip_port(host);
    if (spec_host_matches(h, "osu.ppy.sh"@) || spec_host_matches(h, "localhost"@)) && (
    spec_starts_with(path, "/web/osu-search.php"@) || spec_starts_with(
        path,
        "/web/osu-search-set.php"@,
    ) || spec_starts_with(path, "/d/"@) || spec_starts_with(path, "/web/osu-getbeatmapinfo.php"@)) {
        RouteDecision::HandleLocally
    } else if (spec_host_matches(h, "b.ppy.sh"@) || spec_host_matches(h, "localhost"@)) && (
    spec_starts_with(path, "/thumb/"@) || spec_starts_with(path, "/preview/"@)) {
        RouteDecision::HandleLocally
    } else {
        RouteDecision::ForwardToPpy
    }
}

/// The index of the first `:` is below the length of the string.
proof fn lemma_index_of_char_below_len(s: Seq<char>, c: char)
    ensures
        spec_index_of_char(s, c) < s.len(),
    decreases s.len(),
{
    if s.len() > 0 && s[0] != c {
        lemma_index_of_char_below_len(s.skip(1), c);
    }
}

/// The host with a trailing `:port` removed, if one is present.
pub fn strip_port<'a>(host: &'a str) -> (r: &'a str)
    ensures
        r@ == spec_strip_port(host@),
{
    proof {
        lemma_index_of_char_below_len(host@, ':');
    }
    match find_char(host, ':') {
        Some(i) => {
            proof {
                let gi = spec_index_of_char(host@, ':');
                assert(gi >= 0);
                assert(i == gi as usize);
                assert(i as int == gi);
            }
            let r = host.substring_char(0, i);
            proof {
                assert(host@.subrange(0, i as int) =~= host@.take(i as int));
            }
            r
        },
        None => host,
    }
}

/// Whether the host matches the base name on a whole-label boundary.
pub fn host_matches(host: &str, base: &str) -> (r: bool)
    ensures
        r == spec_host_matches(host@, base@),
{
    if str_eq(host, base) {
        return true;
    }
    let mut dotted = String::from_str(".");
    dotted.append(base);
    proof {
        reveal_strlit(".");
        assert(dotted@ =~= seq!['.'] + base@);
    }
    str_ends_with(host, dotted.as_str())
}

/// Decides whether a request is served by the mirror or forwarded to the
/// official servers.  Search, beatmap-info and download paths on the main
/// or local host, and thumbnail or preview paths on the asset or local
/// host, are handled locally; everything else is forwarded.
pub fn route_request(host: &str, path: &str) -> (r: RouteDecision)
    ensures
        r == spec_route(host@, path@),
{
    let host_stripped = strip_port(host);

    if host_matches(host_stripped, "osu.ppy.sh") || host_matches(host_stripped, "localhost") {
        if str_starts_with(path, "/web/osu-search.php") || str_starts_with(
            path,
            "/web/osu-search-set.php",
        ) {
            return RouteDecision::HandleLocally;
        }
        if str_starts_with(path, "/d/") {
            return RouteDecision::HandleLocally;
        }
        if str_starts_with(path, "/web/osu-getbeatmapinfo.php") {
            return RouteDecision::HandleLocally;
        }
    }

    if (host_matches(host_stripped, "b.ppy.sh") || host_matches(host_stripped, "localhost")) && (
    str_starts_with(path, "/thumb/") || str_starts_with(path, "/preview/")) {
        return RouteDecision::HandleLocally;
    }

    RouteDecision::ForwardToPpy
}

/// The mirror URL for a path: the base with trailing slashes trimmed,
/// then the path.
pub fn map_to_raimoe_url(original_path: &str, direct_base_url: &str) -> (r: String)
    ensures
        r@ == spec_trim_trailing(direct_base_url@, '/') + original_path@,
{
    let mut out = trim_trailing(direct_base_url, '/').to_owned();
    out.append(original_path);
    out
}

/// The official host a local host name stands for, decided by its first
/// DNS label: `c.`, `c1.`, `ce.` name the chat host, `a.` avatars, `b.`
/// beatmap assets, `s.` spectator, `i.` images, anything else the main
/// site.
pub open spec fn spec_map_host_to_ppy(host: Seq<char>) -> Seq<char> {
    let h = spec_strip_port(host);
    if spec_starts_with(h, "c."@) || spec_starts_with(h, "c1."@) || spec_starts_with(h, "ce."@) {
        "c.ppy.sh"@
    } else if spec_starts_with(h, "a."@) {
        "a.ppy.sh"@
    } else if spec_starts_with(h, "b."@) {
        "b.ppy.sh"@
    } else if spec_starts_with(h, "s."@) {
        "s.ppy.sh"@
    } else if spec_starts_with(h, "i."@) {
        "i.ppy.sh"@
    } else {
        "osu.ppy.sh"@
    }
}

/// Maps a local host name to the official host it stands for.
pub fn map_host_to_ppy(host: &str) -> (r: &'static str)
    ensures
        r@ == spec_map_host_to_ppy(host@),
{
    let h = strip_port(host);

    if str_starts_with(h, "c.") || str_starts_with(h, "c1.") || str_starts_with(h, "ce.") {
        "c.ppy.sh"
    } else if str_starts_with(h, "a.") {
        "a.ppy.sh"
    } else if str_starts_with(h, "b.") {
        "b.ppy.sh"
    } else if str_starts_with(h, "s.") {
        "s.ppy.sh"
    } else if str_starts_with(h, "i.") {
        "i.ppy.sh"
    } else {
        "osu.ppy.sh"
    }
}

/// The official URL for a request: `https://` on the mapped host and the
/// path.
pub fn map_to_ppy_url(host: &str, path: &str) -> (r: String)
    ensures
        r@ == "https://"@ + spec_map_host_to_ppy(host@) + path@,
{
    let ppy_host = map_host_to_ppy(host);
    let mut out = String::from_str("https://");
    out.append(ppy_host);
    out.append(path);
    out
}

/// Routing suffix safety: a host that merely embeds a trusted name, such
/// as `osu.ppy.sh.evil.com`, `fakeosu.ppy.sh` or `b.ppy.sh.evil.com`, is
/// forwarded to the official servers whatever the path.
pub proof fn lemma_route_suffix_safety(host: Seq<char>, path: Seq<char>)
    requires
        host == "osu.ppy.sh.evil.com"@ || host == "fakeosu.ppy.sh"@ || host == "b.ppy.sh.evil.com"@,
    ensures
        spec_route(host, path) == RouteDecision::ForwardToPpy,
{
    reveal_strlit("osu.ppy.sh.evil.com");
    reveal_strlit("fakeosu.ppy.sh");
    reveal_strlit("b.ppy.sh.evil.com");
    reveal_strlit("osu.ppy.sh");
    reveal_strlit("localhost");
    reveal_strlit("b.ppy.sh");

    assert forall|i: int| 0 <= i < host.len() implies host[i] != ':' by {}
    lemma_index_of_char_absent(host, ':');
    assert(spec_strip_port(host) == host);

    if host == "osu.ppy.sh.evil.com"@ {
        lemma_not_ends_with(host, seq!['.'] + "osu.ppy.sh"@, 10);
        lemma_not_ends_with(host, seq!['.'] + "localhost"@, 9);
        lemma_not_ends_with(host, seq!['.'] + "b.ppy.sh"@, 8);
    } else if host == "fakeosu.ppy.sh"@ {
        lemma_not_ends_with(host, seq!['.'] + "osu.ppy.sh"@, 0);
        lemma_not_ends_with(host, seq!['.'] + "localhost"@, 9);
        lemma_not_ends_with(host, seq!['.'] + "b.ppy.sh"@, 0);
    } else {
        lemma_not_ends_with(host, seq!['.'] + "osu.ppy.sh"@, 10);
        lemma_not_ends_with(host, seq!['.'] + "localhost"@, 9);
        lemma_not_ends_with(host, seq!['.'] + "b.ppy.sh"@, 8);
    }
}

} // verus!
