use rai_connect::routing::{map_host_to_ppy, map_to_ppy_url, map_to_raimoe_url, route_request,
    RouteDecision};

#[test]
fn test_route_osu_search() {
    assert_eq!(
        route_request("osu.ppy.sh", "/web/osu-search.php?q=test"),
        RouteDecision::HandleLocally
    );
}

#[test]
fn test_route_download() {
    assert_eq!(
        route_request("osu.ppy.sh", "/d/123456"),
        RouteDecision::HandleLocally
    );
}

#[test]
fn test_route_login_forwards() {
    assert_eq!(
        route_request("osu.ppy.sh", "/web/osu-submit-modular-selector.php"),
        RouteDecision::ForwardToPpy
    );
}

#[test]
fn test_route_bancho_forwards() {
    assert_eq!(route_request("c.ppy.sh", "/"), RouteDecision::ForwardToPpy);
}

#[test]
fn test_thumbnail_routes_locally() {
    assert_eq!(
        route_request("b.ppy.sh", "/thumb/123456l.jpg"),
        RouteDecision::HandleLocally
    );
}

#[test]
fn test_ce_subdomain_forwards_to_bancho() {
    assert_eq!(map_host_to_ppy("ce.ppy.sh"), "c.ppy.sh");
    assert_eq!(map_host_to_ppy("ce.osu.ppy.sh"), "c.ppy.sh");
}

#[test]
fn test_c1_subdomain_forwards_to_bancho() {
    assert_eq!(map_host_to_ppy("c1.ppy.sh"), "c.ppy.sh");
}

#[test]
fn test_port_stripping_from_host() {
    assert_eq!(
        route_request("osu.ppy.sh:443", "/web/osu-search.php"),
        RouteDecision::HandleLocally
    );
    assert_eq!(
        route_request("osu.ppy.sh:80", "/d/123456"),
        RouteDecision::HandleLocally
    );
    assert_eq!(
        route_request("b.ppy.sh:443", "/thumb/123.jpg"),
        RouteDecision::HandleLocally
    );
}

#[test]
fn test_map_host_to_ppy_strips_port() {
    assert_eq!(map_host_to_ppy("c.ppy.sh:443"), "c.ppy.sh");
    assert_eq!(map_host_to_ppy("a.ppy.sh:80"), "a.ppy.sh");
    assert_eq!(map_host_to_ppy("osu.ppy.sh:8080"), "osu.ppy.sh");
}

#[test]
fn test_empty_path_forwards() {
    assert_eq!(route_request("osu.ppy.sh", ""), RouteDecision::ForwardToPpy);
}

#[test]
fn test_root_path_forwards() {
    assert_eq!(route_request("osu.ppy.sh", "/"), RouteDecision::ForwardToPpy);
}

#[test]
fn test_path_without_leading_slash() {
    assert_eq!(
        route_request("osu.ppy.sh", "d/123456"),
        RouteDecision::ForwardToPpy
    );
    assert_eq!(
        route_request("osu.ppy.sh", "web/osu-search.php"),
        RouteDecision::ForwardToPpy
    );
}

#[test]
fn test_malicious_domain_not_matching() {
    assert_eq!(
        route_request("osu.ppy.sh.evil.com", "/web/osu-search.php"),
        RouteDecision::ForwardToPpy
    );
    assert_eq!(
        route_request("osu.ppy.sh.evil.com", "/d/123456"),
        RouteDecision::ForwardToPpy
    );
}

#[test]
fn test_similar_domain_not_matching() {
    assert_eq!(
        route_request("fakeosu.ppy.sh", "/web/osu-search.php"),
        RouteDecision::ForwardToPpy
    );
    assert_eq!(
        route_request("nosu.ppy.sh", "/d/123456"),
        RouteDecision::ForwardToPpy
    );
}

#[test]
fn test_b_ppy_sh_evil_com_not_matching() {
    assert_eq!(
        route_request("b.ppy.sh.evil.com", "/thumb/123.jpg"),
        RouteDecision::ForwardToPpy
    );
}

#[test]
fn test_preview_routes_locally() {
    assert_eq!(
        route_request("b.ppy.sh", "/preview/123456.mp3"),
        RouteDecision::HandleLocally
    );
}

#[test]
fn test_osu_search_set_routes_locally() {
    assert_eq!(
        route_request("osu.ppy.sh", "/web/osu-search-set.php?b=123"),
        RouteDecision::HandleLocally
    );
}

#[test]
fn test_osu_getbeatmapinfo_routes_locally() {
    assert_eq!(
        route_request("osu.ppy.sh", "/web/osu-getbeatmapinfo.php"),
        RouteDecision::HandleLocally
    );
}

#[test]
fn test_localhost_search_routes_locally() {
    assert_eq!(
        route_request("localhost", "/web/osu-search.php"),
        RouteDecision::HandleLocally
    );
}

#[test]
fn test_localhost_download_routes_locally() {
    assert_eq!(
        route_request("localhost", "/d/123456"),
        RouteDecision::HandleLocally
    );
}

#[test]
fn test_localhost_thumb_routes_locally() {
    assert_eq!(
        route_request("localhost", "/thumb/123.jpg"),
        RouteDecision::HandleLocally
    );
}

#[test]
fn test_subdomain_of_localhost_routes_locally() {
    assert_eq!(
        route_request("osu.localhost", "/web/osu-search.php"),
        RouteDecision::HandleLocally
    );
    assert_eq!(
        route_request("b.localhost", "/thumb/123.jpg"),
        RouteDecision::HandleLocally
    );
}

#[test]
fn test_map_to_raimoe_url_basic() {
    assert_eq!(
        map_to_raimoe_url("/d/123456", "https://direct.rai.moe"),
        "https://direct.rai.moe/d/123456"
    );
}

#[test]
fn test_map_to_raimoe_url_strips_trailing_slash() {
    assert_eq!(
        map_to_raimoe_url("/d/123456", "https://direct.rai.moe/"),
        "https://direct.rai.moe/d/123456"
    );
}

#[test]
fn test_map_to_ppy_url_basic() {
    assert_eq!(
        map_to_ppy_url("osu.ppy.sh", "/web/test"),
        "https://osu.ppy.sh/web/test"
    );
}

#[test]
fn test_map_to_ppy_url_with_port() {
    assert_eq!(map_to_ppy_url("c.ppy.sh:443", "/"), "https://c.ppy.sh/");
}

#[test]
fn test_map_host_to_ppy_all_subdomains() {
    assert_eq!(map_host_to_ppy("a.ppy.sh"), "a.ppy.sh");
    assert_eq!(map_host_to_ppy("b.ppy.sh"), "b.ppy.sh");
    assert_eq!(map_host_to_ppy("c.ppy.sh"), "c.ppy.sh");
    assert_eq!(map_host_to_ppy("s.ppy.sh"), "s.ppy.sh");
    assert_eq!(map_host_to_ppy("i.ppy.sh"), "i.ppy.sh");
    assert_eq!(map_host_to_ppy("unknown.ppy.sh"), "osu.ppy.sh");
}
