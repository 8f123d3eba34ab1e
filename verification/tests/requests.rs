use notion_blog::config::BlogEnv;
use notion_blog::ids::{page_id_for_path, page_uuid};
use notion_blog::proxy::{
    api_forward_headers, api_response_headers, claim_public_domain, cors_headers,
    is_public_page_data_path, notion_api_url, notion_query_headers, rewrite_csp, space_domain,
    MobileData, PublicPageData,
};
use notion_blog::routing::{route, Route, BING_SITE_AUTH};

fn env() -> BlogEnv {
    BlogEnv::new(
        "blog.kali-team.cn".to_string(),
        "kali-team.notion.site".to_string(),
        "Kali-Team".to_string(),
        "desc".to_string(),
        "https://avatars.githubusercontent.com/u/30642514?v=4".to_string(),
        "{}".to_string(),
        Some(r#"{"/":"edb6a939baab4424a25fd295b3c51312","/links":"9c74faba0b14441a93c2f94a40da3f79","/robots.txt":"abc"}"#.to_string()),
        None,
    )
}

fn pairs(v: &[(&str, &str)]) -> Vec<(String, String)> {
    v.iter().map(|(a, b)| (a.to_string(), b.to_string())).collect()
}

#[test]
fn routes() {
    let e = env();
    assert!(matches!(route("/", false, &e), Route::Redirect(u) if u == "https://blog.kali-team.cn/edb6a939baab4424a25fd295b3c51312"));
    assert!(matches!(route("/links", true, &e), Route::Redirect(u) if u == "https://blog.kali-team.cn/9c74faba0b14441a93c2f94a40da3f79"));
    assert!(matches!(route("/robots.txt", false, &e), Route::Redirect(u) if u == "https://blog.kali-team.cn/abc"));
    assert!(matches!(route("/BingSiteAuth.xml", false, &e), Route::Respond(b) if b == BING_SITE_AUTH));
    assert!(matches!(route("/sitemap.xml", false, &e), Route::Sitemap));
    assert!(matches!(route("/index.xml", true, &e), Route::Atom));
    assert!(matches!(route("/api/v3/teV1", false, &e), Route::Respond(b) if b == "success"));
    assert!(matches!(route("/images/favicon.ico", false, &e), Route::Redirect(u) if u == "https://avatars.githubusercontent.com/u/30642514?v=4"));
    assert!(matches!(route("/app.js", true, &e), Route::CorsPreflight));
    assert!(matches!(route("/app.js", false, &e), Route::ProxyScript));
    assert!(matches!(route("/api/v3/loadPageChunk", false, &e), Route::RewriteApi));
    assert!(matches!(route("/api/v3/x.js", false, &e), Route::ProxyScript));
    assert!(matches!(route("/post-95ab328cb39041709231abf7b56ac8fc", false, &e), Route::RewriteHtml));
}

#[test]
fn robots_txt() {
    let mut e = env();
    e.page_map = notion_blog::strmap::StrMap::new();
    assert!(matches!(route("/robots.txt", false, &e), Route::Respond(b) if b == "User-agent: *\nAllow: /\nSitemap: https://blog.kali-team.cn/sitemap.xml"));
}

#[test]
fn page_ids() {
    let e = env();
    let path = "/Notion-Blog-95ab328cb39041709231abf7b56ac8fc";
    assert_eq!(page_id_for_path(path, &e.page_map), "95ab328cb39041709231abf7b56ac8fc");
    assert_eq!(page_uuid(path, &e.page_map), Some(0x95ab328cb39041709231abf7b56ac8fc));
    assert_eq!(page_id_for_path("/", &e.page_map), "edb6a939baab4424a25fd295b3c51312");
    assert_eq!(page_uuid("/", &e.page_map), Some(0xedb6a939baab4424a25fd295b3c51312));
    assert_eq!(page_id_for_path("/links", &notion_blog::strmap::StrMap::new()), "");
    assert_eq!(page_uuid("/links", &notion_blog::strmap::StrMap::new()), None);
    assert_eq!(page_uuid("/Notion-Blog-95ab328cb39041709231abf7b56ac8fz", &e.page_map), None);
    assert_eq!(page_id_for_path("/abcdefghijklmnopqrstuvwxyz0123456", &e.page_map), "bcdefghijklmnopqrstuvwxyz0123456");
}

#[test]
fn csp_rewriting() {
    assert_eq!(
        rewrite_csp("script-src https://gist.github.com; style-src 'self'"),
        "script-src https://gist.github.com https://giscus.app/client.js https://static.cloudflareinsights.com; style-src https://giscus.app/default.css 'self'"
    );
    assert_eq!(
        rewrite_csp("default-src 'self'"),
        "default-src 'self';style-src https://giscus.app/default.css"
    );
    assert!(rewrite_csp("").contains("style-src https://giscus.app/default.css"));
}

#[test]
fn public_page_data() {
    assert!(is_public_page_data_path("/api/v3/getPublicPageData"));
    assert!(!is_public_page_data_path("/api/v3/getPublicPageDataX"));
    assert_eq!(space_domain("kali-team.notion.site"), "kali-team");
    let mut data = PublicPageData {
        kind: "block-space".to_string(),
        name: "page".to_string(),
        block_id: "edb6a939-baab-4424-a25f-d295b3c51312".to_string(),
        space_domain: None,
        show_move_to: false,
        save_parent: false,
        should_duplicate: false,
        project_management_launch: false,
        requested_on_public_domain: false,
        configure_open_in_desktop_app: false,
        mobile_data: MobileData { is_push: false },
    };
    claim_public_domain(&mut data, "kali-team.notion.site");
    assert!(data.requested_on_public_domain);
    assert_eq!(data.space_domain.as_deref(), Some("kali-team"));
    assert_eq!(data.kind, "block-space");
    assert_eq!(data.block_id, "edb6a939-baab-4424-a25f-d295b3c51312");
    assert!(!data.mobile_data.is_push);
}

#[test]
fn headers() {
    assert_eq!(
        cors_headers(),
        pairs(&[
            ("Access-Control-Allow-Origin", "*"),
            ("Access-Control-Allow-Methods", "GET,POST,PUT,PATCH,TRACE,DELETE,HEAD,OPTIONS"),
            ("Access-Control-Allow-Headers", "Content-Type"),
            ("Access-Control-Allow-Credentials", "True"),
            ("Access-Control-Max-Age", "1728000"),
        ])
    );
    assert_eq!(api_response_headers(), pairs(&[("Access-Control-Allow-Origin", "*"), ("Timing-Allow-Origin", "*")]));
    assert_eq!(api_forward_headers().len(), 3);
    assert_eq!(api_forward_headers()[0], ("Content-Type".to_string(), "application/json;charset=UTF-8".to_string()));
    assert_eq!(notion_query_headers()[0], ("Content-Type".to_string(), "application/json".to_string()));
    assert_eq!(
        notion_api_url("kali-team.notion.site", "queryCollection?src=initial_load"),
        "https://kali-team.notion.site/api/v3/queryCollection?src=initial_load"
    );
}

#[test]
fn page_uuid_forms() {
    let with_home = |id: &str| {
        notion_blog::config::var_to_map(Some(format!("{{\"/\":\"{}\"}}", id)))
    };
    let v = Some(0xedb6a939baab4424a25fd295b3c51312u128);
    assert_eq!(page_uuid("/", &with_home("edb6a939-baab-4424-a25f-d295b3c51312")), v);
    assert_eq!(page_uuid("/", &with_home("{edb6a939-baab-4424-a25f-d295b3c51312}")), v);
    assert_eq!(page_uuid("/", &with_home("URN:uuid:edb6a939-baab-4424-a25f-d295b3c51312")), v);
    assert_eq!(page_uuid("/", &with_home("EDB6A939BAAB4424A25FD295B3C51312")), v);
    assert_eq!(page_uuid("/", &with_home("edb6a939_baab-4424-a25f-d295b3c51312")), None);
    assert_eq!(page_uuid("/", &with_home("edb6a939baab4424a25fd295b3c5131")), None);
}
