use notion_blog::config::{var_to_map, BlogEnv};
use notion_blog::html::{BASE, HEAD, RESIZE, THEME};
use notion_blog::rewrite::{meta_action, page_appendix, rewriter, MetaAction};
use notion_blog::scripts::{get_comment, update_history};

fn env(page_map: &str, comment_map: Option<&str>) -> BlogEnv {
    BlogEnv::new(
        "blog.kali-team.cn".to_string(),
        "kali-team.notion.site".to_string(),
        "Kali-Team".to_string(),
        "Kali-Team".to_string(),
        "https://avatars.githubusercontent.com/u/30642514?v=4".to_string(),
        "{}".to_string(),
        Some(page_map.to_string()),
        comment_map.map(|c| c.to_string()),
    )
}

fn text(bytes: Vec<u8>) -> String {
    String::from_utf8(bytes).unwrap()
}

#[test]
fn it_works() {
    let html = r#"<meta name="description" content="A new tool that blends your everyday work apps into one. It's the all-in-one workspace for you and your team">
        <meta name="twitter:site" content="@NotionHQ">
        <meta name="twitter:url" content="https://www.notion.so">
        "#
    .to_string();
    let out = text(rewriter(html.into_bytes(), env("{}", None), None, None).unwrap());
    println!("{}", out);
    assert!(out.contains(r#"<meta name="description" content="Kali-Team">"#));
    assert!(out.contains(r#"<meta name="twitter:site" content="Kali-Team">"#));
    assert!(out.contains(r#"<meta name="twitter:url" content="https://blog.kali-team.cn">"#));
    assert!(!out.contains("NotionHQ"));
}

#[test]
fn rewriter_sets_title_head_and_body() {
    let html = "<html><head><title>Notion</title><meta property=\"og:image\" content=\"x\"><meta name=\"apple-itunes-app\" content=\"app-id=1\"></head><body><p>hi</p></body></html>";
    let blog = env(r#"{"/":"edb6a939baab4424a25fd295b3c51312"}"#, None);
    let appendix = page_appendix(&blog);
    let out = text(
        rewriter(html.as_bytes().to_vec(), blog, Some("My page".to_string()), Some("/images/a.png".to_string()))
            .unwrap(),
    );
    assert!(out.contains("<title>Kali-Team</title>"));
    assert!(out.contains(r#"<meta property="og:image" content="https://blog.kali-team.cn/images/a.png">"#));
    assert!(!out.contains("apple-itunes-app"));
    assert!(out.contains(&format!("{}</head>", HEAD)));
    assert!(out.contains(&format!("<p>hi</p>{}</body>", appendix)));
}

#[test]
fn title_falls_back_to_description() {
    let html = "<meta property=\"og:title\" content=\"x\"><meta name=\"twitter:image\" content=\"y\">";
    let out = text(rewriter(html.as_bytes().to_vec(), env("{}", None), None, None).unwrap());
    assert_eq!(
        out,
        "<meta property=\"og:title\" content=\"Kali-Team\"><meta name=\"twitter:image\" content=\"https://avatars.githubusercontent.com/u/30642514?v=4\">"
    );
}

#[test]
fn meta_actions() {
    let act = |n: Option<&str>, p: Option<&str>| {
        meta_action(n.map(|s| s.to_string()), p.map(|s| s.to_string()), "T", "https://d", "I")
    };
    assert!(matches!(act(Some("apple-itunes-app"), Some("og:title")), MetaAction::Remove));
    assert!(matches!(act(Some("description"), None), MetaAction::SetContent(c) if c == "T"));
    assert!(matches!(act(Some("twitter:url"), None), MetaAction::SetContent(c) if c == "https://d"));
    assert!(matches!(act(Some("twitter:image"), None), MetaAction::SetContent(c) if c == "I"));
    assert!(matches!(act(Some("twitter:url"), Some("og:image")), MetaAction::SetContent(c) if c == "I"));
    assert!(matches!(act(None, Some("og:url")), MetaAction::SetContent(c) if c == "https://d"));
    assert!(matches!(act(Some("viewport"), Some("og:type")), MetaAction::Keep));
    assert!(matches!(act(None, None), MetaAction::Keep));
}

#[test]
fn appendix_without_comments() {
    let blog = env(r#"{"/":"abc"}"#, None);
    let history = update_history(&blog.page_map);
    assert_eq!(page_appendix(&blog), format!("{}{}{}{}", BASE, history, RESIZE, THEME));
}

#[test]
fn appendix_with_comments() {
    let blog = env("{}", Some(r#"{"data-repo":"me/blog"}"#));
    let history = update_history(&blog.page_map);
    let comment = get_comment(&blog.comment_map);
    assert_eq!(page_appendix(&blog), format!("{}{}{}{}{}", BASE, history, RESIZE, THEME, comment));
    assert!(comment.contains(r#"comment.setAttribute("data-repo","me/blog");"#));
}

#[test]
fn history_script_holds_both_maps() {
    let map = var_to_map(Some(r#"{"/":"abc","/links":"def"}"#.to_string()));
    let script = update_history(&map);
    assert!(script.contains(r#"const SLUG_TO_PAGE = {"abc":"/","def":"/links"};"#));
    assert!(script.contains(r#"const PAGE_TO_SLUG = {"/":"abc","/links":"def"};"#));
    assert!(!script.contains("slug_map_str"));
    assert!(!script.contains("page_map_str"));
}

#[test]
fn history_slug_map_takes_last_route() {
    let map = var_to_map(Some(r#"{"/a":"p","/b":"p"}"#.to_string()));
    let script = update_history(&map);
    assert!(script.contains(r#"const SLUG_TO_PAGE = {"p":"/b"};"#));
}

#[test]
fn history_with_empty_map() {
    let script = update_history(&var_to_map(None));
    assert!(script.contains("const SLUG_TO_PAGE = {};"));
    assert!(script.contains("const PAGE_TO_SLUG = {};"));
}

#[test]
fn comment_defaults() {
    let script = get_comment(&var_to_map(None));
    assert!(script.contains(r#"comment.setAttribute("data-repo","cn-kali-team/notion-blog");"#));
    assert!(script.contains(r#"comment.setAttribute("data-repo-id","R_kgDOI1wUgQ");"#));
    assert!(script.contains(r#"comment.setAttribute("data-category-id","DIC_kwDOI1wUgc4CZK9O");"#));
    assert!(script.contains(r#"comment.setAttribute("data-mapping","title");"#));
    assert!(script.contains(r#"comment.setAttribute("data-input-position","top");"#));
    assert!(script.contains(r#"comment.setAttribute("data-theme","preferred_color_scheme");"#));
    assert!(script.contains(r#"comment.setAttribute("data-lang","zh-CN");"#));
    assert!(!script.contains("DATA_"));
}

#[test]
fn comment_settings_from_readme() {
    let map = var_to_map(Some(r#"{"data-repo":"cn-kali-team/notion-blog","data-repo-id":"R_kgDOI1wUgQ","data-category-id":"DIC_kwDOI1wUgc4CZK9O","data-mapping":"title","data-input-position":"bottom","data-theme":"dark","data-lang":"en"}"#.to_string()));
    let script = get_comment(&map);
    assert!(script.contains(r#"comment.setAttribute("data-input-position","bottom");"#));
    assert!(script.contains(r#"comment.setAttribute("data-theme","dark");"#));
    assert!(script.contains(r#"comment.setAttribute("data-lang","en");"#));
    assert!(script.contains(r#"comment.setAttribute("data-repo-id","R_kgDOI1wUgQ");"#));
}

#[test]
fn history_json_escapes() {
    let map = var_to_map(Some("{\"/a\\\"b\":\"x\\\\y\\n\\u0001\\t黑/\"}".to_string()));
    let script = update_history(&map);
    assert!(script.contains("const PAGE_TO_SLUG = {\"/a\\\"b\":\"x\\\\y\\n\\u0001\\t黑/\"};"));
    assert!(script.contains("const SLUG_TO_PAGE = {\"x\\\\y\\n\\u0001\\t黑/\":\"/a\\\"b\"};"));
}

#[test]
fn readme_comment_settings_equal_defaults() {
    let readme = var_to_map(Some(r#"{"data-repo":"cn-kali-team/notion-blog","data-repo-id":"R_kgDOI1wUgQ","data-category-id":"DIC_kwDOI1wUgc4CZK9O","data-mapping":"title","data-input-position":"top","data-theme":"preferred_color_scheme","data-lang":"zh-CN"}"#.to_string()));
    assert_eq!(get_comment(&readme), get_comment(&var_to_map(None)));
}
