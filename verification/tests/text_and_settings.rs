use notion_blog::config::{var_to_map, BlogEnv};
use notion_blog::page::{Block, Properties, RecordMap, Title, Value, ValueRole};
use notion_blog::text::{contains, ends_with, join2, join3, owned, replace, same_text, starts_with};

#[test]
fn replace_scenarios() {
    assert_eq!(replace("kali-team.notion.site", ".notion.site", ""), "kali-team");
    assert_eq!(replace("aaaa", "aa", "b"), "bb");
    assert_eq!(replace("aaa", "aa", "b"), "ba");
    assert_eq!(replace("abc", "x", "y"), "abc");
    assert_eq!(replace("ab", "", "X"), "XaXbX");
    assert_eq!(replace("", "", "X"), "X");
    assert_eq!(replace("", "a", "X"), "");
    assert_eq!(replace("DATA_REPO_ID DATA_REPO", "DATA_REPO_ID", "1"), "1 DATA_REPO");
    assert_eq!(replace("黑风雷黑", "黑", "白"), "白风雷白");
}

#[test]
fn text_tests() {
    assert!(contains("style-src 'self'", "style-src"));
    assert!(!contains("script-src", "style-src"));
    assert!(contains("abc", ""));
    assert!(!contains("", "a"));
    assert!(starts_with("/api/v3/x", "/api"));
    assert!(!starts_with("/ap", "/api"));
    assert!(ends_with("/a/b.js", ".js"));
    assert!(!ends_with("/a/b.json", ".js"));
    assert!(same_text("abc", "abc"));
    assert!(!same_text("abc", "abd"));
    assert!(!same_text("abc", "ab"));
    assert_eq!(owned("x"), "x");
    assert_eq!(join2("a", "b"), "ab");
    assert_eq!(join3("a", "b", "c"), "abc");
}

#[test]
fn settings_from_json() {
    let m = var_to_map(Some(r#"{"/":"edb6a939baab4424a25fd295b3c51312","/links":"9c74faba0b14441a93c2f94a40da3f79","/donate":"eb55bc48f7fb42bfaef8473d2b7b63aa"}"#.to_string()));
    assert_eq!(m.get("/").unwrap(), "edb6a939baab4424a25fd295b3c51312");
    assert_eq!(m.get("/links").unwrap(), "9c74faba0b14441a93c2f94a40da3f79");
    assert_eq!(m.get("/donate").unwrap(), "eb55bc48f7fb42bfaef8473d2b7b63aa");
    assert!(m.get("/other").is_none());
    assert_eq!(m.entries().len(), 3);
    assert!(!m.is_empty());
}

#[test]
fn settings_duplicate_key_keeps_last() {
    let m = var_to_map(Some(r#"{"a":"1","a":"2"}"#.to_string()));
    assert_eq!(m.get("a").unwrap(), "2");
    assert_eq!(m.entries().len(), 1);
}

#[test]
fn settings_invalid_or_missing_are_empty() {
    assert!(var_to_map(None).is_empty());
    assert!(var_to_map(Some("not json".to_string())).is_empty());
    assert!(var_to_map(Some(r#"{"a":1}"#.to_string())).is_empty());
    assert!(var_to_map(Some("[]".to_string())).is_empty());
}

#[test]
fn strmap_from_entries() {
    let m = notion_blog::strmap::StrMap::from_entries(vec![
        ("a".to_string(), "1".to_string()),
        ("b".to_string(), "2".to_string()),
        ("a".to_string(), "3".to_string()),
    ]);
    assert_eq!(
        m.entries(),
        &vec![("a".to_string(), "3".to_string()), ("b".to_string(), "2".to_string())]
    );
    assert!(notion_blog::strmap::StrMap::new().is_empty());
}

#[test]
fn blog_env_new() {
    let env = BlogEnv::new(
        "blog.kali-team.cn".to_string(),
        "kali-team.notion.site".to_string(),
        "Kali-Team".to_string(),
        "三米前有蕉皮".to_string(),
        "https://avatars.githubusercontent.com/u/30642514?v=4".to_string(),
        "{}".to_string(),
        Some(r#"{"/":"edb6a939baab4424a25fd295b3c51312"}"#.to_string()),
        None,
    );
    assert_eq!(env.my_domain, "blog.kali-team.cn");
    assert_eq!(env.description, "三米前有蕉皮");
    assert_eq!(env.page_map.get("/").unwrap(), "edb6a939baab4424a25fd295b3c51312");
    assert!(env.comment_map.is_empty());
}

fn block(id: &str, version: i32) -> Block {
    Block {
        value: ValueRole {
            value: Value {
                id: id.to_string(),
                version,
                kind: "page".to_string(),
                properties: Properties {
                    title: vec![Title::Array(vec![Title::String("Metasploit".to_string())])],
                },
            },
            role: "reader".to_string(),
        },
    }
}

#[test]
fn record_map_keeps_one_block_per_id() {
    let rm = RecordMap::from_blocks(vec![
        ("0b976b99".to_string(), block("0b976b99", 187)),
        ("edb6a939".to_string(), block("edb6a939", 1193)),
        ("0b976b99".to_string(), block("0b976b99", 188)),
    ]);
    let blocks = rm.blocks();
    assert_eq!(blocks.len(), 2);
    assert_eq!(blocks[0].0, "0b976b99");
    assert_eq!(blocks[0].1.value.value.version, 188);
    assert_eq!(blocks[1].0, "edb6a939");
    assert_eq!(blocks[1].1.value.value.version, 1193);
}
