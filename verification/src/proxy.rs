//! What the worker changes in the requests it forwards to Notion and in the
//! responses it sends back: headers, the content security policy, and the
//! public page data that Notion's API is asked for.

use vstd::prelude::*;
use crate::text::{
    contains, has_part, join2, join3, lacks, lemma_lacking_part, lemma_replaced_keeps,
    lemma_replaced_shows_rep, occurs_at, owned, replace, replaced, same_text,
};

verus! {

/// A list of headers from name and value texts.
fn headers_of(pairs: &[(&str, &str)]) -> (r: Vec<(String, String)>)
    ensures
        r.deep_view() == pairs@.map_values(|p: (&str, &str)| (p.0@, p.1@)),
{
    let mut out: Vec<(String, String)> = Vec::new();
    let n = pairs.len();
    for i in 0..n
        invariant
            n == pairs@.len(),
            out.deep_view() =~= pairs@.map_values(|p: (&str, &str)| (p.0@, p.1@)).take(i as int),
    {
        let ghost before = out.deep_view();
        let name = owned(pairs[i].0);
        let value = owned(pairs[i].1);
        out.push((name, value));
        proof {
            let all = pairs@.map_values(|p: (&str, &str)| (p.0@, p.1@));
            assert(out.deep_view() =~= before.push(all[i as int]));
            assert(all.take(i + 1) =~= all.take(i as int).push(all[i as int]));
        }
    }
    assert(pairs@.map_values(|p: (&str, &str)| (p.0@, p.1@)).take(n as int) =~= pairs@.map_values(
        |p: (&str, &str)| (p.0@, p.1@),
    ));
    out
}

/// The headers of the answer to a CORS preflight request.
pub fn cors_headers() -> (r: Vec<(String, String)>)
    ensures
        r.deep_view() == seq![
            ("Access-Control-Allow-Origin"@, "*"@),
            ("Access-Control-Allow-Methods"@, "GET,POST,PUT,PATCH,TRACE,DELETE,HEAD,OPTIONS"@),
            ("Access-Control-Allow-Headers"@, "Content-Type"@),
            ("Access-Control-Allow-Credentials"@, "True"@),
            ("Access-Control-Max-Age"@, "1728000"@),
        ],
{
    let pairs = [
        ("Access-Control-Allow-Origin", "*"),
        ("Access-Control-Allow-Methods", "GET,POST,PUT,PATCH,TRACE,DELETE,HEAD,OPTIONS"),
        ("Access-Control-Allow-Headers", "Content-Type"),
        ("Access-Control-Allow-Credentials", "True"),
        ("Access-Control-Max-Age", "1728000"),
    ];
    let r = headers_of(&pairs);
    assert(r.deep_view() =~= seq![
        ("Access-Control-Allow-Origin"@, "*"@),
        ("Access-Control-Allow-Methods"@, "GET,POST,PUT,PATCH,TRACE,DELETE,HEAD,OPTIONS"@),
        ("Access-Control-Allow-Headers"@, "Content-Type"@),
        ("Access-Control-Allow-Credentials"@, "True"@),
        ("Access-Control-Max-Age"@, "1728000"@),
    ]);
    r
}


/// The headers of a query to Notion's API.
pub fn notion_query_headers() -> (r: Vec<(String, String)>)
    ensures
        r.deep_view() == seq![
            ("Content-Type"@, "application/json"@),
            ("Accept-Language"@, "zh-CN,zh;q=0.8,zh-TW;q=0.7,zh-HK;q=0.5,en-US;q=0.3,en;q=0.2"@),
            ("User-Agent"@, " Mozilla/5.0 (X11; Linux x86_64; rv:109.0) Gecko/20100101 Firefox/115.0"@),
        ],
{
    let pairs = [
        ("Content-Type", "application/json"),
        ("Accept-Language", "zh-CN,zh;q=0.8,zh-TW;q=0.7,zh-HK;q=0.5,en-US;q=0.3,en;q=0.2"),
        ("User-Agent", " Mozilla/5.0 (X11; Linux x86_64; rv:109.0) Gecko/20100101 Firefox/115.0"),
    ];
    let r = headers_of(&pairs);
    assert(r.deep_view() =~= seq![
        ("Content-Type"@, "application/json"@),
        ("Accept-Language"@, "zh-CN,zh;q=0.8,zh-TW;q=0.7,zh-HK;q=0.5,en-US;q=0.3,en;q=0.2"@),
        ("User-Agent"@, " Mozilla/5.0 (X11; Linux x86_64; rv:109.0) Gecko/20100101 Firefox/115.0"@),
    ]);
    r
}

/// The headers that an API request forwarded to Notion gets on top of its own.
pub fn api_forward_headers() -> (r: Vec<(String, String)>)
    ensures
        r.deep_view() == seq![
            ("Content-Type"@, "application/json;charset=UTF-8"@),
            ("User-Agent"@, "Mozilla/5.0 (Macintosh; Intel Mac OS X 10_12_6) AppleWebKit/537.36 (KHTML, like Gecko) Chrome/80.0.3987.163 Safari/537.36"@),
            ("Access-Control-Allow-Origin"@, "*"@),
        ],
{
    let pairs = [
        ("Content-Type", "application/json;charset=UTF-8"),
        ("User-Agent", "Mozilla/5.0 (Macintosh; Intel Mac OS X 10_12_6) AppleWebKit/537.36 (KHTML, like Gecko) Chrome/80.0.3987.163 Safari/537.36"),
        ("Access-Control-Allow-Origin", "*"),
    ];
    let r = headers_of(&pairs);
    assert(r.deep_view() =~= seq![
        ("Content-Type"@, "application/json;charset=UTF-8"@),
        ("User-Agent"@, "Mozilla/5.0 (Macintosh; Intel Mac OS X 10_12_6) AppleWebKit/537.36 (KHTML, like Gecko) Chrome/80.0.3987.163 Safari/537.36"@),
        ("Access-Control-Allow-Origin"@, "*"@),
    ]);
    r
}

/// The headers of the answer to a forwarded API request.
pub fn api_response_headers() -> (r: Vec<(String, String)>)
    ensures
        r.deep_view() == seq![
            ("Access-Control-Allow-Origin"@, "*"@),
            ("Timing-Allow-Origin"@, "*"@),
        ],
{
    let pairs = [
        ("Access-Control-Allow-Origin", "*"),
        ("Timing-Allow-Origin", "*"),
    ];
    let r = headers_of(&pairs);
    assert(r.deep_view() =~= seq![
        ("Access-Control-Allow-Origin"@, "*"@),
        ("Timing-Allow-Origin"@, "*"@),
    ]);
    r
}

/// The address of Notion's API endpoint `path` on the Notion site's domain.
pub fn notion_api_url(notion_domain: &str, path: &str) -> (r: String)
    ensures
        r@ == "https://"@ + notion_domain@ + "/api/v3/"@ + path@,
{
    let a = join3("https://", notion_domain, "/api/v3/");
    join2(a.as_str(), path)
}

/// The content security policy that the blog sends: giscus and Cloudflare's
/// analytics are allowed where gists are, and giscus's stylesheet is allowed
/// for styles.
pub open spec fn csp_rewritten(csp: Seq<char>) -> Seq<char> {
    let c = replaced(
        csp,
        "https://gist.github.com"@,
        "https://gist.github.com https://giscus.app/client.js https://static.cloudflareinsights.com"@,
    );
    if has_part(c, "style-src"@) {
        replaced(c, "style-src"@, "style-src https://giscus.app/default.css"@)
    } else {
        c + ";style-src https://giscus.app/default.css"@
    }
}

/// The content security policy of a Notion page, opened for the blog's comments.
pub fn rewrite_csp(csp: &str) -> (r: String)
    ensures
        r@ == csp_rewritten(csp@),
        has_part(r@, "style-src https://giscus.app/default.css"@),
        has_part(csp@, "https://gist.github.com"@) ==> has_part(
            r@,
            "https://gist.github.com https://giscus.app/client.js https://static.cloudflareinsights.com"@,
        ),
{
    proof {
        law_csp_allows_giscus_style(csp@);
        if has_part(csp@, "https://gist.github.com"@) {
            law_csp_allows_giscus_client(csp@);
        }
    }
    let c = replace(
        csp,
        "https://gist.github.com",
        "https://gist.github.com https://giscus.app/client.js https://static.cloudflareinsights.com",
    );
    if contains(c.as_str(), "style-src") {
        replace(c.as_str(), "style-src", "style-src https://giscus.app/default.css")
    } else {
        join2(c.as_str(), ";style-src https://giscus.app/default.css")
    }
}

/// Whether an API request is the one for the public page data, which the
/// worker edits before it forwards it.
pub fn is_public_page_data_path(path: &str) -> (r: bool)
    ensures
        r == (path@ == "/api/v3/getPublicPageData"@),
{
    same_text(path, "/api/v3/getPublicPageData")
}

/// The Notion space's own domain: the Notion site's domain without `.notion.site`.
pub fn space_domain(notion_domain: &str) -> (r: String)
    ensures
        r@ == replaced(notion_domain@, ".notion.site"@, ""@),
{
    replace(notion_domain, ".notion.site", "")
}

/// The client flags of a public page data request.
pub struct MobileData {
    pub is_push: bool,
}

/// The body of a request for a page's public data.
pub struct PublicPageData {
    /// The request's `type`.
    pub kind: String,
    pub name: String,
    pub block_id: String,
    pub space_domain: Option<String>,
    pub show_move_to: bool,
    pub save_parent: bool,
    pub should_duplicate: bool,
    pub project_management_launch: bool,
    pub requested_on_public_domain: bool,
    pub configure_open_in_desktop_app: bool,
    pub mobile_data: MobileData,
}

/// Marks a public page data request as made on the public domain of the Notion
/// space, whose name it is given; everything else stays.
pub fn claim_public_domain(data: &mut PublicPageData, notion_domain: &str)
    ensures
        final(data).requested_on_public_domain,
        final(data).space_domain matches Some(d) && d@ == replaced(notion_domain@, ".notion.site"@, ""@),
        final(data).kind == old(data).kind,
        final(data).name == old(data).name,
        final(data).block_id == old(data).block_id,
        final(data).show_move_to == old(data).show_move_to,
        final(data).save_parent == old(data).save_parent,
        final(data).should_duplicate == old(data).should_duplicate,
        final(data).project_management_launch == old(data).project_management_launch,
        final(data).configure_open_in_desktop_app == old(data).configure_open_in_desktop_app,
        final(data).mobile_data == old(data).mobile_data,
{
    data.requested_on_public_domain = true;
    data.space_domain = Some(space_domain(notion_domain));
}


/// The style rule that the blog adds is in the policy after the style step.
proof fn lemma_style_step(c: Seq<char>)
    ensures
        has_part(
            if has_part(c, "style-src"@) {
                replaced(c, "style-src"@, "style-src https://giscus.app/default.css"@)
            } else {
                c + ";style-src https://giscus.app/default.css"@
            },
            "style-src https://giscus.app/default.css"@,
        ),
{
    let a = "style-src"@;
    let b = "style-src https://giscus.app/default.css"@;
    let t = ";style-src https://giscus.app/default.css"@;
    reveal_strlit("style-src");
    reveal_strlit(";style-src https://giscus.app/default.css");
    reveal_strlit("style-src https://giscus.app/default.css");
    assert(t.subrange(1, t.len() as int) =~= b);
    if has_part(c, a) {
        lemma_replaced_shows_rep(c, a, b);
    } else {
        let whole = c + t;
        let k = c.len() as int;
        assert(whole.subrange(k + 1, k + t.len()) =~= t.subrange(1, t.len() as int));
        assert(occurs_at(whole, k + 1, b));
    }
}

/// Whatever the policy of a page, the one the blog sends allows giscus's stylesheet.
pub proof fn law_csp_allows_giscus_style(csp: Seq<char>)
    ensures
        has_part(csp_rewritten(csp), "style-src https://giscus.app/default.css"@),
{
    let c = replaced(
        csp,
        "https://gist.github.com"@,
        "https://gist.github.com https://giscus.app/client.js https://static.cloudflareinsights.com"@,
    );
    lemma_style_step(c);
}

/// Wherever a page's policy allows gists, the policy the blog sends allows
/// giscus's client script and Cloudflare's analytics beside them, whether or not
/// it has a style directive.
pub proof fn law_csp_allows_giscus_client(csp: Seq<char>)
    requires
        has_part(csp, "https://gist.github.com"@),
    ensures
        has_part(
            csp_rewritten(csp),
            "https://gist.github.com https://giscus.app/client.js https://static.cloudflareinsights.com"@,
        ),
{
    let g = "https://gist.github.com"@;
    let w = "https://gist.github.com https://giscus.app/client.js https://static.cloudflareinsights.com"@;
    let a = "style-src"@;
    let b = "style-src https://giscus.app/default.css"@;
    let t = ";style-src https://giscus.app/default.css"@;
    reveal_strlit("https://gist.github.com");
    reveal_strlit("https://gist.github.com https://giscus.app/client.js https://static.cloudflareinsights.com");
    reveal_strlit("style-src");
    let c = replaced(csp, g, w);
    lemma_replaced_shows_rep(csp, g, w);
    let i = choose|i: int| occurs_at(c, i, w);
    if has_part(c, a) {
        let x = c.subrange(0, i);
        let y = c.subrange(i + w.len(), c.len() as int);
        assert(c =~= x + w + y);
        assert(lacks(a, w[0]));
        assert(lacks(a, w.last()));
        assert(lacks(w, a[2]));
        lemma_lacking_part(w, a, 2);
        lemma_replaced_keeps(x, w, y, a, b);
        let rx = replaced(x, a, b);
        let r = rx + w + replaced(y, a, b);
        let k = rx.len() as int;
        assert(r.subrange(k, k + w.len()) =~= w);
        assert(occurs_at(r, k, w));
    } else {
        let r = c + t;
        assert(r.subrange(i, i + w.len()) =~= c.subrange(i, i + w.len()));
        assert(occurs_at(r, i, w));
    }
}

} // verus!
