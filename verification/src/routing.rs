//! Where the worker sends each request.

use vstd::prelude::*;
use crate::config::BlogEnv;
use crate::strmap::{lookup, Entries};
use crate::text::{begins_with, ends_with, finishes_with, join2, join3, owned, same_text, starts_with};

verus! {

/// The answer to Bing's site ownership request.
pub const BING_SITE_AUTH: &'static str = "<?xml version=\"1.0\"?><users><user>6743F9D57B1260BC5F59A888815408B4</user></users>";

/// How the worker answers a request.
pub enum Route {
    /// A redirect to the address.
    Redirect(String),
    /// A plain answer with this body.
    Respond(String),
    /// The sitemap of the blog's posts.
    Sitemap,
    /// The Atom feed of the blog's posts.
    Atom,
    /// The answer to a CORS preflight request.
    CorsPreflight,
    /// The script, fetched from Notion as it is.
    ProxyScript,
    /// The API request, forwarded to Notion.
    RewriteApi,
    /// The page, fetched from Notion and rewritten.
    RewriteHtml,
}

/// A route with its texts as character sequences.
pub enum RouteView {
    Redirect(Seq<char>),
    Respond(Seq<char>),
    Sitemap,
    Atom,
    CorsPreflight,
    ProxyScript,
    RewriteApi,
    RewriteHtml,
}

impl View for Route {
    type V = RouteView;

    open spec fn view(&self) -> RouteView {
        match self {
            Route::Redirect(u) => RouteView::Redirect(u@),
            Route::Respond(b) => RouteView::Respond(b@),
            Route::Sitemap => RouteView::Sitemap,
            Route::Atom => RouteView::Atom,
            Route::CorsPreflight => RouteView::CorsPreflight,
            Route::ProxyScript => RouteView::ProxyScript,
            Route::RewriteApi => RouteView::RewriteApi,
            Route::RewriteHtml => RouteView::RewriteHtml,
        }
    }
}

/// The blog's `robots.txt`.
pub open spec fn robots_text(my_domain: Seq<char>) -> Seq<char> {
    "User-agent: *\nAllow: /\nSitemap: https://"@ + my_domain + "/sitemap.xml"@
}

/// Where a request goes: a route of the page map redirects to the page on the
/// blog's domain; then come the fixed files (Bing's site ownership file, the sitemap, the feed,
/// Notion's telemetry, `robots.txt`, the favicon); then a preflight request is
/// answered; then scripts are fetched as they are, API requests forwarded, and
/// anything else treated as a page.
pub open spec fn route_of(
    path: Seq<char>,
    is_options: bool,
    page_map: Entries,
    my_domain: Seq<char>,
    icon: Seq<char>,
) -> RouteView {
    match lookup(page_map, path) {
        Some(id) => RouteView::Redirect("https://"@ + my_domain + "/"@ + id),
        None => if path == "/BingSiteAuth.xml"@ {
            RouteView::Respond(BING_SITE_AUTH@)
        } else if path == "/sitemap.xml"@ {
            RouteView::Sitemap
        } else if path == "/index.xml"@ {
            RouteView::Atom
        } else if path == "/api/v3/teV1"@ {
            RouteView::Respond("success"@)
        } else if path == "/robots.txt"@ {
            RouteView::Respond(robots_text(my_domain))
        } else if path == "/images/favicon.ico"@ {
            RouteView::Redirect(icon)
        } else if is_options {
            RouteView::CorsPreflight
        } else if finishes_with(path, ".js"@) {
            RouteView::ProxyScript
        } else if begins_with(path, "/api"@) {
            RouteView::RewriteApi
        } else {
            RouteView::RewriteHtml
        },
    }
}

/// The route of a request with this path and method.
pub fn route(path: &str, is_options: bool, blog_env: &BlogEnv) -> (r: Route)
    ensures
        r@ == route_of(
            path@,
            is_options,
            blog_env.page_map@,
            blog_env.my_domain@,
            blog_env.icon@,
        ),
{
    if let Some(page_id) = blog_env.page_map.get(path) {
        let a = join3("https://", blog_env.my_domain.as_str(), "/");
        return Route::Redirect(join2(a.as_str(), page_id.as_str()));
    }
    if same_text(path, "/BingSiteAuth.xml") {
        Route::Respond(owned(BING_SITE_AUTH))
    } else if same_text(path, "/sitemap.xml") {
        Route::Sitemap
    } else if same_text(path, "/index.xml") {
        Route::Atom
    } else if same_text(path, "/api/v3/teV1") {
        Route::Respond(owned("success"))
    } else if same_text(path, "/robots.txt") {
        Route::Respond(join3("User-agent: *\nAllow: /\nSitemap: https://", blog_env.my_domain.as_str(), "/sitemap.xml"))
    } else if same_text(path, "/images/favicon.ico") {
        Route::Redirect(blog_env.icon.clone())
    } else if is_options {
        Route::CorsPreflight
    } else if ends_with(path, ".js") {
        Route::ProxyScript
    } else if starts_with(path, "/api") {
        Route::RewriteApi
    } else {
        Route::RewriteHtml
    }
}

/// A route of the page map always redirects to its page on the blog's own
/// domain, whatever the method and whatever fixed file the path names.
pub proof fn law_mapped_route_redirects(
    path: Seq<char>,
    is_options: bool,
    page_map: Entries,
    my_domain: Seq<char>,
    icon: Seq<char>,
)
    requires
        lookup(page_map, path) is Some,
    ensures
        route_of(path, is_options, page_map, my_domain, icon) == RouteView::Redirect(
            "https://"@ + my_domain + "/"@ + lookup(page_map, path)->0,
        ),
{
}

/// An OPTIONS request for a path that is neither a route of the page map nor
/// one of the six fixed files is answered as a CORS preflight, whatever the
/// path looks like (a script, an API call or a page).
pub proof fn law_options_preflight(
    path: Seq<char>,
    page_map: Entries,
    my_domain: Seq<char>,
    icon: Seq<char>,
)
    requires
        lookup(page_map, path) is None,
        path != "/BingSiteAuth.xml"@,
        path != "/sitemap.xml"@,
        path != "/index.xml"@,
        path != "/api/v3/teV1"@,
        path != "/robots.txt"@,
        path != "/images/favicon.ico"@,
    ensures
        route_of(path, true, page_map, my_domain, icon) == RouteView::CorsPreflight,
{
}

/// A request that is not OPTIONS, for a path that is neither a route of the
/// page map nor a fixed file, is fetched as a script where the path ends with
/// `.js`, forwarded to the API where it begins with `/api`, and rewritten as a
/// page otherwise.
pub proof fn law_other_requests(
    path: Seq<char>,
    page_map: Entries,
    my_domain: Seq<char>,
    icon: Seq<char>,
)
    requires
        lookup(page_map, path) is None,
        path != "/BingSiteAuth.xml"@,
        path != "/sitemap.xml"@,
        path != "/index.xml"@,
        path != "/api/v3/teV1"@,
        path != "/robots.txt"@,
        path != "/images/favicon.ico"@,
    ensures
        finishes_with(path, ".js"@) ==> route_of(path, false, page_map, my_domain, icon)
            == RouteView::ProxyScript,
        !finishes_with(path, ".js"@) && begins_with(path, "/api"@) ==> route_of(
            path,
            false,
            page_map,
            my_domain,
            icon,
        ) == RouteView::RewriteApi,
        !finishes_with(path, ".js"@) && !begins_with(path, "/api"@) ==> route_of(
            path,
            false,
            page_map,
            my_domain,
            icon,
        ) == RouteView::RewriteHtml,
{
}

/// The six fixed files, where the page map does not take their paths, are
/// answered the same way for every method: Bing's ownership file, the sitemap,
/// the feed, `success` for Notion's telemetry, `robots.txt` naming the sitemap
/// on the blog's domain, and a redirect to the blog's icon.
pub proof fn law_fixed_files(is_options: bool, page_map: Entries, my_domain: Seq<char>, icon: Seq<char>)
    ensures
        lookup(page_map, "/BingSiteAuth.xml"@) is None ==> route_of(
            "/BingSiteAuth.xml"@,
            is_options,
            page_map,
            my_domain,
            icon,
        ) == RouteView::Respond(BING_SITE_AUTH@),
        lookup(page_map, "/sitemap.xml"@) is None ==> route_of(
            "/sitemap.xml"@,
            is_options,
            page_map,
            my_domain,
            icon,
        ) == RouteView::Sitemap,
        lookup(page_map, "/index.xml"@) is None ==> route_of(
            "/index.xml"@,
            is_options,
            page_map,
            my_domain,
            icon,
        ) == RouteView::Atom,
        lookup(page_map, "/api/v3/teV1"@) is None ==> route_of(
            "/api/v3/teV1"@,
            is_options,
            page_map,
            my_domain,
            icon,
        ) == RouteView::Respond("success"@),
        lookup(page_map, "/robots.txt"@) is None ==> route_of(
            "/robots.txt"@,
            is_options,
            page_map,
            my_domain,
            icon,
        ) == RouteView::Respond(
            "User-agent: *\nAllow: /\nSitemap: https://"@ + my_domain + "/sitemap.xml"@,
        ),
        lookup(page_map, "/images/favicon.ico"@) is None ==> route_of(
            "/images/favicon.ico"@,
            is_options,
            page_map,
            my_domain,
            icon,
        ) == RouteView::Redirect(icon),
{
    reveal_strlit("/BingSiteAuth.xml");
    reveal_strlit("/sitemap.xml");
    reveal_strlit("/index.xml");
    reveal_strlit("/api/v3/teV1");
    reveal_strlit("/robots.txt");
    reveal_strlit("/images/favicon.ico");
    assert("/sitemap.xml"@[1] != "/BingSiteAuth.xml"@[1]);
    assert("/index.xml"@[1] != "/BingSiteAuth.xml"@[1]);
    assert("/index.xml"@[1] != "/sitemap.xml"@[1]);
    assert("/api/v3/teV1"@[1] != "/BingSiteAuth.xml"@[1]);
    assert("/api/v3/teV1"@[1] != "/sitemap.xml"@[1]);
    assert("/api/v3/teV1"@[1] != "/index.xml"@[1]);
    assert("/robots.txt"@[1] != "/BingSiteAuth.xml"@[1]);
    assert("/robots.txt"@[1] != "/sitemap.xml"@[1]);
    assert("/robots.txt"@[1] != "/index.xml"@[1]);
    assert("/robots.txt"@[1] != "/api/v3/teV1"@[1]);
    assert("/images/favicon.ico"@[1] != "/BingSiteAuth.xml"@[1]);
    assert("/images/favicon.ico"@[1] != "/sitemap.xml"@[1]);
    assert("/images/favicon.ico"@.len() != "/index.xml"@.len());
    assert("/images/favicon.ico"@[1] != "/api/v3/teV1"@[1]);
    assert("/images/favicon.ico"@[1] != "/robots.txt"@[1]);
}

} // verus!
