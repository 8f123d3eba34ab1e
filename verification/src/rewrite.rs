//! The rewriting of the Notion pages that the blog serves: the page title, the
//! meta tags that name and describe the page, and the blog's own styles and
//! scripts. The HTML is read and written by `lol_html`.

use vstd::prelude::*;
use lol_html::html_content::{ContentType, Element};
use lol_html::{ElementContentHandlers, HtmlRewriter, Settings};
use std::borrow::Cow;
use crate::config::BlogEnv;
use crate::html::{BASE, HEAD, RESIZE, THEME};
use crate::json::json_object_text;
use crate::scripts::{comment_script, get_comment, history_script, slug_entries, update_history};
use crate::strmap::Entries;
use crate::text::{begins_with, join2, join3, same_text, starts_with};

verus! {

/// The document that `lol_html` writes when it reads `html` and sets the text
/// content of every element that `selector` matches to `text`; `None` where the
/// selector does not parse or the rewriter reports an error.
pub uninterp spec fn html_text_set(html: Seq<u8>, selector: Seq<char>, text: Seq<char>) -> Option<
    Seq<u8>,
>;

/// The document that `lol_html` writes when it reads `html` and gives every
/// element that `selector` matches the treatment that `meta_action` decides from
/// the values of its attributes `name_attr` and `property_attr` and the three
/// texts, a new content being written into the attribute `content_attr`; `None`
/// where the selector does not parse or the rewriter reports an error (an
/// invalid `content_attr` among them).
pub uninterp spec fn html_meta_edited(
    html: Seq<u8>,
    selector: Seq<char>,
    name_attr: Seq<char>,
    property_attr: Seq<char>,
    content_attr: Seq<char>,
    title: Seq<char>,
    site_url: Seq<char>,
    icon: Seq<char>,
) -> Option<Seq<u8>>;

/// The document that `lol_html` writes when it reads `html` and appends the HTML
/// `content` at the end of every element that `selector` matches; `None` where
/// the selector does not parse or the rewriter reports an error.
pub uninterp spec fn html_appended(html: Seq<u8>, selector: Seq<char>, content: Seq<char>) -> Option<
    Seq<u8>,
>;

/// The bytes of an optional document.
pub open spec fn doc_bytes(r: Option<Vec<u8>>) -> Option<Seq<u8>> {
    match r {
        Some(v) => Some(v@),
        None => None,
    }
}

/// What happens to one `meta` element.
pub enum MetaAction {
    /// It stays as it is.
    Keep,
    /// Its `content` attribute is set to the text.
    SetContent(String),
    /// It is removed from the page.
    Remove,
}

/// The text of an attribute, or the empty text where the element lacks it.
pub open spec fn attr_text(a: Option<String>) -> Seq<char> {
    match a {
        Some(s) => s@,
        None => Seq::empty(),
    }
}

/// The content that a meta element with this `name` takes, if any.
pub open spec fn name_content(
    name: Seq<char>,
    title: Seq<char>,
    site_url: Seq<char>,
    icon: Seq<char>,
) -> Option<Seq<char>> {
    if name == "description"@ || name == "twitter:title"@ || name == "twitter:site"@ || name
        == "twitter:description"@ {
        Some(title)
    } else if name == "twitter:url"@ {
        Some(site_url)
    } else if name == "twitter:image"@ {
        Some(icon)
    } else {
        None
    }
}

/// The content that a meta element with this `property` takes, if any.
pub open spec fn property_content(
    property: Seq<char>,
    title: Seq<char>,
    site_url: Seq<char>,
    icon: Seq<char>,
) -> Option<Seq<char>> {
    if property == "og:site_name"@ || property == "og:title"@ || property == "og:description"@ {
        Some(title)
    } else if property == "og:url"@ {
        Some(site_url)
    } else if property == "og:image"@ {
        Some(icon)
    } else {
        None
    }
}

/// The content a meta element ends with: the one its `property` calls for, or
/// else the one its `name` calls for.
pub open spec fn meta_content(
    name: Seq<char>,
    property: Seq<char>,
    title: Seq<char>,
    site_url: Seq<char>,
    icon: Seq<char>,
) -> Option<Seq<char>> {
    match property_content(property, title, site_url, icon) {
        Some(c) => Some(c),
        None => name_content(name, title, site_url, icon),
    }
}

/// The treatment of a `meta` element with the given `name` and `property`
/// attributes: the App Store banner is removed; the description, Twitter and
/// Open Graph tags are pointed at the blog's title, address and icon.
pub fn meta_action(
    name: Option<String>,
    property: Option<String>,
    title: &str,
    site_url: &str,
    icon: &str,
) -> (r: MetaAction)
    ensures
        attr_text(name) == "apple-itunes-app"@ ==> r is Remove,
        attr_text(name) != "apple-itunes-app"@ ==> match meta_content(
            attr_text(name),
            attr_text(property),
            title@,
            site_url@,
            icon@,
        ) {
            Some(c) => r matches MetaAction::SetContent(s) && s@ == c,
            None => r is Keep,
        },
        attr_text(name) != "apple-itunes-app"@ && (attr_text(property) == "og:site_name"@
            || attr_text(property) == "og:title"@ || attr_text(property) == "og:description"@)
            ==> (r matches MetaAction::SetContent(s) && s@ == title@),
        attr_text(name) != "apple-itunes-app"@ && attr_text(property) == "og:url"@
            ==> (r matches MetaAction::SetContent(s) && s@ == site_url@),
        attr_text(name) != "apple-itunes-app"@ && attr_text(property) == "og:image"@
            ==> (r matches MetaAction::SetContent(s) && s@ == icon@),
{
    proof {
        law_property_tags(attr_text(name), title@, site_url@, icon@);
    }
    let name = match name {
        Some(n) => n,
        None => String::new(),
    };
    let property = match property {
        Some(p) => p,
        None => String::new(),
    };
    let n = name.as_str();
    let p = property.as_str();
    if same_text(n, "apple-itunes-app") {
        return MetaAction::Remove;
    }
    if same_text(p, "og:site_name") || same_text(p, "og:title") || same_text(p, "og:description") {
        MetaAction::SetContent(title.to_owned())
    } else if same_text(p, "og:url") {
        MetaAction::SetContent(site_url.to_owned())
    } else if same_text(p, "og:image") {
        MetaAction::SetContent(icon.to_owned())
    } else if same_text(n, "description") || same_text(n, "twitter:title") || same_text(
        n,
        "twitter:site",
    ) || same_text(n, "twitter:description") {
        MetaAction::SetContent(title.to_owned())
    } else if same_text(n, "twitter:url") {
        MetaAction::SetContent(site_url.to_owned())
    } else if same_text(n, "twitter:image") {
        MetaAction::SetContent(icon.to_owned())
    } else {
        MetaAction::Keep
    }
}

/// Runs `lol_html` over `html` with one handler that sets the text content of
/// every element that `selector` matches to `text`.
/// Trusted: the result is `html_text_set` of the document, selector and text.
#[verifier::external_body]
fn set_text(html: &[u8], selector: &str, text: &str) -> (r: Option<Vec<u8>>)
    ensures
        doc_bytes(r) == html_text_set(html@, selector@, text@),
{
    let handlers = ElementContentHandlers::default().element(|el: &mut Element| {
        el.set_inner_content(text, ContentType::Text);
        Ok(())
    });
    let settings = Settings::new().append_element_content_handler((Cow::Owned(selector.parse().ok()?), handlers));
    let mut out: Vec<u8> = Vec::new();
    let mut rewriter = HtmlRewriter::new(settings, |c: &[u8]| out.extend_from_slice(c));
    rewriter.write(html).ok()?;
    rewriter.end().ok()?;
    Some(out)
}

/// Runs `lol_html` over `html` with one handler on the elements that `selector`
/// matches; it applies what `meta_action` decides from the element's attributes
/// `name_attr` and `property_attr`, a new content going into `content_attr`.
/// Trusted: the result is `html_meta_edited` of the document, the selector, the
/// three attribute names and the three texts.
#[verifier::external_body]
fn edit_meta(
    html: &[u8],
    selector: &str,
    name_attr: &str,
    property_attr: &str,
    content_attr: &str,
    title: &str,
    site_url: &str,
    icon: &str,
) -> (r: Option<Vec<u8>>)
    ensures
        doc_bytes(r) == html_meta_edited(
            html@,
            selector@,
            name_attr@,
            property_attr@,
            content_attr@,
            title@,
            site_url@,
            icon@,
        ),
{
    let handlers = ElementContentHandlers::default().element(|el: &mut Element| {
        match meta_action(el.get_attribute(name_attr), el.get_attribute(property_attr), title, site_url, icon) {
            MetaAction::Keep => {},
            MetaAction::SetContent(c) => el.set_attribute(content_attr, &c)?,
            MetaAction::Remove => el.remove(),
        }
        Ok(())
    });
    let settings = Settings::new().append_element_content_handler((Cow::Owned(selector.parse().ok()?), handlers));
    let mut out: Vec<u8> = Vec::new();
    let mut rewriter = HtmlRewriter::new(settings, |c: &[u8]| out.extend_from_slice(c));
    rewriter.write(html).ok()?;
    rewriter.end().ok()?;
    Some(out)
}

/// Runs `lol_html` over `html` with one handler that appends the HTML `content`
/// to every element that `selector` matches.
/// Trusted: the result is `html_appended` of the document, selector and content.
#[verifier::external_body]
fn append_html(html: &[u8], selector: &str, content: &str) -> (r: Option<Vec<u8>>)
    ensures
        doc_bytes(r) == html_appended(html@, selector@, content@),
{
    let handlers = ElementContentHandlers::default().element(|el: &mut Element| {
        el.append(content, ContentType::Html);
        Ok(())
    });
    let settings = Settings::new().append_element_content_handler((Cow::Owned(selector.parse().ok()?), handlers));
    let mut out: Vec<u8> = Vec::new();
    let mut rewriter = HtmlRewriter::new(settings, |c: &[u8]| out.extend_from_slice(c));
    rewriter.write(html).ok()?;
    rewriter.end().ok()?;
    Some(out)
}

/// The page's title in the meta tags: the Notion page's own title where it was
/// found, else the blog's description.
pub open spec fn shown_title(title: Option<Seq<char>>, description: Seq<char>) -> Seq<char> {
    match title {
        Some(t) => t,
        None => description,
    }
}

/// The page's icon in the meta tags: the Notion page's icon where it was found,
/// else the blog's icon; an icon under `/images/` is served from the blog's domain.
pub open spec fn shown_icon(icon: Option<Seq<char>>, default_icon: Seq<char>, my_domain: Seq<char>) -> Seq<
    char,
> {
    let i = match icon {
        Some(i) => i,
        None => default_icon,
    };
    if begins_with(i, "/images/"@) {
        "https://"@ + my_domain + i
    } else {
        i
    }
}

/// The blog's address.
pub open spec fn site_address(my_domain: Seq<char>) -> Seq<char> {
    "https://"@ + my_domain
}

/// What the blog appends to the body of a page: the footer, the history script,
/// the page trimming script, the theme switch and, where comments are set up,
/// the comment loader. The table of contents script (`TOC`), which would come
/// after the theme switch, has no text in this crate and is not appended; the
/// comment loader calls its `addTOC()` before it inserts the comments, so with
/// it missing the giscus comments are not inserted.
pub open spec fn body_appendix(page_map: Entries, comment_map: Entries) -> Seq<char> {
    BASE@ + history_script(json_object_text(page_map), json_object_text(slug_entries(page_map)))
        + RESIZE@ + THEME@ + if comment_map.len() == 0 {
        Seq::empty()
    } else {
        comment_script(comment_map)
    }
}

/// The page after the four rewriting passes, or `None` where one of them fails.
pub open spec fn rewritten_page(
    html: Seq<u8>,
    env: BlogEnv,
    title: Option<Seq<char>>,
    icon: Option<Seq<char>>,
) -> Option<Seq<u8>> {
    match html_text_set(html, "title"@, env.title@) {
        None => None,
        Some(h1) => match html_meta_edited(
            h1,
            "meta"@,
            "name"@,
            "property"@,
            "content"@,
            shown_title(title, env.description@),
            site_address(env.my_domain@),
            shown_icon(icon, env.icon@, env.my_domain@),
        ) {
            None => None,
            Some(h2) => match html_appended(h2, "head"@, HEAD@) {
                None => None,
                Some(h3) => html_appended(
                    h3,
                    "body"@,
                    body_appendix(env.page_map@, env.comment_map@),
                ),
            },
        },
    }
}

/// The blog's additions to the body of every page.
pub fn page_appendix(blog_env: &BlogEnv) -> (r: String)
    ensures
        r@ == body_appendix(blog_env.page_map@, blog_env.comment_map@),
{
    let history = update_history(&blog_env.page_map);
    let s = join3(BASE, history.as_str(), RESIZE);
    let s = join2(s.as_str(), THEME);
    if blog_env.comment_map.is_empty() {
        assert(s@ + Seq::<char>::empty() == s@);
        s
    } else {
        let comment = get_comment(&blog_env.comment_map);
        join2(s.as_str(), comment.as_str())
    }
}

/// Rewrites a Notion page for the blog: the `title` element takes the blog's
/// title; the description, Twitter and Open Graph meta tags take the page's
/// title (or the blog's description), the blog's address and the page's icon
/// (or the blog's icon); the App Store banner tag is dropped; the blog's style
/// goes at the end of `head` and its scripts at the end of `body`. The four
/// changes are made one after the other, each by one pass of `lol_html`.
/// `None` where `lol_html` reports an error.
pub fn rewriter(html: Vec<u8>, blog_env: BlogEnv, title: Option<String>, icon_url: Option<String>) -> (r:
    Option<Vec<u8>>)
    ensures
        doc_bytes(r) == rewritten_page(html@, blog_env, title.deep_view(), icon_url.deep_view()),
        title is None ==> doc_bytes(r) == rewritten_page(
            html@,
            blog_env,
            Some(blog_env.description@),
            icon_url.deep_view(),
        ),
        icon_url is None ==> doc_bytes(r) == rewritten_page(
            html@,
            blog_env,
            title.deep_view(),
            Some(blog_env.icon@),
        ),
{
    proof {
        law_rewriter_fallbacks(html@, blog_env, title.deep_view(), icon_url.deep_view());
    }
    let shown = match &title {
        Some(t) => t.clone(),
        None => blog_env.description.clone(),
    };
    let icon = match &icon_url {
        Some(i) => i.clone(),
        None => blog_env.icon.clone(),
    };
    let icon = if starts_with(icon.as_str(), "/images/") {
        join3("https://", blog_env.my_domain.as_str(), icon.as_str())
    } else {
        icon
    };
    let site_url = join2("https://", blog_env.my_domain.as_str());
    let h1 = set_text(html.as_slice(), "title", blog_env.title.as_str())?;
    let h2 = edit_meta(
        h1.as_slice(),
        "meta",
        "name",
        "property",
        "content",
        shown.as_str(),
        site_url.as_str(),
        icon.as_str(),
    )?;
    let h3 = append_html(h2.as_slice(), "head", HEAD)?;
    let appendix = page_appendix(&blog_env);
    append_html(h3.as_slice(), "body", appendix.as_str())
}

/// Without a page title the meta tags carry the blog's description, as if the
/// description were the page's title; without a page icon they carry the blog's
/// icon, as if it were the page's icon.
pub proof fn law_rewriter_fallbacks(
    html: Seq<u8>,
    env: BlogEnv,
    title: Option<Seq<char>>,
    icon: Option<Seq<char>>,
)
    ensures
        rewritten_page(html, env, None, icon) == rewritten_page(
            html,
            env,
            Some(env.description@),
            icon,
        ),
        rewritten_page(html, env, title, None) == rewritten_page(html, env, title, Some(env.icon@)),
{
}

/// An icon under `/images/` is served from the blog's domain: the page comes out
/// as if its icon had been given with the blog's address in front; and the icon
/// the meta tags carry is never left as a path under `/images/`.
pub proof fn law_icon_on_blog_domain(
    html: Seq<u8>,
    env: BlogEnv,
    title: Option<Seq<char>>,
    icon: Option<Seq<char>>,
    i: Seq<char>,
)
    requires
        begins_with(i, "/images/"@),
    ensures
        rewritten_page(html, env, title, Some(i)) == rewritten_page(
            html,
            env,
            title,
            Some(site_address(env.my_domain@) + i),
        ),
        !begins_with(shown_icon(icon, env.icon@, env.my_domain@), "/images/"@),
{
    reveal_strlit("/images/");
    reveal_strlit("https://");
    let a = site_address(env.my_domain@) + i;
    assert(a[0] == 'h');
    assert(a.subrange(0, 8)[0] == a[0]);
    let j = match icon {
        Some(j) => j,
        None => env.icon@,
    };
    let b = "https://"@ + env.my_domain@ + j;
    assert(b[0] == 'h');
    assert(b.subrange(0, 8)[0] == b[0]);
}

/// A page's own title decides the meta tags alone: the blog's description then
/// plays no part, whatever it is.
pub proof fn law_page_title_wins(
    html: Seq<u8>,
    env1: BlogEnv,
    env2: BlogEnv,
    title: Seq<char>,
    icon: Option<Seq<char>>,
)
    requires
        env1.title@ == env2.title@,
        env1.my_domain@ == env2.my_domain@,
        env1.icon@ == env2.icon@,
        env1.page_map@ == env2.page_map@,
        env1.comment_map@ == env2.comment_map@,
    ensures
        rewritten_page(html, env1, Some(title), icon) == rewritten_page(html, env2, Some(title), icon),
{
}

/// The meta tags that take the page's title, address and icon, by `property`:
/// `og:site_name`, `og:title` and `og:description` take the title, `og:url` the
/// blog's address and `og:image` the icon, whatever the `name`.
pub proof fn law_property_tags(name: Seq<char>, t: Seq<char>, u: Seq<char>, i: Seq<char>)
    ensures
        meta_content(name, "og:site_name"@, t, u, i) == Some(t),
        meta_content(name, "og:title"@, t, u, i) == Some(t),
        meta_content(name, "og:description"@, t, u, i) == Some(t),
        meta_content(name, "og:url"@, t, u, i) == Some(u),
        meta_content(name, "og:image"@, t, u, i) == Some(i),
{
    reveal_strlit("og:site_name");
    reveal_strlit("og:title");
    reveal_strlit("og:description");
    reveal_strlit("og:url");
    reveal_strlit("og:image");
    assert("og:url"@[3] != "og:site_name"@[3]);
    assert("og:url"@[3] != "og:title"@[3]);
    assert("og:url"@[3] != "og:description"@[3]);
    assert("og:image"@[3] != "og:site_name"@[3]);
    assert("og:image"@[3] != "og:title"@[3]);
    assert("og:image"@[3] != "og:description"@[3]);
    assert("og:image"@[3] != "og:url"@[3]);
}

/// The meta tags that take the page's title, address and icon, by `name`, where
/// the `property` is none of the five Open Graph tags: `description`,
/// `twitter:title`, `twitter:site` and `twitter:description` take the title,
/// `twitter:url` the blog's address and `twitter:image` the icon; any other
/// tag keeps its content.
pub proof fn law_name_tags(name: Seq<char>, property: Seq<char>, t: Seq<char>, u: Seq<char>, i: Seq<char>)
    requires
        property != "og:site_name"@,
        property != "og:title"@,
        property != "og:description"@,
        property != "og:url"@,
        property != "og:image"@,
    ensures
        name == "description"@ ==> meta_content(name, property, t, u, i) == Some(t),
        name == "twitter:title"@ ==> meta_content(name, property, t, u, i) == Some(t),
        name == "twitter:site"@ ==> meta_content(name, property, t, u, i) == Some(t),
        name == "twitter:description"@ ==> meta_content(name, property, t, u, i) == Some(t),
        name == "twitter:url"@ ==> meta_content(name, property, t, u, i) == Some(u),
        name == "twitter:image"@ ==> meta_content(name, property, t, u, i) == Some(i),
        name != "description"@ && name != "twitter:title"@ && name != "twitter:site"@ && name
            != "twitter:description"@ && name != "twitter:url"@ && name != "twitter:image"@
            ==> meta_content(name, property, t, u, i) is None,
{
    reveal_strlit("description");
    reveal_strlit("twitter:title");
    reveal_strlit("twitter:site");
    reveal_strlit("twitter:description");
    reveal_strlit("twitter:url");
    reveal_strlit("twitter:image");
    assert("twitter:url"@[0] != "description"@[0]);
    assert("twitter:url"@[8] != "twitter:title"@[8]);
    assert("twitter:url"@[8] != "twitter:site"@[8]);
    assert("twitter:url"@[8] != "twitter:description"@[8]);
    assert("twitter:image"@[0] != "description"@[0]);
    assert("twitter:image"@[8] != "twitter:title"@[8]);
    assert("twitter:image"@[8] != "twitter:site"@[8]);
    assert("twitter:image"@[8] != "twitter:description"@[8]);
    assert("twitter:image"@[8] != "twitter:url"@[8]);
}

} // verus!
