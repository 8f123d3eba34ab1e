//! The blog's settings, read from the worker's variables.

use vstd::prelude::*;
use crate::json::{json_string_entries, parse_string_object};
use crate::strmap::{collected, law_distinct_entries_kept, Entries, StrMap};

verus! {

/// The entries of a settings map read from a variable's text: those of the JSON
/// object where the text is one with string values, and none otherwise. A missing
/// variable gives no entries, as the empty object `{}` does.
pub open spec fn settings_entries(var: Option<Seq<char>>) -> Entries {
    match var {
        None => Seq::empty(),
        Some(text) => match json_string_entries(text) {
            Some(es) => collected(es),
            None => Seq::empty(),
        },
    }
}

/// The settings map that the text of a variable holds (`PAGE_MAP`, `COMMENT_MAP`):
/// a JSON object from strings to strings. Anything else gives the empty map, and
/// so does a missing variable, which reads as the empty object `{}`.
pub fn var_to_map(var: Option<String>) -> (r: StrMap)
    ensures
        r@ == settings_entries(match var {
            Some(t) => Some(t@),
            None => None,
        }),
        var is None ==> r@.len() == 0,
        var matches Some(t) ==> (json_string_entries(t@) matches Some(es) ==> r@ == es),
        var matches Some(t) ==> (json_string_entries(t@) is None ==> r@.len() == 0),
{
    let parsed = match &var {
        Some(t) => parse_string_object(t.as_str()),
        None => return StrMap::new(),
    };
    proof {
        if let Some(es) = &parsed {
            law_distinct_entries_kept(es.deep_view());
        }
    }
    map_or_empty(parsed)
}

/// The map of the parsed entries, or the empty map where the text was not read.
pub fn map_or_empty(parsed: Option<Vec<(String, String)>>) -> (r: StrMap)
    ensures
        r@ == match parsed.deep_view() {
            Some(es) => collected(es),
            None => Seq::empty(),
        },
{
    match parsed {
        Some(es) => StrMap::from_entries(es),
        None => StrMap::new(),
    }
}

/// The blog's settings.
pub struct BlogEnv {
    /// Route to Notion page id (`PAGE_MAP`).
    pub page_map: StrMap,
    /// The giscus comment attributes (`COMMENT_MAP`).
    pub comment_map: StrMap,
    /// The blog's own domain (`MY_DOMAIN`).
    pub my_domain: String,
    /// The Notion site's domain (`NOTION_DOMAIN`).
    pub notion_domain: String,
    /// The site's title (`PAGE_TITLE`).
    pub title: String,
    /// The site's description (`PAGE_DESCRIPTION`).
    pub description: String,
    /// The site's icon URL (`ICON_URL`).
    pub icon: String,
    /// The body of the Notion collection query (`QUERY_BODY`).
    pub query_body: String,
}

impl BlogEnv {
    /// The settings from the values of the worker's variables; the two maps
    /// are read from the texts of `PAGE_MAP` and `COMMENT_MAP` where they are set.
    pub fn new(
        my_domain: String,
        notion_domain: String,
        title: String,
        description: String,
        icon: String,
        query_body: String,
        page_map_var: Option<String>,
        comment_map_var: Option<String>,
    ) -> (r: BlogEnv)
        ensures
            r.my_domain@ == my_domain@,
            r.notion_domain@ == notion_domain@,
            r.title@ == title@,
            r.description@ == description@,
            r.icon@ == icon@,
            r.query_body@ == query_body@,
            r.page_map@ == settings_entries(match page_map_var {
                Some(t) => Some(t@),
                None => None,
            }),
            r.comment_map@ == settings_entries(match comment_map_var {
                Some(t) => Some(t@),
                None => None,
            }),
            page_map_var is None ==> r.page_map@.len() == 0,
            comment_map_var is None ==> r.comment_map@.len() == 0,
    {
        let page_map = var_to_map(page_map_var);
        let comment_map = var_to_map(comment_map_var);
        BlogEnv {
            page_map,
            comment_map,
            my_domain,
            notion_domain,
            title,
            description,
            icon,
            query_body,
        }
    }
}

} // verus!
