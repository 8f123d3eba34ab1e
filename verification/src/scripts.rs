//! The scripts that the blog adds to every page: the history rewriting that
//! shows routes in place of page ids, and the giscus comment loader.

use vstd::prelude::*;
use crate::json::{json_object, json_object_text};
use crate::strmap::{collected, lookup, swapped, Entries, StrMap};
use crate::text::{
    begins_with, has_part, lacks, lemma_lacking_part, lemma_replaced_keeps, lemma_replaced_site, occurs_at,
    replace, replaced,
};

verus! {

/// The history script before the two maps are written into it.
pub const HISTORY_TEMPLATE: &'static str = r#"
      <script>
      const SLUG_TO_PAGE = slug_map_str;
      const PAGE_TO_SLUG = page_map_str;
      function update_history() {
        if (PAGE_TO_SLUG[location.pathname]){
          return;
        }
        if (SLUG_TO_PAGE[location.pathname.slice(-32)]){
          history.replaceState(history.state, '', SLUG_TO_PAGE[location.pathname.slice(-32)]);
        } else{
          let path_name = location.pathname.split("/");
          history.replaceState(history.state, '', "/"+ path_name[path_name.length-1]);
        }
      };
      update_history();
    </script>"#;

/// The comment loader before its settings are written into it.
pub const COMMENT_TEMPLATE: &'static str = r#"
    <script>
      let page_location = new URL(window.location.toString());
      let giscus_session = page_location.searchParams.get("giscus");
      if (giscus_session!==null){
        giscus_session = '"'+giscus_session+'"'
        localStorage.setItem("giscus-session",giscus_session);
      }
      function addComment() {
          let my_giscus = document.getElementById('giscus');
          waitForElementToExist('.notion-table_of_contents-block').then((el)=>{
          addTOC();
          if (my_giscus!==null)return;
          let comment = document.createElement('script');
              comment.id = "giscus";
              comment.setAttribute("src","https://giscus.app/client.js");
              comment.setAttribute("data-repo","DATA_REPO");
              comment.setAttribute("data-repo-id","DATA_REPO_ID");
              comment.setAttribute("data-category","Announcements");
              comment.setAttribute("data-category-id","DATA_CATEGORY_ID");
              comment.setAttribute("data-mapping","DATA_MAPPING");
              comment.setAttribute("data-strict","0");
              comment.setAttribute("data-reactions-enabled","1");
              comment.setAttribute("data-emit-metadata","0");
              comment.setAttribute("data-input-position","DATA_INPUT_POSITION");
              comment.setAttribute("data-theme","DATA_THEME");
              comment.setAttribute("data-lang","DATA_LANG");
              comment.setAttribute("data-loading","lazy");
              comment.setAttribute("crossorigin","anonymous");
              const content = document.querySelector('.notion-page-content');
              content.append(comment);
          });
      }
      waitForElementToExist('.shadow-cursor-breadcrumb').then((el)=>{
          const breadcrumb = new MutationObserver(function(mutationsList, observer) {
            console.log(mutationsList)
            addComment();
          });
          breadcrumb.observe(document.querySelector('.shadow-cursor-breadcrumb'), {
            childList: true,
            subtree: true,
          });
      });
      waitForElementToExist('.notion-page-content').then((el)=>{
        addComment();
      });
    </script>"#;

/// The history script for the given JSON texts of the route-to-page map and of
/// the page-to-route map.
pub open spec fn history_script(page_json: Seq<char>, slug_json: Seq<char>) -> Seq<char> {
    replaced(replaced(HISTORY_TEMPLATE@, "slug_map_str"@, slug_json), "page_map_str"@, page_json)
}

/// The page-to-route map of a route-to-page map: each page id leads to the last
/// route that names it.
pub open spec fn slug_entries(page_map: Entries) -> Entries {
    collected(swapped(page_map))
}

/// Each entry of `es` with its key and value exchanged.
pub fn swap_entries(es: &Vec<(String, String)>) -> (r: Vec<(String, String)>)
    ensures
        r.deep_view() == swapped(es.deep_view()),
{
    let mut out: Vec<(String, String)> = Vec::new();
    let n = es.len();
    for i in 0..n
        invariant
            n == es@.len(),
            out.deep_view() =~= swapped(es.deep_view()).take(i as int),
    {
        let k = es[i].0.clone();
        let v = es[i].1.clone();
        let ghost before = out.deep_view();
        out.push((v, k));
        proof {
            let sw = swapped(es.deep_view());
            assert(sw[i as int] == (es.deep_view()[i as int].1, es.deep_view()[i as int].0));
            assert(out.deep_view() =~= before.push(sw[i as int]));
            assert(sw.take(i + 1) =~= sw.take(i as int).push(sw[i as int]));
        }
    }
    assert(swapped(es.deep_view()).take(n as int) =~= swapped(es.deep_view()));
    out
}

/// The script that keeps the address bar on the blog's routes: it holds the
/// route-to-page map and its inverse as JSON objects.
pub fn update_history(page_map: &StrMap) -> (r: String)
    ensures
        r@ == history_script(
            json_object_text(page_map@),
            json_object_text(slug_entries(page_map@)),
        ),
{
    let entries = page_map.entries();
    let page_map_str = json_object(entries);
    let slug_map = StrMap::from_entries(swap_entries(entries));
    let slug_map_str = json_object(slug_map.entries());
    history_from_json(page_map_str.as_str(), slug_map_str.as_str())
}

/// The history script holding the two maps' JSON texts.
pub fn history_from_json(page_map_json: &str, slug_map_json: &str) -> (r: String)
    ensures
        r@ == history_script(page_map_json@, slug_map_json@),
{
    let with_slugs = replace(HISTORY_TEMPLATE, "slug_map_str", slug_map_json);
    replace(with_slugs.as_str(), "page_map_str", page_map_json)
}

/// The value of `key` in `m`, or `default` where `m` has no such key.
pub open spec fn value_or(m: Entries, key: Seq<char>, default: Seq<char>) -> Seq<char> {
    match lookup(m, key) {
        Some(v) => v,
        None => default,
    }
}

/// The comment loader with its settings written in, in the order in which the
/// placeholders are replaced.
pub open spec fn comment_script(m: Entries) -> Seq<char> {
    let s0 = COMMENT_TEMPLATE@;
    let s1 = replaced(s0, "DATA_REPO_ID"@, value_or(m, "data-repo-id"@, "R_kgDOI1wUgQ"@));
    let s2 = replaced(s1, "DATA_REPO"@, value_or(m, "data-repo"@, "cn-kali-team/notion-blog"@));
    let s3 = replaced(s2, "DATA_CATEGORY_ID"@, value_or(m, "data-category-id"@, "DIC_kwDOI1wUgc4CZK9O"@));
    let s4 = replaced(s3, "DATA_MAPPING"@, value_or(m, "data-mapping"@, "title"@));
    let s5 = replaced(s4, "DATA_INPUT_POSITION"@, value_or(m, "data-input-position"@, "top"@));
    let s6 = replaced(s5, "DATA_THEME"@, value_or(m, "data-theme"@, "preferred_color_scheme"@));
    replaced(s6, "DATA_LANG"@, value_or(m, "data-lang"@, "zh-CN"@))
}

/// The line of the comment loader that sets the script's attribute `key` to `value`.
pub open spec fn attribute_line(key: Seq<char>, value: Seq<char>) -> Seq<char> {
    "comment.setAttribute(\""@ + key + "\",\""@ + value + "\");"@
}

/// The comment settings, in the order in which the loader writes them in.
pub open spec fn comment_keys() -> Seq<Seq<char>> {
    seq![
        "data-repo-id"@,
        "data-repo"@,
        "data-category-id"@,
        "data-mapping"@,
        "data-input-position"@,
        "data-theme"@,
        "data-lang"@,
    ]
}

/// The value that each comment setting takes where the settings lack it.
pub open spec fn comment_defaults() -> Seq<Seq<char>> {
    seq![
        "R_kgDOI1wUgQ"@,
        "cn-kali-team/notion-blog"@,
        "DIC_kwDOI1wUgc4CZK9O"@,
        "title"@,
        "top"@,
        "preferred_color_scheme"@,
        "zh-CN"@,
    ]
}

/// The placeholder in the loader's template that each comment setting replaces.
spec fn comment_marks() -> Seq<Seq<char>> {
    seq![
        "DATA_REPO_ID"@,
        "DATA_REPO"@,
        "DATA_CATEGORY_ID"@,
        "DATA_MAPPING"@,
        "DATA_INPUT_POSITION"@,
        "DATA_THEME"@,
        "DATA_LANG"@,
    ]
}

/// A placeholder: it begins with `DATA_` and holds no quote, `c` or `;`.
spec fn mark_shape(p: Seq<char>) -> bool {
    &&& begins_with(p, "DATA_"@)
    &&& p.len() > 0
    &&& p[0] == 'D'
    &&& lacks(p, '"')
    &&& lacks(p, 'c')
    &&& lacks(p, ';')
}

/// The first part of an attribute line, up to its value.
spec fn line_head(key: Seq<char>) -> Seq<char> {
    "comment.setAttribute(\""@ + key + "\",\""@
}

/// An attribute line is its head, its value and its closing `");`.
proof fn lemma_line_parts(key: Seq<char>, value: Seq<char>)
    requires
        lacks(key, 'D'),
    ensures
        attribute_line(key, value) == line_head(key) + value + "\");"@,
        lacks(line_head(key), 'D'),
        line_head(key).len() > 0,
        line_head(key)[0] == 'c',
        line_head(key).last() == '"',
        lacks("\");"@, 'D'),
        "\");"@.len() == 3,
        "\");"@[0] == '"',
        "\");"@.last() == ';',
{
    reveal_strlit("comment.setAttribute(\"");
    reveal_strlit("\",\"");
    reveal_strlit("\");");
    let h = line_head(key);
    let a = "comment.setAttribute(\""@;
    let b = "\",\""@;
    assert forall|i: int| 0 <= i < h.len() implies h[i] != 'D' by {
        if i < a.len() {
            assert(h[i] == a[i]);
        } else if i < a.len() + key.len() {
            assert(h[i] == key[i - a.len()]);
        } else {
            assert(h[i] == b[i - a.len() - key.len()]);
        }
    }
}

/// A placeholder that a value does not hold does not occur in its attribute line.
proof fn lemma_line_lacks_mark(key: Seq<char>, value: Seq<char>, p: Seq<char>)
    requires
        lacks(key, 'D'),
        mark_shape(p),
        !has_part(value, p),
    ensures
        !has_part(attribute_line(key, value), p),
{
    reveal_strlit("DATA_");
    lemma_line_parts(key, value);
    let h = line_head(key);
    let t = "\");"@;
    let w = attribute_line(key, value);
    let e: int = (h.len() + value.len()) as int;
    assert forall|i: int| !occurs_at(w, i, p) by {
        if occurs_at(w, i, p) {
            assert(w.subrange(i, i + p.len())[0] == p[0]);
            assert(w[i] == 'D');
            if i < h.len() {
                assert(w[i] == h[i]);
            } else if i >= e {
                assert(w[i] == t[i - e]);
            } else if i + p.len() > e {
                assert(w.subrange(i, i + p.len())[e - i] == p[e - i]);
                assert(w[e] == t[0]);
            } else {
                assert(value.subrange(i - h.len(), i - h.len() + p.len()) =~= w.subrange(i, i + p.len()));
                assert(occurs_at(value, i - h.len(), p));
            }
        }
    }
}

/// An attribute line whose value holds no placeholder `p` comes through the
/// replacement of `p`.
proof fn lemma_line_kept(s: Seq<char>, key: Seq<char>, value: Seq<char>, p: Seq<char>, r: Seq<char>)
    requires
        has_part(s, attribute_line(key, value)),
        lacks(key, 'D'),
        mark_shape(p),
        !has_part(value, p),
    ensures
        has_part(replaced(s, p, r), attribute_line(key, value)),
{
    lemma_line_parts(key, value);
    lemma_line_lacks_mark(key, value, p);
    let w = attribute_line(key, value);
    let i = choose|i: int| occurs_at(s, i, w);
    let a = s.take(i);
    let b = s.skip(i + w.len());
    assert(s =~= a + w + b);
    assert(w[0] == 'c');
    lemma_replaced_keeps(a, w, b, p, r);
    let ra = replaced(a, p, r);
    let out = ra + w + replaced(b, p, r);
    assert(out.subrange(ra.len() as int, ra.len() + w.len() as int) =~= w);
    assert(occurs_at(out, ra.len() as int, w));
}

/// Replacing the placeholder `p` in its attribute line writes `r` in as the value.
proof fn lemma_line_filled(s: Seq<char>, key: Seq<char>, p: Seq<char>, r: Seq<char>)
    requires
        has_part(s, attribute_line(key, p)),
        lacks(key, 'D'),
        mark_shape(p),
    ensures
        has_part(replaced(s, p, r), attribute_line(key, r)),
{
    lemma_line_parts(key, p);
    lemma_line_parts(key, r);
    let h = line_head(key);
    let t = "\");"@;
    let w = attribute_line(key, p);
    let i = choose|i: int| occurs_at(s, i, w);
    let a = s.take(i);
    let b = s.skip(i + w.len());
    assert(s =~= a + w + b);
    assert(w == h + p + t);
    assert(s =~= (a + h) + p + (t + b));
    assert((a + h).last() == h.last());
    lemma_replaced_site(a + h, t + b, p, r);
    let e = Seq::<char>::empty();
    lemma_lacking_part(h, p, 0);
    lemma_lacking_part(t, p, 0);
    assert(a + h =~= a + h + e);
    lemma_replaced_keeps(a, h, e, p, r);
    assert(t + b =~= e + t + b);
    lemma_replaced_keeps(e, t, b, p, r);
    assert(replaced(e, p, r) == e);
    let ra = replaced(a, p, r);
    let out = replaced(s, p, r);
    assert(out =~= ra + (h + r + t) + replaced(b, p, r));
    assert(out.subrange(ra.len() as int, ra.len() + (h + r + t).len() as int) =~= h + r + t);
    assert(occurs_at(out, ra.len() as int, attribute_line(key, r)));
}

/// The loader after its first `n` settings are written in.
spec fn comment_filled(m: Entries, n: nat) -> Seq<char>
    decreases n,
{
    if n == 0 {
        COMMENT_TEMPLATE@
    } else {
        let k = n - 1;
        replaced(
            comment_filled(m, k as nat),
            comment_marks()[k],
            value_or(m, comment_keys()[k], comment_defaults()[k]),
        )
    }
}

/// The loader is the template with all its settings written in.
proof fn lemma_comment_filled(m: Entries)
    ensures
        comment_script(m) == comment_filled(m, 7),
{
    reveal_with_fuel(comment_filled, 8);
}

/// What the settings' names, defaults and placeholders are like.
proof fn lemma_comment_marks(j: int)
    requires
        0 <= j < 7,
    ensures
        mark_shape(comment_marks()[j]),
        lacks(comment_keys()[j], 'D'),
        !has_part(comment_defaults()[j], "DATA_"@),
        forall|i: int| 0 <= i < j ==> !has_part(comment_marks()[j], #[trigger] comment_marks()[i]),
{
    reveal_strlit("DATA_");
    reveal_strlit("DATA_REPO_ID");
    reveal_strlit("DATA_REPO");
    reveal_strlit("DATA_CATEGORY_ID");
    reveal_strlit("DATA_MAPPING");
    reveal_strlit("DATA_INPUT_POSITION");
    reveal_strlit("DATA_THEME");
    reveal_strlit("DATA_LANG");
    reveal_strlit("data-repo-id");
    reveal_strlit("data-repo");
    reveal_strlit("data-category-id");
    reveal_strlit("data-mapping");
    reveal_strlit("data-input-position");
    reveal_strlit("data-theme");
    reveal_strlit("data-lang");
    reveal_strlit("R_kgDOI1wUgQ");
    reveal_strlit("cn-kali-team/notion-blog");
    reveal_strlit("DIC_kwDOI1wUgc4CZK9O");
    reveal_strlit("title");
    reveal_strlit("top");
    reveal_strlit("preferred_color_scheme");
    reveal_strlit("zh-CN");
    let marks = comment_marks();
    let p = marks[j];
    assert(p.subrange(0, 5) =~= "DATA_"@);
    lemma_lacking_part(comment_defaults()[j], "DATA_"@, 2);
    assert forall|i: int| 0 <= i < j implies !has_part(p, #[trigger] marks[i]) by {
        if j == 1 {
            assert(p.len() < marks[i].len());
        } else if j == 2 {
            lemma_lacking_part(p, marks[i], 7);
        } else if j == 5 && i == 3 {
            lemma_lacking_part(p, marks[i], 7);
        } else if j == 6 && i == 5 {
            lemma_lacking_part(p, marks[i], 6);
        } else {
            lemma_lacking_part(p, marks[i], 5);
        }
    }
}

/// Each setting's attribute line stands in the template, holding its placeholder.
proof fn lemma_template_lines(j: int)
    requires
        0 <= j < 7,
    ensures
        has_part(COMMENT_TEMPLATE@, attribute_line(comment_keys()[j], comment_marks()[j])),
{
    reveal_strlit(r#"
    <script>
      let page_location = new URL(window.location.toString());
      let giscus_session = page_location.searchParams.get("giscus");
      if (giscus_session!==null){
        giscus_session = '"'+giscus_session+'"'
        localStorage.setItem("giscus-session",giscus_session);
      }
      function addComment() {
          let my_giscus = document.getElementById('giscus');
          waitForElementToExist('.notion-table_of_contents-block').then((el)=>{
          addTOC();
          if (my_giscus!==null)return;
          let comment = document.createElement('script');
              comment.id = "giscus";
              comment.setAttribute("src","https://giscus.app/client.js");
              comment.setAttribute("data-repo","DATA_REPO");
              comment.setAttribute("data-repo-id","DATA_REPO_ID");
              comment.setAttribute("data-category","Announcements");
              comment.setAttribute("data-category-id","DATA_CATEGORY_ID");
              comment.setAttribute("data-mapping","DATA_MAPPING");
              comment.setAttribute("data-strict","0");
              comment.setAttribute("data-reactions-enabled","1");
              comment.setAttribute("data-emit-metadata","0");
              comment.setAttribute("data-input-position","DATA_INPUT_POSITION");
              comment.setAttribute("data-theme","DATA_THEME");
              comment.setAttribute("data-lang","DATA_LANG");
              comment.setAttribute("data-loading","lazy");
              comment.setAttribute("crossorigin","anonymous");
              const content = document.querySelector('.notion-page-content');
              content.append(comment);
          });
      }
      waitForElementToExist('.shadow-cursor-breadcrumb').then((el)=>{
          const breadcrumb = new MutationObserver(function(mutationsList, observer) {
            console.log(mutationsList)
            addComment();
          });
          breadcrumb.observe(document.querySelector('.shadow-cursor-breadcrumb'), {
            childList: true,
            subtree: true,
          });
      });
      waitForElementToExist('.notion-page-content').then((el)=>{
        addComment();
      });
    </script>"#);
    assert(COMMENT_TEMPLATE@ == (r#"
    <script>
      let page_location = new URL(window.location.toString());
      let giscus_session = page_location.searchParams.get("giscus");
      if (giscus_session!==null){
        giscus_session = '"'+giscus_session+'"'
        localStorage.setItem("giscus-session",giscus_session);
      }
      function addComment() {
          let my_giscus = document.getElementById('giscus');
          waitForElementToExist('.notion-table_of_contents-block').then((el)=>{
          addTOC();
          if (my_giscus!==null)return;
          let comment = document.createElement('script');
              comment.id = "giscus";
              comment.setAttribute("src","https://giscus.app/client.js");
              comment.setAttribute("data-repo","DATA_REPO");
              comment.setAttribute("data-repo-id","DATA_REPO_ID");
              comment.setAttribute("data-category","Announcements");
              comment.setAttribute("data-category-id","DATA_CATEGORY_ID");
              comment.setAttribute("data-mapping","DATA_MAPPING");
              comment.setAttribute("data-strict","0");
              comment.setAttribute("data-reactions-enabled","1");
              comment.setAttribute("data-emit-metadata","0");
              comment.setAttribute("data-input-position","DATA_INPUT_POSITION");
              comment.setAttribute("data-theme","DATA_THEME");
              comment.setAttribute("data-lang","DATA_LANG");
              comment.setAttribute("data-loading","lazy");
              comment.setAttribute("crossorigin","anonymous");
              const content = document.querySelector('.notion-page-content');
              content.append(comment);
          });
      }
      waitForElementToExist('.shadow-cursor-breadcrumb').then((el)=>{
          const breadcrumb = new MutationObserver(function(mutationsList, observer) {
            console.log(mutationsList)
            addComment();
          });
          breadcrumb.observe(document.querySelector('.shadow-cursor-breadcrumb'), {
            childList: true,
            subtree: true,
          });
      });
      waitForElementToExist('.notion-page-content').then((el)=>{
        addComment();
      });
    </script>"#)@);
    reveal_strlit("comment.setAttribute(\"");
    reveal_strlit("\",\"");
    reveal_strlit("\");");
    reveal_strlit("DATA_REPO_ID");
    reveal_strlit("DATA_REPO");
    reveal_strlit("DATA_CATEGORY_ID");
    reveal_strlit("DATA_MAPPING");
    reveal_strlit("DATA_INPUT_POSITION");
    reveal_strlit("DATA_THEME");
    reveal_strlit("DATA_LANG");
    reveal_strlit("data-repo-id");
    reveal_strlit("data-repo");
    reveal_strlit("data-category-id");
    reveal_strlit("data-mapping");
    reveal_strlit("data-input-position");
    reveal_strlit("data-theme");
    reveal_strlit("data-lang");
    let w = attribute_line(comment_keys()[j], comment_marks()[j]);
    let at: int = if j == 0 {
        773
    } else if j == 1 {
        712
    } else if j == 2 {
        909
    } else if j == 3 {
        984
    } else if j == 4 {
        1234
    } else if j == 5 {
        1315
    } else {
        1378
    };
    assert(COMMENT_TEMPLATE@.subrange(at, at + w.len()) =~= w);
    assert(occurs_at(COMMENT_TEMPLATE@, at, w));
}

/// A text without `DATA_` holds no placeholder.
proof fn lemma_no_mark(v: Seq<char>, p: Seq<char>)
    requires
        !has_part(v, "DATA_"@),
        begins_with(p, "DATA_"@),
    ensures
        !has_part(v, p),
{
    reveal_strlit("DATA_");
    assert forall|i: int| !occurs_at(v, i, p) by {
        if occurs_at(v, i, p) {
            assert(v.subrange(i, i + 5) =~= p.subrange(0, 5));
            assert(occurs_at(v, i, "DATA_"@));
        }
    }
}

/// A setting's placeholder line stands until that setting is written in.
proof fn lemma_mark_stays(m: Entries, j: int, n: nat)
    requires
        n <= j < 7,
    ensures
        has_part(comment_filled(m, n), attribute_line(comment_keys()[j], comment_marks()[j])),
    decreases n,
{
    lemma_comment_marks(j);
    if n == 0 {
        lemma_template_lines(j);
    } else {
        let k = n - 1;
        lemma_mark_stays(m, j, k as nat);
        lemma_comment_marks(k);
        assert(!has_part(comment_marks()[j], comment_marks()[k]));
        lemma_line_kept(
            comment_filled(m, k as nat),
            comment_keys()[j],
            comment_marks()[j],
            comment_marks()[k],
            value_or(m, comment_keys()[k], comment_defaults()[k]),
        );
    }
}

/// Once a setting is written in, its line stays, where its value holds no placeholder.
proof fn lemma_value_stays(m: Entries, j: int, n: nat)
    requires
        0 <= j < n <= 7,
        !has_part(value_or(m, comment_keys()[j], comment_defaults()[j]), "DATA_"@),
    ensures
        has_part(
            comment_filled(m, n),
            attribute_line(comment_keys()[j], value_or(m, comment_keys()[j], comment_defaults()[j])),
        ),
    decreases n,
{
    lemma_comment_marks(j);
    let v = value_or(m, comment_keys()[j], comment_defaults()[j]);
    let k = n - 1;
    if k == j {
        lemma_mark_stays(m, j, k as nat);
        lemma_line_filled(comment_filled(m, k as nat), comment_keys()[j], comment_marks()[j], v);
    } else {
        lemma_value_stays(m, j, k as nat);
        lemma_comment_marks(k);
        lemma_no_mark(v, comment_marks()[k]);
        lemma_line_kept(
            comment_filled(m, k as nat),
            comment_keys()[j],
            v,
            comment_marks()[k],
            value_or(m, comment_keys()[k], comment_defaults()[k]),
        );
    }
}

/// Every comment setting reaches the loader: the script sets the giscus
/// attribute of that name to the configured value, or to the blog's default
/// where the settings lack it. A configured value that holds `DATA_` is left
/// out: a placeholder in it would be written over by a later setting.
pub proof fn law_comment_settings_reach_loader(m: Entries, j: int)
    requires
        0 <= j < comment_keys().len(),
        lookup(m, comment_keys()[j]) matches Some(v) ==> !has_part(v, "DATA_"@),
    ensures
        lookup(m, comment_keys()[j]) matches Some(v) ==> has_part(
            comment_script(m),
            attribute_line(comment_keys()[j], v),
        ),
        lookup(m, comment_keys()[j]) is None ==> has_part(
            comment_script(m),
            attribute_line(comment_keys()[j], comment_defaults()[j]),
        ),
{
    lemma_comment_marks(j);
    lemma_comment_filled(m);
    lemma_value_stays(m, j, 7);
}

/// Each of the seven comment settings in `m` is missing or holds its default
/// (as the README's example settings do).
pub open spec fn default_comment_settings(m: Entries) -> bool {
    &&& value_or(m, "data-repo-id"@, "R_kgDOI1wUgQ"@) == "R_kgDOI1wUgQ"@
    &&& value_or(m, "data-repo"@, "cn-kali-team/notion-blog"@) == "cn-kali-team/notion-blog"@
    &&& value_or(m, "data-category-id"@, "DIC_kwDOI1wUgc4CZK9O"@) == "DIC_kwDOI1wUgc4CZK9O"@
    &&& value_or(m, "data-mapping"@, "title"@) == "title"@
    &&& value_or(m, "data-input-position"@, "top"@) == "top"@
    &&& value_or(m, "data-theme"@, "preferred_color_scheme"@) == "preferred_color_scheme"@
    &&& value_or(m, "data-lang"@, "zh-CN"@) == "zh-CN"@
}

/// Comment settings that hold only the defaults (the README's example among
/// them) give the same loader as no settings at all.
pub proof fn law_default_comment_settings(m: Entries)
    requires
        default_comment_settings(m),
    ensures
        comment_script(m) == comment_script(Seq::empty()),
{
}

/// The README's example comment settings hold only the defaults.
pub proof fn law_readme_comment_settings(m: Entries)
    requires
        lookup(m, "data-repo"@) == Some("cn-kali-team/notion-blog"@),
        lookup(m, "data-repo-id"@) == Some("R_kgDOI1wUgQ"@),
        lookup(m, "data-category-id"@) == Some("DIC_kwDOI1wUgc4CZK9O"@),
        lookup(m, "data-mapping"@) == Some("title"@),
        lookup(m, "data-input-position"@) == Some("top"@),
        lookup(m, "data-theme"@) == Some("preferred_color_scheme"@),
        lookup(m, "data-lang"@) == Some("zh-CN"@),
    ensures
        default_comment_settings(m),
        comment_script(m) == comment_script(Seq::empty()),
{
    law_default_comment_settings(m);
}

/// The value of `key` in `m`, or `default`.
pub fn setting<'a>(m: &'a StrMap, key: &str, default: &'a str) -> (r: &'a str)
    ensures
        r@ == value_or(m@, key@, default@),
{
    match m.get(key) {
        Some(v) => v.as_str(),
        None => default,
    }
}

/// The giscus comment loader, configured from the comment settings; each setting
/// that is missing takes the blog's default.
pub fn get_comment(comment_map: &StrMap) -> (r: String)
    ensures
        r@ == comment_script(comment_map@),
        forall|j: int|
            0 <= j < comment_keys().len() && !has_part(
                #[trigger] value_or(comment_map@, comment_keys()[j], comment_defaults()[j]),
                "DATA_"@,
            ) ==> has_part(
                r@,
                attribute_line(
                    comment_keys()[j],
                    value_or(comment_map@, comment_keys()[j], comment_defaults()[j]),
                ),
            ),
{
    proof {
        assert forall|j: int|
            0 <= j < comment_keys().len() && !has_part(
                #[trigger] value_or(comment_map@, comment_keys()[j], comment_defaults()[j]),
                "DATA_"@,
            ) implies has_part(
                comment_script(comment_map@),
                attribute_line(
                    comment_keys()[j],
                    value_or(comment_map@, comment_keys()[j], comment_defaults()[j]),
                ),
            ) by {
            law_comment_settings_reach_loader(comment_map@, j);
        }
    }
    let m = comment_map;
    let s = replace(COMMENT_TEMPLATE, "DATA_REPO_ID", setting(m, "data-repo-id", "R_kgDOI1wUgQ"));
    let s = replace(s.as_str(), "DATA_REPO", setting(m, "data-repo", "cn-kali-team/notion-blog"));
    let s = replace(
        s.as_str(),
        "DATA_CATEGORY_ID",
        setting(m, "data-category-id", "DIC_kwDOI1wUgc4CZK9O"),
    );
    let s = replace(s.as_str(), "DATA_MAPPING", setting(m, "data-mapping", "title"));
    let s = replace(s.as_str(), "DATA_INPUT_POSITION", setting(m, "data-input-position", "top"));
    let s = replace(s.as_str(), "DATA_THEME", setting(m, "data-theme", "preferred_color_scheme"));
    replace(s.as_str(), "DATA_LANG", setting(m, "data-lang", "zh-CN"))
}

} // verus!
