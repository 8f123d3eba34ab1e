# notion_blog

A Cloudflare worker that serves a Notion site under the blog's own domain.

- `src/` is the verified library (Verus): routing (`routing`), the settings
  (`config`, `strmap`, `json`), the page rewriting with `lol_html` (`rewrite`,
  `scripts`, `html`), the page ids (`ids`), what is changed in forwarded requests
  and responses (`proxy`), and the Notion record types (`page`); `text` holds the
  verified string operations they share.
- `app/` is the worker around it: it reads the worker's variables and requests,
  talks to Notion through `worker`, and (de)serializes the JSON bodies with serde.
- `tests/` exercise the library.

Known gap: the table of contents script (`TOC`) that the page body should get
after the theme switch has no text in this crate, so it is not appended. The
comment loader calls its `addTOC()` before inserting the giscus comments, so
the comments are not inserted until that script is supplied. Likewise the
record accessors for a page's title and icon, and the sitemap and feed
builders, are not part of this crate: pages use the blog's own title and icon,
and `/sitemap.xml` and `/index.xml` answer 501.
