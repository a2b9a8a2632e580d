//! The rendering pipeline: markdown is sanitized, converted to HTML and
//! placed in a fixed, styled page.
use crate::opt_view;
use vstd::prelude::*;
use vstd::string::*;

verus! {

/// The dark article theme placed in the page's first style block.
pub const GITHUB_CSS: &'static str = ".markdown-body { color: #c9d1d9; background-color: #0d1117; font-family: -apple-system, \"Segoe UI\", Helvetica, Arial, sans-serif; font-size: 16px; line-height: 1.5; word-wrap: break-word; }
.markdown-body a { color: #58a6ff; text-decoration: none; }
.markdown-body code, .markdown-body pre { background-color: #161b22; border-radius: 6px; font-family: monospace; }
.markdown-body pre { padding: 16px; overflow: auto; }
.markdown-body table { border-collapse: collapse; }
.markdown-body td, .markdown-body th { border: 1px solid #30363d; padding: 6px 13px; }
.markdown-body blockquote { color: #8b949e; border-left: 0.25em solid #30363d; padding: 0 1em; }
";

/// The syntax-highlight theme placed in the page's second style block.
pub const HIGHLIGHT_CSS: &'static str = ".hljs { display: block; overflow-x: auto; color: #c9d1d9; }
.hljs-comment, .hljs-quote { color: #8b949e; font-style: italic; }
.hljs-keyword, .hljs-selector-tag { color: #ff7b72; }
.hljs-string, .hljs-attr { color: #a5d6ff; }
.hljs-number, .hljs-literal { color: #79c0ff; }
.hljs-title, .hljs-section { color: #d2a8ff; }
";

/// The page that holds a rendered article. `{{github_css}}` and
/// `{{highlight_css}}` are escaped on substitution; `{{{content}}}` is the
/// converted, already sanitized article and goes in as it is.
pub const PAGE_TEMPLATE: &'static str = r#"<!DOCTYPE html>
<html>
    <head>
        <script src="https://cdnjs.cloudflare.com/ajax/libs/highlight.js/9.12.0/highlight.min.js" integrity="sha384-ZeLYJ2PNSQjvogWP559CDAf02Qb8FE5OyQicqtz/+UhZutbrwyr87Be7NPH/RgyC" crossorigin="anonymous"></script>
        <script src="https://cdnjs.cloudflare.com/ajax/libs/highlight.js/9.12.0/languages/rust.min.js" integrity="sha384-OBJOKgNdLyh0+KeF4HV9qlOEPvj6VyfuPSI/Yz+Tr2mOqwbRDqGsMtYlKz3tZkA" crossorigin="anonymous"></script>
        <script src="https://cdnjs.cloudflare.com/ajax/libs/highlight.js/9.12.0/languages/bash.min.js" integrity="sha384-eQ7mmCQvBDl4XhA/Lxe6YfLK09TdqV3GBk9L3af17KsbqtWIrBjbvG/hzGSuJsO" crossorigin="anonymous"></script>
        <script>hljs.initHighlightingOnLoad();</script>
        <style>
            {{github_css}}
            {{highlight_css}}
            body { padding: 20px; }
        </style>
    </head>
    <body>
        <article class="markdown-body">
            {{{content}}}
        </article>
    </body>
</html>
"#;

/// What the preview shows in place of the page when composing it fails.
pub const RENDER_FAILED: &'static str = "Rendering failed";

/// What ammonia's `clean` makes of `s`: the markup in it that could run code
/// or change the page is removed or escaped.
pub uninterp spec fn sanitized(s: Seq<char>) -> Seq<char>;

/// What comrak's `markdown_to_html` makes of `md` with the given render and
/// extension switches (every other option at its default).
pub uninterp spec fn commonmark_html(md: Seq<char>, hardbreaks: bool, table: bool, strikethrough: bool) -> Seq<char>;

/// What handlebars makes of `template` filled with the two style sheets and
/// the article content, or `None` when the template fails to render.
pub uninterp spec fn filled_page(
    template: Seq<char>,
    github_css: Seq<char>,
    highlight_css: Seq<char>,
    content: Seq<char>,
) -> Option<Seq<char>>;

/// Relies on ammonia::clean: sanitizes `s` with ammonia's default policy.
#[verifier::external_body]
fn sanitize(s: &str) -> (r: String)
    ensures
        r@ == sanitized(s@),
{
    ammonia::clean(s)
}

/// Relies on comrak::markdown_to_html: converts `md` with hard breaks, tables
/// and strikethrough switched as given.
#[verifier::external_body]
fn markdown_html(md: &str, hardbreaks: bool, table: bool, strikethrough: bool) -> (r: String)
    ensures
        r@ == commonmark_html(md@, hardbreaks, table, strikethrough),
{
    let mut options = comrak::Options::default();
    options.render.hardbreaks = hardbreaks;
    options.extension.table = table;
    options.extension.strikethrough = strikethrough;
    comrak::markdown_to_html(md, &options)
}

/// Relies on handlebars' Registry::render_template: renders `template` with
/// the data keys `github_css`, `highlight_css` and `content`; `None` stands for
/// its render error.
#[verifier::external_body]
fn fill_page(template: &str, github_css: &str, highlight_css: &str, content: &str) -> (r: Option<String>)
    ensures
        opt_view(r) == filled_page(template@, github_css@, highlight_css@, content@),
{
    let mut data = serde_json::Map::new();
    data.insert("github_css".to_string(), serde_json::Value::String(github_css.to_string()));
    data.insert("highlight_css".to_string(), serde_json::Value::String(highlight_css.to_string()));
    data.insert("content".to_string(), serde_json::Value::String(content.to_string()));
    handlebars::Handlebars::new().render_template(template, &serde_json::Value::Object(data)).ok()
}

/// Sanitizes untrusted markdown before conversion: raw inline HTML, scripts,
/// event-handler attributes and `javascript:` links are removed or escaped.
pub fn sanitize_markdown(markdown: &str) -> (r: String)
    ensures
        r@ == sanitized(markdown@),
{
    sanitize(markdown)
}

/// The document shown for a composed page, or the failure notice.
pub open spec fn page_or_notice_of(page: Option<Seq<char>>) -> Seq<char> {
    match page {
        Some(p) => p,
        None => RENDER_FAILED@,
    }
}

/// The composed page if there is one, else the visibly distinct failure
/// notice; stale content is never passed on.
pub fn page_or_notice(page: Option<String>) -> (r: String)
    ensures
        r@ == page_or_notice_of(opt_view(page)),
{
    match page {
        Some(p) => p,
        None => String::from_str(RENDER_FAILED),
    }
}

/// The article body for `markdown`: always converted from the sanitized text,
/// never from the raw input.
pub open spec fn article_of(markdown: Seq<char>, hardbreaks: bool, table: bool, strikethrough: bool) -> Seq<char> {
    commonmark_html(sanitized(markdown), hardbreaks, table, strikethrough)
}

/// The preview document for `markdown`.
pub open spec fn preview_of(markdown: Seq<char>, hardbreaks: bool, table: bool, strikethrough: bool) -> Seq<char> {
    page_or_notice_of(
        filled_page(
            PAGE_TEMPLATE@,
            GITHUB_CSS@,
            HIGHLIGHT_CSS@,
            article_of(markdown, hardbreaks, table, strikethrough),
        ),
    )
}

/// A markdown previewer: the conversion switches it renders with.
#[derive(Clone, Copy, Debug)]
pub struct Preview {
    hardbreaks: bool,
    table: bool,
    strikethrough: bool,
}

impl Preview {
    /// Whether every single newline renders as a visible line break.
    pub closed spec fn spec_hardbreaks(&self) -> bool {
        self.hardbreaks
    }

    /// Whether tables are converted.
    pub closed spec fn spec_table(&self) -> bool {
        self.table
    }

    /// Whether strikethrough is converted.
    pub closed spec fn spec_strikethrough(&self) -> bool {
        self.strikethrough
    }

    /// A previewer with hard line breaks, tables and strikethrough.
    pub fn new() -> (r: Preview)
        ensures
            r.spec_hardbreaks(),
            r.spec_table(),
            r.spec_strikethrough(),
    {
        Preview { hardbreaks: true, table: true, strikethrough: true }
    }

    /// Renders `markdown` as a complete HTML document: sanitize, convert,
    /// compose. Never fails; a composition failure yields the notice.
    pub fn render(&self, markdown: &str) -> (r: String)
        ensures
            r@ == preview_of(markdown@, self.spec_hardbreaks(), self.spec_table(), self.spec_strikethrough()),
    {
        let clean = sanitize_markdown(markdown);
        let article = markdown_html(clean.as_str(), self.hardbreaks, self.table, self.strikethrough);
        let page = fill_page(PAGE_TEMPLATE, GITHUB_CSS, HIGHLIGHT_CSS, article.as_str());
        page_or_notice(page)
    }
}

impl Default for Preview {
    /// The same previewer as `Preview::new`.
    fn default() -> (r: Preview)
        ensures
            r.spec_hardbreaks(),
            r.spec_table(),
            r.spec_strikethrough(),
    {
        Preview::new()
    }
}

} // verus!
