use ollama_gtk::preview::{page_or_notice, sanitize_markdown, Preview, RENDER_FAILED};

#[test]
fn sanitize_is_idempotent() {
    let inputs = [
        "plain text",
        "# Title\n\nSome *emphasis* and `code`.",
        "XSS<script>attack</script>",
        "<a href=\"javascript:alert(1)\" onclick=\"evil()\">link</a>",
        "a < b && c > d",
        "<img src=x onerror=alert(1)>",
        "",
    ];
    for input in inputs.iter() {
        let once = sanitize_markdown(input);
        let twice = sanitize_markdown(&once);
        assert_eq!(once, twice, "input {:?}", input);
    }
}

#[test]
fn sanitize_removes_script() {
    assert_eq!(sanitize_markdown("XSS<script>attack</script>"), "XSS");
}

#[test]
fn no_script_survives_rendering() {
    let preview = Preview::new();
    let page = preview.render("hello <script>alert('x')</script> world");
    assert!(!page.contains("<script>alert('x')</script>"));
    assert!(!page.contains("alert('x')"));
}

#[test]
fn no_event_handler_survives_rendering() {
    let preview = Preview::new();
    let page = preview.render("<img src=\"a.png\" onerror=\"alert(1)\"> and <b onclick=\"evil()\">x</b>");
    assert!(!page.contains("onerror="));
    assert!(!page.contains("onclick="));
}

#[test]
fn no_javascript_uri_survives_rendering() {
    let preview = Preview::new();
    let page = preview.render("<a href=\"javascript:alert(1)\">click</a>");
    assert!(!page.contains("javascript:"));
}

#[test]
fn single_newline_is_a_hard_break() {
    let preview = Preview::new();
    let page = preview.render("a\nb");
    assert!(page.contains("a<br />\nb"), "{}", page);
}

#[test]
fn default_previewer_also_breaks_lines() {
    let preview = Preview::default();
    let page = preview.render("a\nb");
    assert!(page.contains("a<br />\nb"));
}

#[test]
fn tables_and_strikethrough_are_converted() {
    let preview = Preview::new();
    let page = preview.render("| a | b |\n|---|---|\n| 1 | 2 |\n\n~~gone~~");
    assert!(page.contains("<table>"));
    assert!(page.contains("<del>gone</del>"));
}

#[test]
fn page_carries_template_and_article() {
    let preview = Preview::new();
    let page = preview.render("# Title");
    assert!(page.starts_with("<!DOCTYPE html>"));
    assert!(page.contains("<article class=\"markdown-body\">"));
    assert!(page.contains("<h1>Title</h1>"));
    assert!(page.contains(".hljs"));
}

#[test]
fn failed_page_shows_notice() {
    assert_eq!(page_or_notice(None), RENDER_FAILED);
    assert_eq!(page_or_notice(None), "Rendering failed");
    assert_eq!(page_or_notice(Some("<p>x</p>".to_string())), "<p>x</p>");
}
