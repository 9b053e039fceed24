use mdsite::page::{assemble_post, child_url, html_name, is_markdown, post_from_source, title_of, Post};
use mdsite::template::{choose_template, css_dir, template_pattern, theme_dir, is_index, is_missing, same_text, Opt, DEFAULT_INDEX_TPL_NAME, DEFAULT_PAGE_TPL_NAME};
use mdsite::walk::{classify_entry, listed_entries, plan_dir, Entry, EntryKind};

fn opt(template: Option<&str>, index: Option<&str>) -> Opt {
    Opt {
        clear: false,
        base_url: None,
        template: template.map(String::from),
        index: index.map(String::from),
        theme: None,
        verbose: false,
    }
}

fn post(template: Option<&str>) -> Post {
    Post {
        url: String::from("a.md"),
        title: String::from("a"),
        content: String::new(),
        template: template.map(String::from),
    }
}

fn entry(name: &str, is_dir: bool) -> Entry {
    Entry { name: String::from(name), is_dir }
}

#[test]
fn markdown_suffix() {
    assert!(is_markdown("a.md"));
    assert!(is_markdown("x.y.md"));
    assert!(!is_markdown(".md"));
    assert!(!is_markdown("a.txt"));
    assert!(!is_markdown("md"));
}

#[test]
fn title_and_html_name() {
    assert_eq!(title_of("hello.md"), "hello");
    assert_eq!(html_name("hello.md"), "hello.html");
    assert_eq!(html_name("x.y.md"), "x.y.html");
}

#[test]
fn urls_are_relative_to_content_root() {
    assert_eq!(child_url("", "a.md"), "a.md");
    assert_eq!(child_url("sub", "b.md"), "sub/b.md");
    assert_eq!(child_url("sub/deep", "c.md"), "sub/deep/c.md");
}

#[test]
fn post_fields_from_source() {
    let p = post_from_source("sub", "a.md", "# Hi\n", Some(String::from("special.html")));
    assert_eq!(p.url, "sub/a.md");
    assert_eq!(p.title, "a");
    assert!(p.content.contains("<h1>"));
    assert_ne!(p.content, "# Hi\n");
    assert_eq!(p.template.as_deref(), Some("special.html"));
}

#[test]
fn assemble_keeps_content() {
    let p = assemble_post("", "index.md", String::from("<p>x</p>"), None);
    assert_eq!(p.url, "index.md");
    assert_eq!(p.title, "index");
    assert_eq!(p.content, "<p>x</p>");
    assert!(p.template.is_none());
}

#[test]
fn index_name() {
    assert!(is_index("index.md"));
    assert!(!is_index("index.html"));
    assert!(!is_index("Index.md"));
}

#[test]
fn template_defaults() {
    assert_eq!(choose_template("a.md", &opt(None, None), &post(None)), DEFAULT_PAGE_TPL_NAME);
    assert_eq!(choose_template("index.md", &opt(None, None), &post(None)), DEFAULT_INDEX_TPL_NAME);
}

#[test]
fn template_run_overrides() {
    let o = opt(Some("page.html"), Some("list.html"));
    assert_eq!(choose_template("a.md", &o, &post(None)), "page.html");
    assert_eq!(choose_template("index.md", &o, &post(None)), "list.html");
}

#[test]
fn declared_template_wins() {
    let o = opt(Some("page.html"), Some("list.html"));
    assert_eq!(choose_template("a.md", &o, &post(Some("special.html"))), "special.html");
    assert_eq!(choose_template("index.md", &o, &post(Some("special.html"))), "special.html");
}

#[test]
fn missing_template_names() {
    let names = vec![String::from("base.html"), String::from("default-page.html")];
    assert!(!is_missing(&names, "default-page.html"));
    assert!(is_missing(&names, "default-index.html"));
    assert!(is_missing(&Vec::new(), "x"));
    assert!(same_text("ab", "ab"));
    assert!(!same_text("ab", "abc"));
}

#[test]
fn entry_kinds() {
    assert_eq!(classify_entry("index.md", false), EntryKind::Index);
    assert_eq!(classify_entry("a.md", false), EntryKind::Page);
    assert_eq!(classify_entry("a.md", true), EntryKind::Subdir);
    assert_eq!(classify_entry("style.css", false), EntryKind::Skip);
    assert_eq!(classify_entry("README", false), EntryKind::Skip);
}

#[test]
fn plan_of_directory() {
    let entries = vec![entry("a.md", false), entry("sub", true), entry("index.md", false), entry("x.png", false)];
    let plan = plan_dir(&entries);
    assert_eq!(plan.kinds, vec![EntryKind::Page, EntryKind::Subdir, EntryKind::Index, EntryKind::Skip]);
    assert!(plan.has_index);
    assert!(!plan_dir(&vec![entry("a.md", false)]).has_index);
}

#[test]
fn index_lists_only_sibling_pages() {
    let entries = vec![
        entry("b.md", false),
        entry("sub", true),
        entry("index.md", false),
        entry("a.md", false),
        entry("c.txt", false),
    ];
    assert_eq!(listed_entries(&entries), vec![0, 3]);
    assert!(listed_entries(&Vec::new()).is_empty());
}

#[test]
fn site_with_index_and_special_page() {
    // content/index.md without front matter, content/a.md declaring special.html
    let entries = vec![entry("index.md", false), entry("a.md", false)];
    let o = opt(None, None);
    let plan = plan_dir(&entries);
    assert!(plan.has_index);
    let listed = listed_entries(&entries);
    assert_eq!(listed, vec![1]);
    let (meta, body) = mdsite::front_matter::extract_post("+++\ntemplate = \"special.html\"\n+++\nhello\n");
    assert_eq!(meta, "template = \"special.html\"\n");
    let a = post_from_source("", "a.md", body, Some(String::from("special.html")));
    assert_eq!(a.url, "a.md");
    assert_eq!(choose_template("a.md", &o, &a), "special.html");
    let (meta, body) = mdsite::front_matter::extract_post("welcome\n");
    assert_eq!(meta, "");
    let index = post_from_source("", "index.md", body, None);
    assert_eq!(choose_template("index.md", &o, &index), DEFAULT_INDEX_TPL_NAME);
}

#[test]
fn theme_paths() {
    let mut o = opt(None, None);
    assert_eq!(theme_dir(&o), "");
    assert_eq!(css_dir(&o), "css");
    assert_eq!(template_pattern(&o), "template/*.html");
    o.theme = Some(String::from("nextr"));
    assert_eq!(theme_dir(&o), "themes/nextr/");
    assert_eq!(css_dir(&o), "themes/nextr/css");
    assert_eq!(template_pattern(&o), "themes/nextr/template/*.html");
}
