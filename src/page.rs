use vstd::prelude::*;
use vstd::string::{StrSliceExecFns, StringExecFns};

verus! {

/// What comrak renders from a markdown text with its default options.
pub uninterp spec fn markdown_html_of(md: Seq<char>) -> Seq<char>;

/// The record built for one content file and handed to the templates.
pub struct Post {
    pub url: String,
    pub title: String,
    pub content: String,
    pub template: Option<String>,
}

/// A file name with the markdown suffix: `.md` after a non-empty stem.
pub open spec fn is_markdown_name(name: Seq<char>) -> bool {
    name.len() > 3 && name[name.len() - 3] == '.' && name[name.len() - 2] == 'm'
        && name[name.len() - 1] == 'd'
}

/// A markdown file name without its suffix.
pub open spec fn stem_spec(name: Seq<char>) -> Seq<char> {
    name.subrange(0, name.len() - 3)
}

/// The public path of an entry named `name` in the directory at `parent`,
/// both relative to the content root.
pub open spec fn child_url_spec(parent: Seq<char>, name: Seq<char>) -> Seq<char> {
    if parent.len() == 0 {
        name
    } else {
        parent + seq!['/'] + name
    }
}

/// Whether `name` carries the markdown suffix.
pub fn is_markdown(name: &str) -> (r: bool)
    ensures
        r == is_markdown_name(name@),
{
    let n = name.unicode_len();
    n > 3 && name.get_char(n - 3) == '.' && name.get_char(n - 2) == 'm' && name.get_char(n - 1)
        == 'd'
}

/// The title of a page: its file name without the markdown suffix.
pub fn title_of(name: &str) -> (r: String)
    requires
        is_markdown_name(name@),
    ensures
        r@ == stem_spec(name@),
{
    let n = name.unicode_len();
    String::from_str(name.substring_char(0, n - 3))
}

/// The output file name of a page: the markdown suffix replaced by `.html`.
pub fn html_name(name: &str) -> (r: String)
    requires
        is_markdown_name(name@),
    ensures
        r@ == stem_spec(name@) + ".html"@,
{
    let n = name.unicode_len();
    String::from_str(name.substring_char(0, n - 3)).concat(".html")
}

/// The path of an entry relative to the content root, from that of its directory.
pub fn child_url(parent: &str, name: &str) -> (r: String)
    ensures
        r@ == child_url_spec(parent@, name@),
{
    if parent.unicode_len() == 0 {
        String::from_str(name)
    } else {
        let r = String::from_str(parent).concat("/").concat(name);
        proof {
            reveal_strlit("/");
        }
        r
    }
}

/// Relies on comrak::markdown_to_html with default options: the HTML is a
/// function of the markdown text alone.
#[verifier::external_body]
fn markdown_to_html(md: &str) -> (r: String)
    ensures
        r@ == markdown_html_of(md@),
{
    comrak::markdown_to_html(md, &comrak::Options::default())
}

/// Assembles the page of the markdown file `name` in the directory at
/// `parent`, from its rendered HTML and its declared template.
pub fn assemble_post(parent: &str, name: &str, content: String, template: Option<String>) -> (r:
    Post)
    requires
        is_markdown_name(name@),
    ensures
        r.url@ == child_url_spec(parent@, name@),
        r.title@ == stem_spec(name@),
        r.content@ == content@,
        r.template == template,
{
    Post { url: child_url(parent, name), title: title_of(name), content, template }
}

/// Builds the page of the markdown file `name` in the directory at `parent`
/// from its body and its declared template: the body is rendered to HTML.
pub fn post_from_source(parent: &str, name: &str, body: &str, template: Option<String>) -> (r:
    Post)
    requires
        is_markdown_name(name@),
    ensures
        r.url@ == child_url_spec(parent@, name@),
        r.title@ == stem_spec(name@),
        r.content@ == markdown_html_of(body@),
        r.template == template,
{
    let content = markdown_to_html(body);
    assemble_post(parent, name, content, template)
}

} // verus!
