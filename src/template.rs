use vstd::prelude::*;
use vstd::string::{StrSliceExecFns, StringExecFns};
use crate::page::Post;

verus! {

/// Name of the built-in page template.
pub const DEFAULT_PAGE_TPL_NAME: &'static str = "default-page.html";

/// Name of the built-in index template.
pub const DEFAULT_INDEX_TPL_NAME: &'static str = "default-index.html";

/// Built-in page template: the page's HTML in a bare document.
pub const DEFAULT_PAGE_TPL: &'static str = "<!DOCTYPE html>
<html>
    <head></head>
    <body>{{content}}</body>
</html>";

/// Built-in index template: a list of links to the directory's pages.
pub const DEFAULT_INDEX_TPL: &'static str = "<!DOCTYPE html>
<html>
    <head></head>
    <body>{{content}}<ul>
        {% for item in posts %}
        <li><a href='{{item.url}}'>{{item.title}}</a></li>
        {% endfor %}</ul>
    </body>
</html>";

/// The run's settings.
pub struct Opt {
    /// Remove the output tree before building.
    pub clear: bool,
    /// Accepted and not used.
    pub base_url: Option<String>,
    /// Template for ordinary pages, in place of the built-in one.
    pub template: Option<String>,
    /// Template for index pages, in place of the built-in one.
    pub index: Option<String>,
    /// Theme whose templates and stylesheets are used.
    pub theme: Option<String>,
    /// Report progress.
    pub verbose: bool,
}

/// The file name of a directory's index page.
pub open spec fn is_index_name(name: Seq<char>) -> bool {
    name == seq!['i', 'n', 'd', 'e', 'x', '.', 'm', 'd']
}

/// The text of an override, or `d` where there is none.
pub open spec fn or_default(o: Option<String>, d: Seq<char>) -> Seq<char> {
    match o {
        Some(s) => s@,
        None => d,
    }
}

/// The template a page is rendered with: its own declared template first;
/// else, for an index page, the index override or the built-in index template;
/// else the page override or the built-in page template.
pub open spec fn template_choice(name: Seq<char>, opt: Opt, post: Post) -> Seq<char> {
    match post.template {
        Some(t) => t@,
        None => if is_index_name(name) {
            or_default(opt.index, DEFAULT_INDEX_TPL_NAME@)
        } else {
            or_default(opt.template, DEFAULT_PAGE_TPL_NAME@)
        },
    }
}

/// Whether `name` is the index page's file name.
pub fn is_index(name: &str) -> (r: bool)
    ensures
        r == is_index_name(name@),
{
    if name.unicode_len() != 8 {
        return false;
    }
    let r = name.get_char(0) == 'i' && name.get_char(1) == 'n' && name.get_char(2) == 'd'
        && name.get_char(3) == 'e' && name.get_char(4) == 'x' && name.get_char(5) == '.'
        && name.get_char(6) == 'm' && name.get_char(7) == 'd';
    proof {
        if r {
            assert(name@ =~= seq!['i', 'n', 'd', 'e', 'x', '.', 'm', 'd']);
        }
    }
    r
}

/// Picks the template for the page built from the file `name`.
pub fn choose_template(name: &str, opt: &Opt, post: &Post) -> (r: String)
    ensures
        r@ == template_choice(name@, *opt, *post),
{
    if let Some(tpl) = &post.template {
        return tpl.clone();
    }
    if is_index(name) {
        match &opt.index {
            Some(tpl) => tpl.clone(),
            None => String::from_str(DEFAULT_INDEX_TPL_NAME),
        }
    } else {
        match &opt.template {
            Some(tpl) => tpl.clone(),
            None => String::from_str(DEFAULT_PAGE_TPL_NAME),
        }
    }
}

/// The directory that holds the run's templates and stylesheets: the theme's
/// directory under `themes/`, or the working directory without a theme.
pub open spec fn theme_dir_spec(theme: Option<String>) -> Seq<char> {
    match theme {
        Some(t) => "themes/"@ + t@ + "/"@,
        None => Seq::<char>::empty(),
    }
}

/// The theme directory of the run, as a prefix of the paths below it.
pub fn theme_dir(opt: &Opt) -> (r: String)
    ensures
        r@ == theme_dir_spec(opt.theme),
{
    match &opt.theme {
        Some(t) => String::from_str("themes/").concat(t.as_str()).concat("/"),
        None => {
            let r = String::from_str("");
            proof {
                reveal_strlit("");
            }
            r
        },
    }
}

/// The directory whose stylesheets are copied into the output.
pub fn css_dir(opt: &Opt) -> (r: String)
    ensures
        r@ == theme_dir_spec(opt.theme) + "css"@,
{
    theme_dir(opt).concat("css")
}

/// The pattern of the template files that are loaded.
pub fn template_pattern(opt: &Opt) -> (r: String)
    ensures
        r@ == theme_dir_spec(opt.theme) + "template/*.html"@,
{
    theme_dir(opt).concat("template/*.html")
}

/// A page that declares its own template is rendered with it, whatever the
/// overrides of the run and whether or not it is an index page.
pub proof fn lemma_declared_template_wins(name: Seq<char>, opt: Opt, post: Post)
    requires
        post.template is Some,
    ensures
        template_choice(name, opt, post) == post.template->Some_0@,
{
}

/// Whether no name in `names` is `name`.
pub fn is_missing(names: &Vec<String>, name: &str) -> (r: bool)
    ensures
        r == (forall|i: int| 0 <= i < names.len() ==> names[i]@ != name@),
{
    let mut i: usize = 0;
    while i < names.len()
        invariant
            i <= names.len(),
            forall|j: int| 0 <= j < i ==> names[j]@ != name@,
        decreases names.len() - i,
    {
        if same_text(names[i].as_str(), name) {
            return false;
        }
        i = i + 1;
    }
    true
}

/// Whether two texts are equal.
pub fn same_text(a: &str, b: &str) -> (r: bool)
    ensures
        r == (a@ == b@),
{
    let n = a.unicode_len();
    if n != b.unicode_len() {
        return false;
    }
    let mut i: usize = 0;
    while i < n
        invariant
            n == a@.len() == b@.len(),
            i <= n,
            forall|j: int| 0 <= j < i ==> a@[j] == b@[j],
        decreases n - i,
    {
        if a.get_char(i) != b.get_char(i) {
            return false;
        }
        i = i + 1;
    }
    assert(a@ =~= b@);
    true
}

} // verus!
