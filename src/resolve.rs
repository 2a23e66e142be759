use vstd::prelude::*;

use crate::classify::{classify, classify_spec};
use crate::paths::{
    file_name_of, last_index_of, lemma_last_index_bounds,
    eq_ignore_ascii_case, extension_of, extension_of_spec, is_page, is_page_path, join, join_spec, relative_path_of,
    strip_leading_slashes, strip_leading_slashes_spec,
};

verus! {

/// The content type given to every page.
pub const HTML_CONTENT_TYPE: &'static str = "text/html; charset=utf-8";

/// Where a request would be served from, before the sandbox check.
pub struct ResolvedTarget {
    /// The root directory chosen for the request, as configured.
    pub root_dir: String,
    /// The candidate file: the request path joined under `root_dir`.
    pub path: String,
    /// Pages are read as UTF-8 text, static assets as bytes.
    pub is_text: bool,
    pub content_type: String,
}

/// `ResolvedTarget` with its strings as character sequences.
pub struct TargetView {
    pub root_dir: Seq<char>,
    pub path: Seq<char>,
    pub is_text: bool,
    pub content_type: Seq<char>,
}

impl View for ResolvedTarget {
    type V = TargetView;

    open spec fn view(&self) -> TargetView {
        TargetView {
            root_dir: self.root_dir@,
            path: self.path@,
            is_text: self.is_text,
            content_type: self.content_type@,
        }
    }
}

/// A page goes to the pages root as text (`.html` appended when it has no
/// extension); anything else goes to the static root as bytes, its content
/// type classified by extension.
pub open spec fn resolve_spec(p: Seq<char>, pages_root: Seq<char>, static_root: Seq<char>) -> TargetView {
    let q = strip_leading_slashes_spec(p);
    if is_page_path(q) {
        TargetView {
            root_dir: pages_root,
            path: join_spec(pages_root, relative_path_of(p)),
            is_text: true,
            content_type: HTML_CONTENT_TYPE@,
        }
    } else {
        TargetView {
            root_dir: static_root,
            path: join_spec(static_root, q),
            is_text: false,
            content_type: classify_spec(extension_of_spec(q)->0),
        }
    }
}

/// Maps a request path to its root, candidate file and content type. This
/// touches no file.
pub fn resolve(request_path: &str, pages_root: &str, static_root: &str) -> (r: ResolvedTarget)
    ensures
        r@ == resolve_spec(request_path@, pages_root@, static_root@),
{
    let q = strip_leading_slashes(request_path);
    if is_page(q) {
        let mut rel = String::from_str(q);
        match extension_of(q) {
            None => rel.append(".html"),
            Some(_) => {},
        }
        ResolvedTarget {
            root_dir: String::from_str(pages_root),
            path: join(pages_root, rel.as_str()),
            is_text: true,
            content_type: String::from_str(HTML_CONTENT_TYPE),
        }
    } else {
        let ext = extension_of(q);
        let content_type = match ext {
            Some(e) => classify(e.as_str()),
            None => classify(""),
        };
        ResolvedTarget {
            root_dir: String::from_str(static_root),
            path: join(static_root, q),
            is_text: false,
            content_type,
        }
    }
}

proof fn lemma_strip_append(p: Seq<char>, t: Seq<char>)
    requires
        strip_leading_slashes_spec(p).len() > 0,
    ensures
        strip_leading_slashes_spec(p + t) == strip_leading_slashes_spec(p) + t,
    decreases p.len(),
{
    if p.len() > 0 && p[0] == '/' {
        assert((p + t).drop_first() =~= p.drop_first() + t);
        lemma_strip_append(p.drop_first(), t);
    }
}

proof fn lemma_last_index_append(s: Seq<char>, t: Seq<char>, c: char)
    requires
        forall|i: int| 0 <= i < t.len() ==> t[i] != c,
    ensures
        last_index_of(s + t, c) == last_index_of(s, c),
    decreases t.len(),
{
    if t.len() == 0 {
        assert(s + t =~= s);
    } else {
        assert((s + t).drop_last() =~= s + t.drop_last());
        lemma_last_index_append(s, t.drop_last(), c);
    }
}

/// For `q` whose last segment is not empty, appending `.html` gives a last
/// segment whose extension is `html`.
proof fn lemma_html_extension(q: Seq<char>)
    requires
        q.len() > 0,
        q.last() != '/',
    ensures
        extension_of_spec(q + ".html"@) == Some("html"@),
{
    reveal_strlit(".html");
    reveal_strlit("html");
    let k = last_index_of(q, '/');
    lemma_last_index_bounds(q, '/');
    lemma_last_index_append(q, ".html"@, '/');
    let name = file_name_of(q);
    let qh = q + ".html"@;
    assert(file_name_of(qh) =~= name + ".html"@);
    assert(name.len() > 0);
    let u = name.push('.');
    assert(name + ".html"@ =~= u + "html"@);
    lemma_last_index_append(u, "html"@, '.');
    assert(last_index_of(u, '.') == name.len());
    assert((name + ".html"@).subrange(name.len() + 1 as int, name.len() + 5 as int) =~= "html"@);
}

/// A page may be asked for with or without its `.html`: `/about` and
/// `/about.html` resolve to the same file, root and content type, so every
/// answer of the filesystem leads both to the same response. The path must
/// name a file (not end in `/`) and carry no extension of its own.
pub proof fn lemma_html_suffix_optional(p: Seq<char>, pages_root: Seq<char>, static_root: Seq<char>)
    requires
        strip_leading_slashes_spec(p).len() > 0,
        strip_leading_slashes_spec(p).last() != '/',
        extension_of_spec(strip_leading_slashes_spec(p)) is None,
    ensures
        resolve_spec(p + ".html"@, pages_root, static_root) == resolve_spec(p, pages_root, static_root),
{
    let q = strip_leading_slashes_spec(p);
    lemma_strip_append(p, ".html"@);
    lemma_html_extension(q);
    reveal_strlit("html");
    assert(eq_ignore_ascii_case("html"@, "html"@));
}

} // verus!
