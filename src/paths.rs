use vstd::prelude::*;

verus! {

/// Index of the last occurrence of `c` in `s`, or -1 when there is none.
pub open spec fn last_index_of(s: Seq<char>, c: char) -> int
    decreases s.len(),
{
    if s.len() == 0 {
        -1
    } else if s.last() == c {
        s.len() - 1
    } else {
        last_index_of(s.drop_last(), c)
    }
}

/// The last index of a character is -1 or a position that holds it.
pub proof fn lemma_last_index_bounds(s: Seq<char>, c: char)
    ensures
        -1 <= last_index_of(s, c) < s.len(),
        last_index_of(s, c) >= 0 ==> s[last_index_of(s, c)] == c,
    decreases s.len(),
{
    if s.len() > 0 && s.last() != c {
        lemma_last_index_bounds(s.drop_last(), c);
    }
}

/// The request path without its leading slashes, so that joining it under a
/// root never replaces the root.
pub open spec fn strip_leading_slashes_spec(p: Seq<char>) -> Seq<char>
    decreases p.len(),
{
    if p.len() > 0 && p[0] == '/' {
        strip_leading_slashes_spec(p.drop_first())
    } else {
        p
    }
}

/// The last path segment: everything after the last `/`.
pub open spec fn file_name_of(p: Seq<char>) -> Seq<char> {
    p.subrange(last_index_of(p, '/') + 1, p.len() as int)
}

/// The extension of the last segment: the text after its last `.`, provided
/// that dot is not the segment's first character (`.profile` has none).
pub open spec fn extension_of_spec(p: Seq<char>) -> Option<Seq<char>> {
    let name = file_name_of(p);
    let d = last_index_of(name, '.');
    if d > 0 {
        Some(name.subrange(d + 1, name.len() as int))
    } else {
        None
    }
}

/// `c` is `t`, or `t` is a lower-case ASCII letter and `c` its upper-case form.
pub open spec fn char_matches_folded(c: char, t: char) -> bool {
    c == t || ('a' <= t && t <= 'z' && c as u32 + 32 == t as u32)
}

/// `a` spells the lower-case word `lower` in any ASCII letter case.
pub open spec fn eq_ignore_ascii_case(a: Seq<char>, lower: Seq<char>) -> bool {
    &&& a.len() == lower.len()
    &&& forall|i: int| 0 <= i < a.len() ==> char_matches_folded(#[trigger] a[i], lower[i])
}

/// A path is a page (served as text from the pages root) when it has no
/// extension or its extension is `html` in any letter case.
pub open spec fn is_page_path(p: Seq<char>) -> bool {
    match extension_of_spec(p) {
        None => true,
        Some(e) => eq_ignore_ascii_case(e, "html"@),
    }
}

/// The path relative to the chosen root: leading slashes removed, and
/// `.html` appended when the path has no extension.
pub open spec fn relative_path_of(p: Seq<char>) -> Seq<char> {
    let q = strip_leading_slashes_spec(p);
    if extension_of_spec(q) is None {
        q + ".html"@
    } else {
        q
    }
}

/// `rel` joined under `root` with a single `/` between them.
pub open spec fn join_spec(root: Seq<char>, rel: Seq<char>) -> Seq<char> {
    if root.len() == 0 || root.last() == '/' {
        root + rel
    } else {
        root + "/"@ + rel
    }
}

/// `target` is `root` itself or lies below it, compared component by
/// component (`/srv/pages2` is not below `/srv/pages`).
pub open spec fn descends(root: Seq<char>, target: Seq<char>) -> bool {
    &&& root.len() <= target.len()
    &&& target.subrange(0, root.len() as int) == root
    &&& (target.len() == root.len() || (root.len() > 0 && root.last() == '/')
        || target[root.len() as int] == '/')
}

/// One past the last occurrence of `c` in `s`, or 0 when there is none.
fn after_last(s: &str, c: char) -> (r: usize)
    ensures
        r == last_index_of(s@, c) + 1,
        r <= s@.len(),
{
    proof {
        lemma_last_index_bounds(s@, c);
    }
    let n = s.unicode_len();
    let mut i: usize = n;
    assert(s@.subrange(0, n as int) =~= s@);
    while i > 0
        invariant
            n == s@.len(),
            i <= n,
            last_index_of(s@, c) == last_index_of(s@.subrange(0, i as int), c),
        decreases i,
    {
        let ch = s.get_char(i - 1);
        assert(s@.subrange(0, i as int).drop_last() =~= s@.subrange(0, i - 1));
        if ch == c {
            assert(s@.subrange(0, i as int).last() == ch);
            return i;
        }
        i = i - 1;
    }
    assert(s@.subrange(0, 0) =~= Seq::<char>::empty());
    0
}

/// Whether `s` spells the lower-case word `lower` in any ASCII letter case.
pub fn matches_ignoring_case(s: &str, lower: &str) -> (r: bool)
    ensures
        r == eq_ignore_ascii_case(s@, lower@),
{
    let n = s.unicode_len();
    if n != lower.unicode_len() {
        return false;
    }
    let mut i: usize = 0;
    while i < n
        invariant
            n == s@.len(),
            n == lower@.len(),
            i <= n,
            forall|j: int| 0 <= j < i ==> char_matches_folded(#[trigger] s@[j], lower@[j]),
        decreases n - i,
    {
        let c = s.get_char(i);
        let t = lower.get_char(i);
        let m = c == t || ('a' <= t && t <= 'z' && (c as u32) + 32 == t as u32);
        if !m {
            return false;
        }
        i = i + 1;
    }
    true
}

/// The request path without its leading slashes.
pub fn strip_leading_slashes(p: &str) -> (r: &str)
    ensures
        r@ == strip_leading_slashes_spec(p@),
{
    let n = p.unicode_len();
    let mut i: usize = 0;
    assert(p@.subrange(0, n as int) =~= p@);
    while i < n && p.get_char(i) == '/'
        invariant
            n == p@.len(),
            i <= n,
            strip_leading_slashes_spec(p@) == strip_leading_slashes_spec(p@.subrange(i as int, n as int)),
        decreases n - i,
    {
        assert(p@.subrange(i as int, n as int).drop_first() =~= p@.subrange(i + 1, n as int));
        i = i + 1;
    }
    p.substring_char(i, n)
}

/// The extension of the last segment of `p`, as `Path::extension` finds it.
pub fn extension_of(p: &str) -> (r: Option<String>)
    ensures
        r is None <==> extension_of_spec(p@) is None,
        r is Some ==> r->0@ == extension_of_spec(p@)->0,
{
    let n = p.unicode_len();
    let k = after_last(p, '/');
    let name = p.substring_char(k, n);
    let m = name.unicode_len();
    let d = after_last(name, '.');
    if d > 1 {
        Some(String::from_str(name.substring_char(d, m)))
    } else {
        None
    }
}

/// Whether `p` names a page: no extension, or `html` in any letter case.
pub fn is_page(p: &str) -> (r: bool)
    ensures
        r == is_page_path(p@),
{
    match extension_of(p) {
        None => true,
        Some(e) => matches_ignoring_case(e.as_str(), "html"),
    }
}

/// `rel` joined under `root`, with one `/` between them.
pub fn join(root: &str, rel: &str) -> (r: String)
    ensures
        r@ == join_spec(root@, rel@),
{
    let n = root.unicode_len();
    let mut out = String::from_str(root);
    if n == 0 || root.get_char(n - 1) == '/' {
        out.append(rel);
    } else {
        out.append("/");
        out.append(rel);
    }
    out
}

/// Whether `target` is `root` or lies below it, component by component.
pub fn is_within(root: &str, target: &str) -> (r: bool)
    ensures
        r == descends(root@, target@),
{
    let rn = root.unicode_len();
    let tn = target.unicode_len();
    if rn > tn {
        return false;
    }
    let mut i: usize = 0;
    while i < rn
        invariant
            rn == root@.len(),
            tn == target@.len(),
            rn <= tn,
            i <= rn,
            forall|j: int| 0 <= j < i ==> target@[j] == root@[j],
        decreases rn - i,
    {
        if root.get_char(i) != target.get_char(i) {
            assert(target@.subrange(0, rn as int)[i as int] != root@[i as int]);
            return false;
        }
        i = i + 1;
    }
    assert(target@.subrange(0, rn as int) =~= root@);
    tn == rn || (rn > 0 && root.get_char(rn - 1) == '/') || target.get_char(rn) == '/'
}

} // verus!
