//! A small verified scanner for the markup the adapters scrape: tag names
//! and quoted attributes, as the canonical-link and tag-page extraction
//! need them.  The five predefined entity references are decoded in
//! attribute values and scraped text; numeric character references are
//! kept verbatim.

use vstd::prelude::*;

use crate::post::{skip_spaces, skip_spaces_exec};
use crate::strutil::{find_char_exec, first_index_from, lemma_first_index_bounds, pair_views};

verus! {

/// Characters a tag or attribute name may consist of.
pub open spec fn is_name_char(c: char) -> bool {
    ('a' <= c && c <= 'z') || ('A' <= c && c <= 'Z') || ('0' <= c && c <= '9') || c == '-' || c
        == '_' || c == ':'
}

pub(crate) fn is_name_char_exec(c: char) -> (r: bool)
    ensures
        r == is_name_char(c),
{
    ('a' <= c && c <= 'z') || ('A' <= c && c <= 'Z') || ('0' <= c && c <= '9') || c == '-' || c
        == '_' || c == ':'
}

/// The end of the name-character run starting at `i`.
pub open spec fn name_end(s: Seq<char>, i: int) -> int
    decreases s.len() - i,
{
    if 0 <= i && i < s.len() && is_name_char(s[i]) {
        name_end(s, i + 1)
    } else {
        i
    }
}

pub(crate) fn name_end_exec(s: &str, from: usize, n: usize) -> (r: usize)
    requires
        n == s@.len(),
        from <= n,
    ensures
        r == name_end(s@, from as int),
        from <= r <= n,
{
    let mut i = from;
    loop
        invariant
            n == s@.len(),
            from <= i <= n,
            name_end(s@, from as int) == name_end(s@, i as int),
        decreases n - i,
    {
        if i < n && is_name_char_exec(s.get_char(i)) {
            assert(name_end(s@, i as int) == name_end(s@, (i + 1) as int));
            i += 1;
        } else {
            assert(name_end(s@, i as int) == i as int);
            return i;
        }
    }
}

pub proof fn lemma_name_end_bounds(s: Seq<char>, i: int)
    requires
        0 <= i <= s.len(),
    ensures
        i <= name_end(s, i) <= s.len(),
    decreases s.len() - i,
{
    if i < s.len() && is_name_char(s[i]) {
        lemma_name_end_bounds(s, i + 1);
    }
}

pub proof fn lemma_skip_spaces_bounds(s: Seq<char>, i: int)
    requires
        0 <= i <= s.len(),
    ensures
        i <= skip_spaces(s, i) <= s.len(),
    decreases s.len() - i,
{
    if i < s.len() && crate::post::is_space(s[i]) {
        lemma_skip_spaces_bounds(s, i + 1);
    }
}

/// The text with the five predefined entity references decoded; any
/// other ampersand sequence, numeric character references included, is
/// kept verbatim.
pub open spec fn unescaped(v: Seq<char>) -> Seq<char>
    decreases v.len(),
{
    if v.len() == 0 {
        Seq::empty()
    } else if v.len() >= 5 && v.subrange(0, 5) == "&amp;"@ {
        seq!['&'] + unescaped(v.skip(5))
    } else if v.len() >= 4 && v.subrange(0, 4) == "&lt;"@ {
        seq!['<'] + unescaped(v.skip(4))
    } else if v.len() >= 4 && v.subrange(0, 4) == "&gt;"@ {
        seq!['>'] + unescaped(v.skip(4))
    } else if v.len() >= 6 && v.subrange(0, 6) == "&quot;"@ {
        seq!['"'] + unescaped(v.skip(6))
    } else if v.len() >= 6 && v.subrange(0, 6) == "&apos;"@ {
        seq!['\''] + unescaped(v.skip(6))
    } else {
        seq![v[0]] + unescaped(v.skip(1))
    }
}

/// Whether the literal's characters stand at position `i`, wholly before
/// position `b`.
fn lit_at(s: &str, i: usize, b: usize, n: usize, lit: &str) -> (r: bool)
    requires
        n == s@.len(),
        i <= b <= n,
    ensures
        r == (b - i >= lit@.len() && s@.subrange(i as int, i + lit@.len()) == lit@),
{
    let m = lit.unicode_len();
    if b - i < m {
        return false;
    }
    let mut k: usize = 0;
    while k < m
        invariant
            n == s@.len(),
            i <= b <= n,
            m == lit@.len(),
            b - i >= m,
            k <= m,
            forall|j: int| 0 <= j < k ==> s@[i + j] == lit@[j],
        decreases m - k,
    {
        if s.get_char(i + k) != lit.get_char(k) {
            proof {
                if s@.subrange(i as int, i + m as int) == lit@ {
                    assert(s@.subrange(i as int, i + m as int)[k as int] == lit@[k as int]);
                }
            }
            return false;
        }
        k += 1;
    }
    proof {
        assert(s@.subrange(i as int, i + m as int) =~= lit@);
    }
    true
}

/// Decodes the predefined entity references of `s[a..b]`.
pub(crate) fn unescape_range(s: &str, a: usize, b: usize, n: usize) -> (r: String)
    requires
        n == s@.len(),
        a <= b <= n,
    ensures
        r@ == unescaped(s@.subrange(a as int, b as int)),
{
    proof {
        reveal_strlit("&amp;");
        reveal_strlit("&lt;");
        reveal_strlit("&gt;");
        reveal_strlit("&quot;");
        reveal_strlit("&apos;");
    }
    let ghost full = s@.subrange(a as int, b as int);
    let mut out: Vec<char> = Vec::new();
    let mut i = a;
    while i < b
        invariant
            n == s@.len(),
            a <= i <= b <= n,
            full == s@.subrange(a as int, b as int),
            unescaped(full) == out@ + unescaped(s@.subrange(i as int, b as int)),
        decreases b - i,
    {
        let ghost rest = s@.subrange(i as int, b as int);
        proof {
            reveal_strlit("&amp;");
            reveal_strlit("&lt;");
            reveal_strlit("&gt;");
            reveal_strlit("&quot;");
            reveal_strlit("&apos;");
            assert(rest.len() == b - i);
        }
        let ghost old_out = out@;
        let step: usize;
        if lit_at(s, i, b, n, "&amp;") {
            proof {
                assert(rest.subrange(0, 5) =~= s@.subrange(i as int, i + 5));
            }
            out.push('&');
            step = 5;
        } else if lit_at(s, i, b, n, "&lt;") {
            proof {
                assert(rest.len() < 5 || rest.subrange(0, 5) =~= s@.subrange(i as int, i + 5));
                assert(rest.subrange(0, 4) =~= s@.subrange(i as int, i + 4));
            }
            out.push('<');
            step = 4;
        } else if lit_at(s, i, b, n, "&gt;") {
            proof {
                assert(rest.len() < 5 || rest.subrange(0, 5) =~= s@.subrange(i as int, i + 5));
                assert(rest.subrange(0, 4) =~= s@.subrange(i as int, i + 4));
            }
            out.push('>');
            step = 4;
        } else if lit_at(s, i, b, n, "&quot;") {
            proof {
                assert(rest.len() < 5 || rest.subrange(0, 5) =~= s@.subrange(i as int, i + 5));
                assert(rest.len() < 4 || rest.subrange(0, 4) =~= s@.subrange(i as int, i + 4));
                assert(rest.subrange(0, 6) =~= s@.subrange(i as int, i + 6));
            }
            out.push('"');
            step = 6;
        } else if lit_at(s, i, b, n, "&apos;") {
            proof {
                assert(rest.len() < 5 || rest.subrange(0, 5) =~= s@.subrange(i as int, i + 5));
                assert(rest.len() < 4 || rest.subrange(0, 4) =~= s@.subrange(i as int, i + 4));
                assert(rest.len() < 6 || rest.subrange(0, 6) =~= s@.subrange(i as int, i + 6));
            }
            out.push('\'');
            step = 6;
        } else {
            proof {
                assert(rest.len() < 5 || rest.subrange(0, 5) =~= s@.subrange(i as int, i + 5));
                assert(rest.len() < 4 || rest.subrange(0, 4) =~= s@.subrange(i as int, i + 4));
                assert(rest.len() < 6 || rest.subrange(0, 6) =~= s@.subrange(i as int, i + 6));
                assert(rest[0] == s@[i as int]);
            }
            let c = s.get_char(i);
            out.push(c);
            step = 1;
        }
        proof {
            assert(rest.skip(step as int) =~= s@.subrange(i + step, b as int));
            assert(out@ =~= old_out + unescaped(rest).take(1));
            assert(out@ + unescaped(s@.subrange(i + step, b as int)) =~= old_out + unescaped(
                rest,
            ));
        }
        i += step;
    }
    proof {
        assert(unescaped(s@.subrange(i as int, b as int)) =~= Seq::<char>::empty());
        assert(out@ =~= unescaped(full));
    }
    crate::strutil::string_from_chars(&out)
}

#[via_fn]
proof fn scan_attrs_decreases(s: Seq<char>, i: int) {
    if 0 <= i <= s.len() {
        lemma_skip_spaces_bounds(s, i);
        let j = skip_spaces(s, i);
        if j < s.len() {
            lemma_name_end_bounds(s, j);
            let ne = name_end(s, j);
            if ne + 1 < s.len() {
                lemma_first_index_bounds(s, ne + 2, s[ne + 1]);
            }
        }
    }
}

/// Scans the attribute list of a tag from position `i` (just after the
/// tag name) up to the closing `>`: whitespace-separated names, each with
/// an optional single- or double-quoted value, predefined entity
/// references decoded.  Yields the attributes, the position after the
/// `>`, and whether the tag was self-closing; yields nothing when the tag
/// is malformed or unterminated.
pub open spec fn scan_attrs(s: Seq<char>, i: int) -> Option<
    (Seq<(Seq<char>, Seq<char>)>, int, bool),
>
    decreases s.len() - i,
    via scan_attrs_decreases
{
    if i < 0 || i > s.len() {
        None
    } else {
        let j = skip_spaces(s, i);
        if j >= s.len() {
            None
        } else if s[j] == '>' {
            Some((Seq::empty(), j + 1, false))
        } else if s[j] == '/' {
            if j + 1 < s.len() && s[j + 1] == '>' {
                Some((Seq::empty(), j + 2, true))
            } else {
                None
            }
        } else {
            let ne = name_end(s, j);
            if ne == j {
                None
            } else if ne + 1 < s.len() && s[ne] == '=' && (s[ne + 1] == '"' || s[ne + 1] == '\'') {
                let ve = first_index_from(s, ne + 2, s[ne + 1]);
                if ve < s.len() {
                    match scan_attrs(s, ve + 1) {
                        Some((rest, e, sc)) => Some(
                            (
                                seq![(s.subrange(j, ne), unescaped(s.subrange(ne + 2, ve)))]
                                    + rest,
                                e,
                                sc,
                            ),
                        ),
                        None => None,
                    }
                } else {
                    None
                }
            } else {
                match scan_attrs(s, ne) {
                    Some((rest, e, sc)) => Some(
                        (seq![(s.subrange(j, ne), Seq::empty())] + rest, e, sc),
                    ),
                    None => None,
                }
            }
        }
    }
}

/// A successful attribute scan always makes progress and stays in bounds.
pub proof fn lemma_scan_attrs_bounds(s: Seq<char>, i: int)
    requires
        0 <= i,
    ensures
        scan_attrs(s, i) matches Some(t) ==> i < t.1 <= s.len(),
    decreases s.len() - i,
{
    if i <= s.len() {
        lemma_skip_spaces_bounds(s, i);
        let j = skip_spaces(s, i);
        if j < s.len() && s[j] != '>' && s[j] != '/' {
            lemma_name_end_bounds(s, j);
            let ne = name_end(s, j);
            if ne != j {
                if ne + 1 < s.len() && s[ne] == '=' && (s[ne + 1] == '"' || s[ne + 1] == '\'') {
                    let ve = first_index_from(s, ne + 2, s[ne + 1]);
                    lemma_first_index_bounds(s, ne + 2, s[ne + 1]);
                    if ve < s.len() {
                        lemma_scan_attrs_bounds(s, ve + 1);
                    }
                } else {
                    lemma_scan_attrs_bounds(s, ne);
                }
            }
        }
    }
}

pub(crate) fn scan_attrs_exec(s: &str, i: usize, n: usize) -> (r: Option<
    (Vec<(String, String)>, usize, bool),
>)
    requires
        n == s@.len(),
        i <= n,
    ensures
        match r {
            Some(t) => (scan_attrs(s@, i as int) matches Some(g) && pair_views(t.0@) == g.0 && t.1
                == g.1 && t.2 == g.2 && i < t.1 <= n),
            None => scan_attrs(s@, i as int) is None,
        },
    decreases n - i,
{
    proof {
        lemma_scan_attrs_bounds(s@, i as int);
    }
    let j = skip_spaces_exec(s, i, n);
    if j >= n {
        return None;
    }
    let cj = s.get_char(j);
    if cj == '>' {
        proof {
            assert(pair_views(Seq::<(String, String)>::empty()) =~= Seq::<
                (Seq<char>, Seq<char>),
            >::empty());
        }
        return Some((Vec::new(), j + 1, false));
    }
    if cj == '/' {
        if j + 1 < n && s.get_char(j + 1) == '>' {
            proof {
                assert(pair_views(Seq::<(String, String)>::empty()) =~= Seq::<
                    (Seq<char>, Seq<char>),
                >::empty());
            }
            return Some((Vec::new(), j + 2, true));
        }
        return None;
    }
    let ne = name_end_exec(s, j, n);
    if ne == j {
        return None;
    }
    if n - ne > 1 && s.get_char(ne) == '=' && (s.get_char(ne + 1) == '"' || s.get_char(ne + 1)
        == '\'') {
        let q = s.get_char(ne + 1);
        let ve = find_char_exec(s, ne + 2, n, q);
        if ve < n {
            match scan_attrs_exec(s, ve + 1, n) {
                Some((mut rest, e, sc)) => {
                    let name = s.substring_char(j, ne).to_owned();
                    let value = unescape_range(s, ne + 2, ve, n);
                    let ghost old_rest = rest@;
                    rest.insert(0, (name, value));
                    proof {
                        assert(pair_views(rest@) =~= seq![
                            (
                                s@.subrange(j as int, ne as int),
                                unescaped(s@.subrange(ne + 2, ve as int)),
                            ),
                        ] + pair_views(old_rest));
                    }
                    Some((rest, e, sc))
                },
                None => None,
            }
        } else {
            None
        }
    } else {
        match scan_attrs_exec(s, ne, n) {
            Some((mut rest, e, sc)) => {
                let name = s.substring_char(j, ne).to_owned();
                let ghost old_rest = rest@;
                rest.insert(0, (name, String::new()));
                proof {
                    assert(pair_views(rest@) =~= seq![
                        (s@.subrange(j as int, ne as int), Seq::<char>::empty()),
                    ] + pair_views(old_rest));
                }
                Some((rest, e, sc))
            },
            None => None,
        }
    }
}

/// The value of the first attribute with the given name, if any.
pub open spec fn attr_lookup(attrs: Seq<(Seq<char>, Seq<char>)>, key: Seq<char>) -> Option<
    Seq<char>,
>
    decreases attrs.len(),
{
    if attrs.len() == 0 {
        None
    } else if attrs[0].0 == key {
        Some(attrs[0].1)
    } else {
        attr_lookup(attrs.drop_first(), key)
    }
}

/// Some attribute carries exactly this name and value.
pub open spec fn attrs_have(
    attrs: Seq<(Seq<char>, Seq<char>)>,
    key: Seq<char>,
    val: Seq<char>,
) -> bool {
    exists|k: int| 0 <= k < attrs.len() && #[trigger] attrs[k] == (key, val)
}

pub(crate) fn attr_lookup_exec(attrs: &Vec<(String, String)>, key: &String) -> (r: Option<String>)
    ensures
        match r {
            Some(v) => attr_lookup(pair_views(attrs@), key@) == Some(v@),
            None => attr_lookup(pair_views(attrs@), key@) is None,
        },
{
    let ghost views = pair_views(attrs@);
    proof {
        assert(views.skip(0) =~= views);
    }
    let mut k: usize = 0;
    while k < attrs.len()
        invariant
            views == pair_views(attrs@),
            k <= attrs@.len(),
            attr_lookup(views, key@) == attr_lookup(views.skip(k as int), key@),
        decreases attrs@.len() - k,
    {
        if attrs[k].0 == *key {
            proof {
                assert(views.skip(k as int)[0] == views[k as int]);
            }
            return Some(attrs[k].1.clone());
        }
        proof {
            assert(views.skip(k as int)[0] == views[k as int]);
            assert(views.skip(k as int).drop_first() =~= views.skip(k + 1));
        }
        k += 1;
    }
    proof {
        assert(views.skip(attrs@.len() as int) =~= Seq::<(Seq<char>, Seq<char>)>::empty());
    }
    None
}

pub(crate) fn attrs_have_exec(attrs: &Vec<(String, String)>, key: &String, val: &String) -> (r:
    bool)
    ensures
        r == attrs_have(pair_views(attrs@), key@, val@),
{
    let mut k: usize = 0;
    while k < attrs.len()
        invariant
            k <= attrs@.len(),
            forall|j: int|
                0 <= j < k ==> #[trigger] pair_views(attrs@)[j] != (key@, val@),
        decreases attrs@.len() - k,
    {
        if attrs[k].0 == *key && attrs[k].1 == *val {
            assert(pair_views(attrs@)[k as int] == (key@, val@));
            return true;
        }
        assert(pair_views(attrs@)[k as int] != (key@, val@));
        k += 1;
    }
    false
}

/// The position just after the next `-->` at or beyond `i`, if any.
pub open spec fn comment_end(s: Seq<char>, i: int) -> Option<int>
    decreases s.len() - i,
{
    if i < 0 || i + 3 > s.len() {
        None
    } else if s[i] == '-' && s[i + 1] == '-' && s[i + 2] == '>' {
        Some(i + 3)
    } else {
        comment_end(s, i + 1)
    }
}

/// A found comment terminator lies strictly beyond the start, in bounds.
pub proof fn lemma_comment_end_bounds(s: Seq<char>, i: int)
    requires
        0 <= i,
    ensures
        comment_end(s, i) matches Some(e) ==> i < e <= s.len(),
    decreases s.len() - i,
{
    if i + 3 <= s.len() && !(s[i] == '-' && s[i + 1] == '-' && s[i + 2] == '>') {
        lemma_comment_end_bounds(s, i + 1);
    }
}

pub(crate) fn comment_end_exec(s: &str, from: usize, n: usize) -> (r: Option<usize>)
    requires
        n == s@.len(),
        from <= n,
    ensures
        match r {
            Some(e) => comment_end(s@, from as int) == Some(e as int) && from < e <= n,
            None => comment_end(s@, from as int) is None,
        },
{
    let mut i = from;
    loop
        invariant
            n == s@.len(),
            from <= i <= n,
            comment_end(s@, from as int) == comment_end(s@, i as int),
        decreases n - i,
    {
        if n - i < 3 {
            assert(comment_end(s@, i as int) is None);
            return None;
        }
        if s.get_char(i) == '-' && s.get_char(i + 1) == '-' && s.get_char(i + 2) == '>' {
            assert(comment_end(s@, i as int) == Some(i + 3 as int));
            return Some(i + 3);
        }
        assert(comment_end(s@, i as int) == comment_end(s@, (i + 1) as int));
        i += 1;
    }
}

} // verus!
