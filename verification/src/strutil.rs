//! Small string helpers shared across the library: verified decimal
//! rendering, comma-joining, and trusted wrappers for outside string
//! transformations (slugs, lower-casing).

use vstd::prelude::*;

verus! {

/// What `slug::slugify` returns for a given character sequence; the result
/// depends on the input alone.
pub uninterp spec fn slug_of(s: Seq<char>) -> Seq<char>;

/// Relies on `slug::slugify`: turns arbitrary text into a URL-safe slug.
/// The result is a pure function of the input characters.
#[verifier::external_body]
pub(crate) fn slugify(s: &str) -> (r: String)
    ensures
        r@ == slug_of(s@),
{
    slug::slugify(s)
}

/// What `str::to_lowercase` returns for a given character sequence; the
/// result depends on the input alone.
pub uninterp spec fn lower_of(s: Seq<char>) -> Seq<char>;

/// Relies on `str::to_lowercase`: Unicode-aware lower-casing.
#[verifier::external_body]
pub(crate) fn lowercase(s: &str) -> (r: String)
    ensures
        r@ == lower_of(s@),
{
    s.to_lowercase()
}

/// Relies on `String`'s `FromIterator<char>` implementation: collects the
/// characters into a string whose view is exactly the vector's view.
#[verifier::external_body]
pub(crate) fn string_from_chars(v: &Vec<char>) -> (r: String)
    ensures
        r@ == v@,
{
    v.iter().collect()
}

/// The decimal digit character for a value below ten.
pub open spec fn dec_digit(d: int) -> char {
    if d == 0 {
        '0'
    } else if d == 1 {
        '1'
    } else if d == 2 {
        '2'
    } else if d == 3 {
        '3'
    } else if d == 4 {
        '4'
    } else if d == 5 {
        '5'
    } else if d == 6 {
        '6'
    } else if d == 7 {
        '7'
    } else if d == 8 {
        '8'
    } else {
        '9'
    }
}

/// The usual decimal rendering of a non-negative integer, most significant
/// digit first, with no leading zeroes (except for zero itself).
pub open spec fn dec_str(n: int) -> Seq<char>
    decreases n,
{
    if n < 10 {
        seq![dec_digit(n)]
    } else {
        dec_str(n / 10).push(dec_digit(n % 10))
    }
}

/// Two-digit zero-padded rendering used for months and days in canonical
/// URLs and dates.
pub open spec fn pad2_str(n: int) -> Seq<char> {
    if n < 10 {
        seq!['0'].push(dec_digit(n))
    } else {
        dec_str(n)
    }
}

fn dec_digit_exec(d: u64) -> (c: char)
    requires
        d < 10,
    ensures
        c == dec_digit(d as int),
{
    if d == 0 {
        '0'
    } else if d == 1 {
        '1'
    } else if d == 2 {
        '2'
    } else if d == 3 {
        '3'
    } else if d == 4 {
        '4'
    } else if d == 5 {
        '5'
    } else if d == 6 {
        '6'
    } else if d == 7 {
        '7'
    } else if d == 8 {
        '8'
    } else {
        '9'
    }
}

fn push_dec(n: u64, out: &mut Vec<char>)
    ensures
        final(out)@ == old(out)@ + dec_str(n as int),
    decreases n,
{
    if n >= 10 {
        push_dec(n / 10, out);
    }
    let d = dec_digit_exec(n % 10);
    out.push(d);
    proof {
        if n < 10 {
            assert(dec_str(n as int) == seq![dec_digit(n as int)]);
            assert(final(out)@ =~= old(out)@ + dec_str(n as int));
        } else {
            assert(final(out)@ =~= old(out)@ + dec_str(n as int));
        }
    }
}

/// Renders an unsigned integer in decimal, as `ToString` would.
pub fn u64_to_string(n: u64) -> (r: String)
    ensures
        r@ == dec_str(n as int),
{
    let mut digits: Vec<char> = Vec::new();
    push_dec(n, &mut digits);
    assert(digits@ =~= dec_str(n as int));
    string_from_chars(&digits)
}

/// Renders an integer in decimal, zero-padded on the left to two digits.
pub fn u64_to_padded2(n: u64) -> (r: String)
    ensures
        r@ == pad2_str(n as int),
{
    let mut digits: Vec<char> = Vec::new();
    if n < 10 {
        digits.push('0');
        let d = dec_digit_exec(n);
        digits.push(d);
        assert(digits@ =~= pad2_str(n as int));
    } else {
        push_dec(n, &mut digits);
        assert(digits@ =~= pad2_str(n as int));
    }
    string_from_chars(&digits)
}

/// The comma-joined rendering of a sequence of strings, in order.
pub open spec fn join_comma(parts: Seq<Seq<char>>) -> Seq<char>
    decreases parts.len(),
{
    if parts.len() == 0 {
        Seq::empty()
    } else if parts.len() == 1 {
        parts[0]
    } else {
        join_comma(parts.drop_last()) + seq![','] + parts.last()
    }
}

/// The views of every string in a vector, in order.
pub open spec fn seq_views(parts: Seq<String>) -> Seq<Seq<char>> {
    parts.map_values(|p: String| p@)
}

/// Joins strings with commas, as the platform APIs expect tag lists.
pub fn join_with_commas(parts: &Vec<String>) -> (r: String)
    ensures
        r@ == join_comma(seq_views(parts@)),
{
    let mut out = String::new();
    let mut i: usize = 0;
    while i < parts.len()
        invariant
            i <= parts@.len(),
            out@ == join_comma(seq_views(parts@).take(i as int)),
        decreases parts@.len() - i,
    {
        if i > 0 {
            out.append(",");
            proof {
                reveal_strlit(",");
            }
        }
        out.append(parts[i].as_str());
        proof {
            let views = seq_views(parts@);
            assert(views.take(i + 1).drop_last() =~= views.take(i as int));
            assert(views.take(i + 1).last() == parts@[i as int]@);
            if i == 0 {
                assert(join_comma(views.take(1)) == views[0]);
            }
        }
        i += 1;
    }
    proof {
        assert(seq_views(parts@).take(parts@.len() as int) =~= seq_views(parts@));
    }
    out
}

/// The first position at or after `i` holding `c`, or the length.
pub open spec fn first_index_from(s: Seq<char>, i: int, c: char) -> int
    decreases s.len() - i,
{
    if i >= s.len() {
        s.len() as int
    } else if 0 <= i && s[i] == c {
        i
    } else {
        first_index_from(s, i + 1, c)
    }
}

/// Position bounds of `first_index_from`.
pub proof fn lemma_first_index_bounds(s: Seq<char>, i: int, c: char)
    requires
        0 <= i <= s.len(),
    ensures
        i <= first_index_from(s, i, c) <= s.len(),
    decreases s.len() - i,
{
    if i < s.len() && s[i] != c {
        lemma_first_index_bounds(s, i + 1, c);
    }
}

pub(crate) fn find_char_exec(s: &str, from: usize, n: usize, c: char) -> (r: usize)
    requires
        n == s@.len(),
        from <= n,
    ensures
        r == first_index_from(s@, from as int, c),
        from <= r <= n,
        r < n ==> s@[r as int] == c,
{
    let mut i = from;
    loop
        invariant
            n == s@.len(),
            from <= i <= n,
            first_index_from(s@, from as int, c) == first_index_from(s@, i as int, c),
        decreases n - i,
    {
        if i >= n {
            return i;
        }
        if s.get_char(i) == c {
            return i;
        }
        assert(first_index_from(s@, i as int, c) == first_index_from(s@, (i + 1) as int, c));
        i += 1;
    }
}

/// The views of a vector of string pairs.
pub open spec fn pair_views(v: Seq<(String, String)>) -> Seq<(Seq<char>, Seq<char>)> {
    v.map_values(|p: (String, String)| (p.0@, p.1@))
}

/// An optional string carries exactly an optional named field.
pub open spec fn matches_opt_str(v: Option<String>, c: Option<Seq<char>>) -> bool {
    match (v, c) {
        (Some(s), Some(cs)) => s@ == cs,
        (None, None) => true,
        _ => false,
    }
}

/// An optional string list carries exactly an optional named field.
pub open spec fn matches_opt_list(v: Option<Vec<String>>, c: Option<Seq<Seq<char>>>) -> bool {
    match (v, c) {
        (Some(ts), Some(cs)) => seq_views(ts@) == cs,
        (None, None) => true,
        _ => false,
    }
}

} // verus!
