//! Canonical-URL resolution for GitHub Pages: parsing the date-prefixed
//! file name, extracting the pages host from the git remote URL, and
//! filling the post's canonical URL and date when the author left them
//! unset.  Locating the repository and reading the remote is filesystem
//! and git work and stays outside the library.

use vstd::prelude::*;

use crate::Error;
use crate::post::Post;
use crate::strutil::{dec_str, pad2_str, u64_to_string, u64_to_padded2};

verus! {

/// The decimal value of a digit character, or -1.
pub open spec fn digit_val(c: char) -> int {
    if '0' <= c <= '9' {
        c as int - '0' as int
    } else {
        -1
    }
}

/// Whether `c` is a decimal digit.
pub open spec fn is_digit(c: char) -> bool {
    digit_val(c) >= 0
}

/// The last position at or before `i` holding `c`, if any.
pub open spec fn last_char_from(s: Seq<char>, i: int, c: char) -> Option<int>
    decreases i + 1,
{
    if i < 0 {
        None
    } else if i < s.len() && s[i] == c {
        Some(i)
    } else {
        last_char_from(s, i - 1, c)
    }
}

/// The file name part of a path: everything after the last slash.
pub open spec fn base_start(s: Seq<char>) -> int {
    match last_char_from(s, s.len() - 1, '/') {
        Some(i) => i + 1,
        None => 0,
    }
}

/// The stem of the file name `b`: everything before the last dot, unless
/// the only dot leads the name.
pub open spec fn stem_of(b: Seq<char>) -> Seq<char> {
    match last_char_from(b, b.len() - 1, '.') {
        Some(i) => if i > 0 {
            b.take(i)
        } else {
            b
        },
        None => b,
    }
}

/// The stem of the path: file name, extension removed.
pub open spec fn path_stem(s: Seq<char>) -> Seq<char> {
    stem_of(s.subrange(base_start(s), s.len() as int))
}

/// A one-or-two digit group followed by a dash, greedily preferring two
/// digits: its value and the position after the dash.
pub open spec fn two_digit_part(s: Seq<char>, j: int) -> Option<(int, int)> {
    if 0 <= j && j + 2 < s.len() && is_digit(s[j]) && is_digit(s[j + 1]) && s[j + 2] == '-' {
        Some((10 * digit_val(s[j]) + digit_val(s[j + 1]), j + 3))
    } else if 0 <= j && j + 1 < s.len() && is_digit(s[j]) && s[j + 1] == '-' {
        Some((digit_val(s[j]), j + 2))
    } else {
        None
    }
}

/// The date pattern matched at position `i`: four year digits, a dash,
/// one or two month digits, a dash, one or two day digits, a dash, then
/// the name (the rest of the stem).  Yields year, month, day, and where
/// the name begins.
pub open spec fn date_match_at(s: Seq<char>, i: int) -> Option<(int, int, int, int)> {
    if 0 <= i && i + 4 < s.len() && is_digit(s[i]) && is_digit(s[i + 1]) && is_digit(s[i + 2])
        && is_digit(s[i + 3]) && s[i + 4] == '-' {
        let year = 1000 * digit_val(s[i]) + 100 * digit_val(s[i + 1]) + 10 * digit_val(s[i + 2])
            + digit_val(s[i + 3]);
        match two_digit_part(s, i + 5) {
            Some((month, j)) => match two_digit_part(s, j) {
                Some((day, k)) => Some((year, month, day, k)),
                None => None,
            },
            None => None,
        }
    } else {
        None
    }
}

/// The leftmost date match in the stem, if any.
pub open spec fn first_date_match(s: Seq<char>, i: int) -> Option<(int, int, int, int)>
    decreases s.len() - i,
{
    if i >= s.len() || i < 0 {
        None
    } else {
        match date_match_at(s, i) {
            Some(t) => Some(t),
            None => first_date_match(s, i + 1),
        }
    }
}

/// The parts of a date-prefixed file name such as those Jekyll posts use.
#[derive(Clone, Debug, PartialEq, Eq)]
pub struct FilenameParts {
    pub year: u32,
    pub month: u32,
    pub day: u32,
    pub name: String,
}

fn digit_val_exec(c: char) -> (r: i32)
    ensures
        r as int == digit_val(c),
{
    if '0' <= c && c <= '9' {
        (c as u32 as i32) - ('0' as u32 as i32)
    } else {
        -1
    }
}

fn last_char_exec(s: &str, below: usize, n: usize, c: char) -> (r: Option<usize>)
    requires
        n == s@.len(),
        below <= n,
    ensures
        match r {
            Some(i) => last_char_from(s@, below - 1, c) == Some(i as int) && i < below,
            None => last_char_from(s@, below - 1, c) is None,
        },
{
    let mut i = below;
    loop
        invariant
            n == s@.len(),
            i <= below <= n,
            last_char_from(s@, below - 1, c) == last_char_from(s@, i - 1, c),
        decreases i,
    {
        if i == 0 {
            return None;
        }
        if s.get_char(i - 1) == c {
            return Some(i - 1);
        }
        assert(last_char_from(s@, i - 1, c) == last_char_from(s@, i - 2, c));
        i -= 1;
    }
}

fn two_digit_part_exec(s: &str, j: usize, n: usize) -> (r: Option<(u32, usize)>)
    requires
        n == s@.len(),
        j <= n,
    ensures
        match r {
            Some(p) => two_digit_part(s@, j as int) == Some((p.0 as int, p.1 as int)) && p.1 <= n,
            None => two_digit_part(s@, j as int) is None,
        },
{
    if n - j > 2 {
        let d0 = digit_val_exec(s.get_char(j));
        let d1 = digit_val_exec(s.get_char(j + 1));
        if d0 >= 0 && d1 >= 0 && s.get_char(j + 2) == '-' {
            return Some(((10 * d0 + d1) as u32, j + 3));
        }
    }
    if n - j > 1 {
        let d0 = digit_val_exec(s.get_char(j));
        if d0 >= 0 && s.get_char(j + 1) == '-' {
            return Some((d0 as u32, j + 2));
        }
    }
    None
}

fn date_match_exec(s: &str, i: usize, n: usize) -> (r: Option<(u32, u32, u32, usize)>)
    requires
        n == s@.len(),
        i <= n,
    ensures
        match r {
            Some(t) => date_match_at(s@, i as int) == Some(
                (t.0 as int, t.1 as int, t.2 as int, t.3 as int),
            ) && t.3 <= n,
            None => date_match_at(s@, i as int) is None,
        },
{
    if n - i > 4 {
        let y0 = digit_val_exec(s.get_char(i));
        let y1 = digit_val_exec(s.get_char(i + 1));
        let y2 = digit_val_exec(s.get_char(i + 2));
        let y3 = digit_val_exec(s.get_char(i + 3));
        if y0 >= 0 && y1 >= 0 && y2 >= 0 && y3 >= 0 && s.get_char(i + 4) == '-' {
            let year = (1000 * y0 + 100 * y1 + 10 * y2 + y3) as u32;
            if let Some((month, j)) = two_digit_part_exec(s, i + 5, n) {
                if let Some((day, k)) = two_digit_part_exec(s, j, n) {
                    return Some((year, month, day, k));
                }
            }
            return None;
        }
    }
    None
}

/// Parses a path whose file name has the form `YYYY-M-D-name.ext`, with
/// one- or two-digit month and day accepted; any other name fails with
/// `BadPath`.  The extension is ignored, and the date pattern is found at
/// the leftmost position of the stem that matches.
pub fn parse_filename(path: &str) -> (r: Result<FilenameParts, Error>)
    ensures
        match first_date_match(path_stem(path@), 0) {
            Some(t) => r matches Ok(p) && p.year == t.0 && p.month == t.1 && p.day == t.2
                && p.name@ == path_stem(path@).subrange(t.3, path_stem(path@).len() as int),
            None => r matches Err(Error::BadPath { expected, found }) && expected@
                == "YYYY-MM-DD-name.ext"@ && found@ == path@,
        },
{
    let n = path.unicode_len();
    let start = match last_char_exec(path, n, n, '/') {
        Some(i) => i + 1,
        None => 0,
    };
    let base = path.substring_char(start, n);
    let bn = n - start;
    proof {
        assert(base@ == path@.subrange(base_start(path@), path@.len() as int));
    }
    let sn = match last_char_exec(base, bn, bn, '.') {
        Some(i) => if i > 0 {
            i
        } else {
            bn
        },
        None => bn,
    };
    let stem = base.substring_char(0, sn);
    proof {
        assert(stem@ =~= path_stem(path@));
    }
    let mut i: usize = 0;
    while i < sn
        invariant
            sn == stem@.len(),
            i <= sn,
            stem@ == path_stem(path@),
            forall|j: int| 0 <= j < i ==> #[trigger] date_match_at(stem@, j) is None,
        decreases sn - i,
    {
        if let Some((year, month, day, k)) = date_match_exec(stem, i, sn) {
            proof {
                lemma_first_date_match_here(stem@, 0, i as int);
            }
            let name = stem.substring_char(k, sn).to_owned();
            return Ok(FilenameParts { year, month, day, name });
        }
        i += 1;
    }
    proof {
        lemma_first_date_match_none(stem@);
    }
    Err(
        Error::BadPath {
            expected: String::from_str("YYYY-MM-DD-name.ext"),
            found: path.to_owned(),
        },
    )
}

proof fn lemma_first_date_match_here(s: Seq<char>, i: int, d: int)
    requires
        0 <= i <= d < s.len(),
        date_match_at(s, d) is Some,
        forall|j: int| 0 <= j < d ==> #[trigger] date_match_at(s, j) is None,
    ensures
        first_date_match(s, i) == date_match_at(s, d),
    decreases d - i,
{
    if i < d {
        lemma_first_date_match_here(s, i + 1, d);
    }
}

proof fn lemma_first_date_match_none(s: Seq<char>)
    requires
        forall|j: int| 0 <= j < s.len() ==> #[trigger] date_match_at(s, j) is None,
    ensures
        first_date_match(s, 0) is None,
{
    lemma_first_date_match_none_from(s, 0);
}

proof fn lemma_first_date_match_none_from(s: Seq<char>, i: int)
    requires
        forall|j: int| 0 <= j < s.len() ==> #[trigger] date_match_at(s, j) is None,
        0 <= i,
    ensures
        first_date_match(s, i) is None,
    decreases s.len() - i,
{
    if i < s.len() {
        lemma_first_date_match_none_from(s, i + 1);
    }
}

// ---------------------------------------------------------------------------
// Pages host extraction and canonical-URL formatting.
// ---------------------------------------------------------------------------

/// A `.github.io` marker starts at position `i`.
pub open spec fn host_marker_at(s: Seq<char>, i: int) -> bool {
    &&& 0 <= i
    &&& i + 10 <= s.len()
    &&& s.subrange(i, i + 10) == ".github.io"@
}

/// The start of the last `.github.io` marker at or before `i`, if any.
pub open spec fn last_marker_from(s: Seq<char>, i: int) -> Option<int>
    decreases i + 1,
{
    if i < 0 {
        None
    } else if host_marker_at(s, i) {
        Some(i)
    } else {
        last_marker_from(s, i - 1)
    }
}

/// The pages host inside a remote URL: the text between the last slash
/// preceding the last `.github.io` marker and the end of that marker.
pub open spec fn pages_host_spec(s: Seq<char>) -> Option<Seq<char>> {
    match last_marker_from(s, s.len() - 10) {
        None => None,
        Some(o) => match last_char_from(s, o - 1, '/') {
            None => None,
            Some(j) => Some(s.subrange(j + 1, o + 10)),
        },
    }
}

fn host_marker_exec(s: &str, i: usize, n: usize) -> (r: bool)
    requires
        n == s@.len(),
        i + 10 <= n,
    ensures
        r == host_marker_at(s@, i as int),
{
    proof {
        reveal_strlit(".github.io");
    }
    let r = s.get_char(i) == '.' && s.get_char(i + 1) == 'g' && s.get_char(i + 2) == 'i'
        && s.get_char(i + 3) == 't' && s.get_char(i + 4) == 'h' && s.get_char(i + 5) == 'u'
        && s.get_char(i + 6) == 'b' && s.get_char(i + 7) == '.' && s.get_char(i + 8) == 'i'
        && s.get_char(i + 9) == 'o';
    proof {
        let sub = s@.subrange(i as int, i + 10);
        if r {
            assert(sub =~= ".github.io"@);
        } else {
            if sub == ".github.io"@ {
                assert(s@[i as int] == sub[0] && s@[i + 1] == sub[1] && s@[i + 2] == sub[2] && s@[i
                    + 3] == sub[3] && s@[i + 4] == sub[4] && s@[i + 5] == sub[5] && s@[i + 6]
                    == sub[6] && s@[i + 7] == sub[7] && s@[i + 8] == sub[8] && s@[i + 9] == sub[9]);
            }
        }
    }
    r
}

fn last_marker_exec(s: &str, n: usize) -> (r: Option<usize>)
    requires
        n == s@.len(),
        n >= 10,
    ensures
        match r {
            Some(i) => last_marker_from(s@, (n - 10) as int) == Some(i as int) && i + 10 <= n,
            None => last_marker_from(s@, (n - 10) as int) is None,
        },
{
    let mut i: usize = n - 10;
    loop
        invariant
            n == s@.len(),
            n >= 10,
            i <= n - 10,
            last_marker_from(s@, (n - 10) as int) == last_marker_from(s@, i as int),
        decreases i + 1,
    {
        if host_marker_exec(s, i, n) {
            assert(last_marker_from(s@, i as int) == Some(i as int));
            return Some(i);
        }
        assert(last_marker_from(s@, i as int) == last_marker_from(s@, i - 1));
        if i == 0 {
            assert(last_marker_from(s@, -1int) is None);
            return None;
        }
        i -= 1;
    }
}

/// Finds the pages host in the configured remote's URL — the trailing
/// `owner/host.github.io[.git]` segment — or fails with `NotFound`.
pub fn pages_host(remote_url: &String) -> (r: Result<String, Error>)
    ensures
        match pages_host_spec(remote_url@) {
            Some(h) => r matches Ok(s) && s@ == h,
            None => r matches Err(Error::NotFound { expected }) && expected@
                == "repo/repo.github.io.git"@,
        },
{
    let s = remote_url.as_str();
    let n = s.unicode_len();
    if n < 10 {
        proof {
            assert(last_marker_from(s@, s@.len() - 10) is None);
        }
        return Err(Error::NotFound { expected: String::from_str("repo/repo.github.io.git") });
    }
    let marker = match last_marker_exec(s, n) {
        Some(m) => m,
        None => {
            return Err(Error::NotFound { expected: String::from_str("repo/repo.github.io.git") });
        },
    };
    let slash = match last_char_exec(s, marker, n, '/') {
        Some(j) => j,
        None => {
            return Err(Error::NotFound { expected: String::from_str("repo/repo.github.io.git") });
        },
    };
    Ok(s.substring_char(slash + 1, marker + 10).to_owned())
}

/// The canonical URL of a dated pages post:
/// `https://{host}/{YYYY}/{MM}/{DD}/{name}.html`, month and day
/// zero-padded to two digits.
pub open spec fn canonical_url_of(
    host: Seq<char>,
    year: int,
    month: int,
    day: int,
    name: Seq<char>,
) -> Seq<char> {
    "https://"@ + host + "/"@ + dec_str(year) + "/"@ + pad2_str(month) + "/"@ + pad2_str(day)
        + "/"@ + name + ".html"@
}

/// Formats the canonical URL for a dated post on the pages host.
pub fn format_canonical_url(host: &String, parts: &FilenameParts) -> (r: String)
    ensures
        r@ == canonical_url_of(
            host@,
            parts.year as int,
            parts.month as int,
            parts.day as int,
            parts.name@,
        ),
{
    let mut out = String::from_str("https://");
    out.append(host.as_str());
    out.append("/");
    let y = u64_to_string(parts.year as u64);
    out.append(y.as_str());
    out.append("/");
    let m = u64_to_padded2(parts.month as u64);
    out.append(m.as_str());
    out.append("/");
    let d = u64_to_padded2(parts.day as u64);
    out.append(d.as_str());
    out.append("/");
    out.append(parts.name.as_str());
    out.append(".html");
    out
}

/// The `YYYY-MM-DD` date of the parts, month and day zero-padded.
pub open spec fn date_of(year: int, month: int, day: int) -> Seq<char> {
    dec_str(year) + "-"@ + pad2_str(month) + "-"@ + pad2_str(day)
}

/// Formats the post date from the file name parts.
pub fn format_date(parts: &FilenameParts) -> (r: String)
    ensures
        r@ == date_of(parts.year as int, parts.month as int, parts.day as int),
{
    let mut out = u64_to_string(parts.year as u64);
    out.append("-");
    let m = u64_to_padded2(parts.month as u64);
    out.append(m.as_str());
    out.append("-");
    let d = u64_to_padded2(parts.day as u64);
    out.append(d.as_str());
    out
}

/// Fills the post's canonical URL and date from the pages host and the
/// parsed file name — but only where the author left them unset; values
/// already present are never overwritten.
pub fn fill_from_pages(post: &mut Post, host: &String, parts: &FilenameParts)
    ensures
        old(post).front_matter.canonical_url is Some ==> final(post).front_matter.canonical_url
            == old(post).front_matter.canonical_url,
        old(post).front_matter.canonical_url is None ==> (final(post).front_matter.canonical_url matches Some(u) &&
            u@ == canonical_url_of(
            host@,
            parts.year as int,
            parts.month as int,
            parts.day as int,
            parts.name@,
        )),
        old(post).front_matter.date is Some ==> final(post).front_matter.date == old(
            post,
        ).front_matter.date,
        old(post).front_matter.date is None ==> (final(post).front_matter.date matches Some(d)
            && d@ == date_of(parts.year as int, parts.month as int, parts.day as int)),
        final(post).front_matter.title == old(post).front_matter.title,
        final(post).front_matter.slug == old(post).front_matter.slug,
        final(post).front_matter.published == old(post).front_matter.published,
        final(post).front_matter.tags == old(post).front_matter.tags,
        final(post).front_matter.series == old(post).front_matter.series,
        final(post).body == old(post).body,
        final(post).path == old(post).path,
{
    if post.front_matter.canonical_url.is_none() {
        post.front_matter.canonical_url = Some(format_canonical_url(host, parts));
    }
    if post.front_matter.date.is_none() {
        post.front_matter.date = Some(format_date(parts));
    }
}

} // verus!
