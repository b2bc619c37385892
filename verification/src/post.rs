//! The Post model: parsing and serializing the two-part document format
//! (YAML front-matter, then a Markdown body, separated by lines of two or
//! more dashes).  The delimiter grammar is the library's own and is fully
//! verified; the YAML inside the front-matter section is delegated to
//! `serde_yaml` behind the trusted items in `yaml.rs`.

use vstd::prelude::*;

use crate::Error;
use crate::settings::Settings;
use crate::strutil::{matches_opt_list, matches_opt_str, seq_views, slug_of, slugify};
use crate::yaml;
use crate::yaml::{
    YamlScalar, YamlValue, entry_views, yaml_bool_field, yaml_list_field, yaml_parses,
    yaml_render_of, yaml_renders, yaml_str_field,
};

verus! {

/// Unicode whitespace, as the delimiter grammar understands it:
/// whitespace after a dash run belongs to the delimiter.
pub open spec fn is_space(c: char) -> bool {
    c == ' ' || c == '\t' || c == '\n' || c == '\r' || c == '\u{b}' || c == '\u{c}' || c
        == '\u{85}' || c == '\u{a0}' || c == '\u{1680}' || ('\u{2000}' <= c && c <= '\u{200a}')
        || c == '\u{2028}' || c == '\u{2029}' || c == '\u{202f}' || c == '\u{205f}' || c
        == '\u{3000}'
}

/// Position `i` begins a line of `s`.
pub open spec fn line_start(s: Seq<char>, i: int) -> bool {
    i == 0 || s[i - 1] == '\n'
}

/// Position `i` begins a front-matter delimiter: a line starting with at
/// least two dashes.
pub open spec fn delim_at(s: Seq<char>, i: int) -> bool {
    &&& 0 <= i
    &&& i + 2 <= s.len()
    &&& line_start(s, i)
    &&& s[i] == '-'
    &&& s[i + 1] == '-'
}

/// The first delimiter position at or after `i`, if any.
pub open spec fn find_delim(s: Seq<char>, i: int) -> Option<int>
    decreases s.len() - i,
{
    if i + 2 > s.len() {
        None
    } else if delim_at(s, i) {
        Some(i)
    } else {
        find_delim(s, i + 1)
    }
}

/// The end of a maximal dash run starting at `i`.
pub open spec fn skip_dashes(s: Seq<char>, i: int) -> int
    decreases s.len() - i,
{
    if 0 <= i && i < s.len() && s[i] == '-' {
        skip_dashes(s, i + 1)
    } else {
        i
    }
}

/// The end of a maximal whitespace run starting at `i`.
pub open spec fn skip_spaces(s: Seq<char>, i: int) -> int
    decreases s.len() - i,
{
    if 0 <= i && i < s.len() && is_space(s[i]) {
        skip_spaces(s, i + 1)
    } else {
        i
    }
}

/// Where the delimiter match starting at `i` ends: the dash run, then any
/// trailing whitespace, which may span line breaks.
pub open spec fn delim_end(s: Seq<char>, i: int) -> int {
    skip_spaces(s, skip_dashes(s, i))
}

/// The outcome of splitting a document at its first two delimiters.
pub enum Split {
    /// No delimiter at all: the document has no front-matter section.
    NoFrontMatter,
    /// Exactly one delimiter: the document has no body section.
    NoBody,
    /// Both delimiters found: the text between them, and the remainder.
    Parts { front: Seq<char>, body: Seq<char> },
}

/// Splits a document at its first two delimiters.  Only those two take
/// part in the split: the body is the remainder verbatim, so dash lines
/// inside fenced code blocks or tables are never mistaken for boundaries.
pub open spec fn split_doc(s: Seq<char>) -> Split {
    match find_delim(s, 0) {
        Option::None => Split::NoFrontMatter,
        Option::Some(d1) => {
            let e1 = delim_end(s, d1);
            match find_delim(s, e1) {
                Option::None => Split::NoBody,
                Option::Some(d2) => Split::Parts {
                    front: s.subrange(e1, d2),
                    body: s.subrange(delim_end(s, d2), s.len() as int),
                },
            }
        },
    }
}

pub(crate) fn is_space_exec(c: char) -> (r: bool)
    ensures
        r == is_space(c),
{
    c == ' ' || c == '\t' || c == '\n' || c == '\r' || c == '\u{b}' || c == '\u{c}' || c
        == '\u{85}' || c == '\u{a0}' || c == '\u{1680}' || ('\u{2000}' <= c && c <= '\u{200a}')
        || c == '\u{2028}' || c == '\u{2029}' || c == '\u{202f}' || c == '\u{205f}' || c
        == '\u{3000}'
}

fn find_delim_exec(s: &str, from: usize, n: usize) -> (r: Option<usize>)
    requires
        n == s@.len(),
        from <= n,
    ensures
        match r {
            Some(i) => find_delim(s@, from as int) == Some(i as int) && from <= i && i + 2 <= n,
            None => find_delim(s@, from as int) is None,
        },
{
    let mut i = from;
    loop
        invariant
            n == s@.len(),
            from <= i <= n,
            find_delim(s@, from as int) == find_delim(s@, i as int),
        decreases n - i,
    {
        if i >= n || i + 1 >= n {
            assert(find_delim(s@, i as int) is None);
            return None;
        }
        let ls = i == 0 || s.get_char(i - 1) == '\n';
        if ls && s.get_char(i) == '-' && s.get_char(i + 1) == '-' {
            assert(delim_at(s@, i as int));
            return Some(i);
        }
        assert(!delim_at(s@, i as int));
        assert(find_delim(s@, i as int) == find_delim(s@, (i + 1) as int));
        i += 1;
    }
}

fn skip_dashes_exec(s: &str, from: usize, n: usize) -> (r: usize)
    requires
        n == s@.len(),
        from <= n,
    ensures
        r == skip_dashes(s@, from as int),
        from <= r <= n,
{
    let mut i = from;
    loop
        invariant
            n == s@.len(),
            from <= i <= n,
            skip_dashes(s@, from as int) == skip_dashes(s@, i as int),
        decreases n - i,
    {
        if i < n && s.get_char(i) == '-' {
            assert(skip_dashes(s@, i as int) == skip_dashes(s@, (i + 1) as int));
            i += 1;
        } else {
            assert(skip_dashes(s@, i as int) == i as int);
            return i;
        }
    }
}

pub(crate) fn skip_spaces_exec(s: &str, from: usize, n: usize) -> (r: usize)
    requires
        n == s@.len(),
        from <= n,
    ensures
        r == skip_spaces(s@, from as int),
        from <= r <= n,
{
    let mut i = from;
    loop
        invariant
            n == s@.len(),
            from <= i <= n,
            skip_spaces(s@, from as int) == skip_spaces(s@, i as int),
        decreases n - i,
    {
        if i < n && is_space_exec(s.get_char(i)) {
            assert(skip_spaces(s@, i as int) == skip_spaces(s@, (i + 1) as int));
            i += 1;
        } else {
            assert(skip_spaces(s@, i as int) == i as int);
            return i;
        }
    }
}

fn no_front_matter_error() -> (r: Error)
    ensures
        r matches Error::BadFormat { thing } && thing@ == "no front-matter"@,
{
    Error::BadFormat { thing: String::from_str("no front-matter") }
}

fn no_body_error() -> (r: Error)
    ensures
        r matches Error::BadFormat { thing } && thing@ == "no body"@,
{
    Error::BadFormat { thing: String::from_str("no body") }
}

/// Splits a document into its front-matter text and its body.  Fails with
/// `BadFormat` when either section is absent, an empty front-matter
/// section and an empty body included.
pub fn split_document(s: &str) -> (r: Result<(String, String), Error>)
    ensures
        match split_doc(s@) {
            Split::NoFrontMatter => r matches Err(Error::BadFormat { thing }) && thing@
                == "no front-matter"@,
            Split::NoBody => r matches Err(Error::BadFormat { thing }) && thing@ == "no body"@,
            Split::Parts { front, body } => {
                if front.len() == 0 {
                    r matches Err(Error::BadFormat { thing }) && thing@ == "no front-matter"@
                } else if body.len() == 0 {
                    r matches Err(Error::BadFormat { thing }) && thing@ == "no body"@
                } else {
                    r matches Ok(p) && p.0@ == front && p.1@ == body
                }
            },
        },
{
    let n = s.unicode_len();
    let d1 = match find_delim_exec(s, 0, n) {
        Some(d) => d,
        None => {
            return Err(no_front_matter_error());
        },
    };
    let e1 = skip_spaces_exec(s, skip_dashes_exec(s, d1, n), n);
    let d2 = match find_delim_exec(s, e1, n) {
        Some(d) => d,
        None => {
            return Err(no_body_error());
        },
    };
    let e2 = skip_spaces_exec(s, skip_dashes_exec(s, d2, n), n);
    if e1 == d2 {
        return Err(no_front_matter_error());
    }
    if e2 == n {
        return Err(no_body_error());
    }
    let front = s.substring_char(e1, d2).to_owned();
    let body = s.substring_char(e2, n).to_owned();
    Ok((front, body))
}

/// The YAML front-matter of a post.  Unknown fields of the source document
/// are ignored; `slug` and `published` are always filled after parsing.
#[derive(Clone, Debug, Default)]
pub struct FrontMatter {
    pub title: String,
    pub canonical_url: Option<String>,
    pub date: Option<String>,
    pub description: Option<String>,
    pub layout: Option<String>,
    pub permalink: Option<String>,
    pub published: Option<bool>,
    pub series: Option<String>,
    pub slug: Option<String>,
    pub tags: Option<Vec<String>>,
}

impl FrontMatter {
    /// After parsing, `slug` and `published` are always set.
    pub open spec fn wf(&self) -> bool {
        &&& self.slug is Some
        &&& self.published is Some
    }

    /// Whether the post is published; an unset field defaults to true.
    pub open spec fn spec_published(&self) -> bool {
        match self.published {
            Some(b) => b,
            None => true,
        }
    }

    pub fn is_published(&self) -> (r: bool)
        ensures
            r == self.spec_published(),
    {
        match &self.published {
            Some(b) => *b,
            None => true,
        }
    }

    /// Builds a front-matter value from its parsed fields, applying the
    /// two defaults: an absent slug becomes the slugified title, and an
    /// absent published flag becomes true.
    pub fn with_defaults(
        title: String,
        canonical_url: Option<String>,
        date: Option<String>,
        description: Option<String>,
        layout: Option<String>,
        permalink: Option<String>,
        published: Option<bool>,
        series: Option<String>,
        slug: Option<String>,
        tags: Option<Vec<String>>,
    ) -> (r: FrontMatter)
        ensures
            r.title == title,
            r.canonical_url == canonical_url,
            r.date == date,
            r.description == description,
            r.layout == layout,
            r.permalink == permalink,
            r.series == series,
            r.tags == tags,
            published is Some ==> r.published == published,
            published is None ==> r.published == Some(true),
            slug is Some ==> r.slug == slug,
            slug is None ==> (r.slug matches Some(sl) && sl@ == slug_of(title@)),
            r.wf(),
    {
        let slug = match slug {
            Some(s) => Some(s),
            None => Some(slugify(title.as_str())),
        };
        let published = match published {
            Some(b) => Some(b),
            None => Some(true),
        };
        FrontMatter {
            title,
            canonical_url,
            date,
            description,
            layout,
            permalink,
            published,
            series,
            slug,
            tags,
        }
    }

    /// Parses a front-matter section: the named fields serde_yaml reads
    /// from the text, with the defaults of `with_defaults` applied.  A key
    /// holding a value of another kind than its field expects counts as
    /// unset.  Fails with `BadString` when the text is not YAML and with
    /// `NotFound` when the title is missing; succeeds otherwise.
    pub fn new(text: &str) -> (r: Result<FrontMatter, Error>)
        ensures
            !yaml_parses(text@) ==> (r matches Err(Error::BadString { .. })),
            (yaml_parses(text@) && yaml_str_field(text@, "title"@) is None) ==> (r matches Err(
                Error::NotFound { expected },
            ) && expected@ == "title"@),
            (yaml_parses(text@) && yaml_str_field(text@, "title"@) is Some) ==> (r matches Ok(fm)
                && fm.wf() && fm_matches_fields(fm, text@)),
    {
        let title = match yaml::get_str_field(text, "title") {
            Err(msg) => {
                return Err(Error::BadString { expected: msg, found: text.to_owned() });
            },
            Ok(None) => {
                return Err(Error::NotFound { expected: String::from_str("title") });
            },
            Ok(Some(t)) => t,
        };
        let canonical_url = read_str(text, "canonical_url");
        let date = read_str(text, "date");
        let description = read_str(text, "description");
        let layout = read_str(text, "layout");
        let permalink = read_str(text, "permalink");
        let published = read_bool(text, "published");
        let series = read_str(text, "series");
        let slug = read_str(text, "slug");
        let tags = read_list(text, "tags");
        Ok(
            FrontMatter::with_defaults(
                title,
                canonical_url,
                date,
                description,
                layout,
                permalink,
                published,
                series,
                slug,
                tags,
            ),
        )
    }
}

/// The front-matter carries exactly the fields serde_yaml reads from the
/// section, the two defaults applied: an absent slug is the slugified
/// title and an absent published flag is true.
pub open spec fn fm_matches_fields(fm: FrontMatter, text: Seq<char>) -> bool {
    &&& yaml_str_field(text, "title"@) == Some(fm.title@)
    &&& matches_opt_str(fm.canonical_url, yaml_str_field(text, "canonical_url"@))
    &&& matches_opt_str(fm.date, yaml_str_field(text, "date"@))
    &&& matches_opt_str(fm.description, yaml_str_field(text, "description"@))
    &&& matches_opt_str(fm.layout, yaml_str_field(text, "layout"@))
    &&& matches_opt_str(fm.permalink, yaml_str_field(text, "permalink"@))
    &&& fm.published == Some(
        match yaml_bool_field(text, "published"@) {
            Some(b) => b,
            None => true,
        },
    )
    &&& (match yaml_str_field(text, "slug"@) {
        Some(sl) => fm.slug matches Some(s) && s@ == sl,
        None => fm.slug matches Some(s) && s@ == slug_of(fm.title@),
    })
    &&& matches_opt_list(fm.tags, yaml_list_field(text, "tags"@))
}

/// Reads an optional string field of a section already known to parse.
fn read_str(text: &str, key: &str) -> (r: Option<String>)
    requires
        yaml_parses(text@),
    ensures
        matches_opt_str(r, yaml_str_field(text@, key@)),
{
    match yaml::get_str_field(text, key) {
        Ok(v) => v,
        Err(_) => {
            proof {
                assert(false);
            }
            None
        },
    }
}

/// Reads an optional boolean field of a section already known to parse.
fn read_bool(text: &str, key: &str) -> (r: Option<bool>)
    requires
        yaml_parses(text@),
    ensures
        r == yaml_bool_field(text@, key@),
{
    match yaml::get_bool_field(text, key) {
        Ok(v) => v,
        Err(_) => {
            proof {
                assert(false);
            }
            None
        },
    }
}

/// Reads an optional string-list field of a section already known to
/// parse.
fn read_list(text: &str, key: &str) -> (r: Option<Vec<String>>)
    requires
        yaml_parses(text@),
    ensures
        matches_opt_list(r, yaml_list_field(text@, key@)),
{
    match yaml::get_list_field(text, key) {
        Ok(v) => v,
        Err(_) => {
            proof {
                assert(false);
            }
            None
        },
    }
}

/// A parsed post: front-matter, Markdown body, and the source path.
#[derive(Clone, Debug, Default)]
pub struct Post {
    pub front_matter: FrontMatter,
    pub body: String,
    pub path: String,
}

/// The optional-string entry a set field contributes.
pub open spec fn opt_str_entries(key: Seq<char>, v: Option<String>) -> Seq<(Seq<char>, YamlScalar)> {
    match v {
        Some(s) => seq![(key, YamlScalar::Str(s@))],
        None => Seq::empty(),
    }
}

/// The boolean entry a set field contributes.
pub open spec fn opt_bool_entries(key: Seq<char>, v: Option<bool>) -> Seq<(Seq<char>, YamlScalar)> {
    match v {
        Some(b) => seq![(key, YamlScalar::Bool(b))],
        None => Seq::empty(),
    }
}

/// The string-list entry a set field contributes.
pub open spec fn opt_list_entries(key: Seq<char>, v: Option<Vec<String>>) -> Seq<
    (Seq<char>, YamlScalar),
> {
    match v {
        Some(t) => seq![(key, YamlScalar::List(seq_views(t@)))],
        None => Seq::empty(),
    }
}

/// The mapping entries a front-matter serializes to: the title first,
/// then each set optional field under its key, in declaration order.
pub open spec fn fm_entry_list(fm: FrontMatter) -> Seq<(Seq<char>, YamlScalar)> {
    seq![("title"@, YamlScalar::Str(fm.title@))] + opt_str_entries(
        "canonical_url"@,
        fm.canonical_url,
    ) + opt_str_entries("date"@, fm.date) + opt_str_entries("description"@, fm.description)
        + opt_str_entries("layout"@, fm.layout) + opt_str_entries("permalink"@, fm.permalink)
        + opt_bool_entries("published"@, fm.published) + opt_str_entries("series"@, fm.series)
        + opt_str_entries("slug"@, fm.slug) + opt_list_entries("tags"@, fm.tags)
}

fn push_str_entry(out: &mut Vec<(String, YamlValue)>, key: &str, v: &Option<String>)
    ensures
        entry_views(final(out)@) == entry_views(old(out)@) + opt_str_entries(key@, *v),
{
    match v {
        Some(s) => {
            out.push((key.to_owned(), YamlValue::S(s.clone())));
            proof {
                assert(entry_views(out@) =~= entry_views(old(out)@) + opt_str_entries(key@, *v));
            }
        },
        None => {
            proof {
                assert(entry_views(out@) =~= entry_views(old(out)@) + opt_str_entries(key@, *v));
            }
        },
    }
}

fn push_bool_entry(out: &mut Vec<(String, YamlValue)>, key: &str, v: &Option<bool>)
    ensures
        entry_views(final(out)@) == entry_views(old(out)@) + opt_bool_entries(key@, *v),
{
    match v {
        Some(b) => {
            out.push((key.to_owned(), YamlValue::B(*b)));
            proof {
                assert(entry_views(out@) =~= entry_views(old(out)@) + opt_bool_entries(key@, *v));
            }
        },
        None => {
            proof {
                assert(entry_views(out@) =~= entry_views(old(out)@) + opt_bool_entries(key@, *v));
            }
        },
    }
}

fn push_list_entry(out: &mut Vec<(String, YamlValue)>, key: &str, v: &Option<Vec<String>>)
    ensures
        entry_views(final(out)@) == entry_views(old(out)@) + opt_list_entries(key@, *v),
{
    match v {
        Some(t) => {
            out.push((key.to_owned(), YamlValue::L(t.clone())));
            proof {
                assert(entry_views(out@) =~= entry_views(old(out)@) + opt_list_entries(key@, *v));
            }
        },
        None => {
            proof {
                assert(entry_views(out@) =~= entry_views(old(out)@) + opt_list_entries(key@, *v));
            }
        },
    }
}

impl Post {
    /// Parses the two-part document, as `from_string` does and with the
    /// same contract.
    pub fn new(text: &str) -> (r: Result<Post, Error>)
        ensures
            r matches Ok(p) ==> {
                &&& split_doc(text@) matches Split::Parts { front, body } && p.body@ == body
                    && front.len() > 0 && body.len() > 0
                &&& p.front_matter.wf()
                &&& p.path@.len() == 0
            },
            match split_doc(text@) {
                Split::Parts { front, body } => (front.len() > 0 && body.len() > 0) ==> {
                    &&& (!yaml_parses(front) ==> r matches Err(Error::BadString { .. }))
                    &&& ((yaml_parses(front) && yaml_str_field(front, "title"@) is None) ==> (
                    r matches Err(Error::NotFound { expected }) && expected@ == "title"@))
                    &&& ((yaml_parses(front) && yaml_str_field(front, "title"@) is Some) ==> (
                    r matches Ok(p) && p.body@ == body && p.path@.len() == 0
                        && p.front_matter.wf() && fm_matches_fields(p.front_matter, front)))
                },
                _ => true,
            },
            split_doc(text@) is NoFrontMatter ==> (r matches Err(Error::BadFormat { thing })
                && thing@ == "no front-matter"@),
            split_doc(text@) is NoBody ==> (r matches Err(Error::BadFormat { thing }) && thing@
                == "no body"@),
            (split_doc(text@) matches Split::Parts { front, .. } && front.len() == 0) ==> (r matches
                Err(Error::BadFormat { thing }) && thing@ == "no front-matter"@),
            (split_doc(text@) matches Split::Parts { front, body } && front.len() > 0 && body.len()
                == 0) ==> (r matches Err(Error::BadFormat { thing }) && thing@ == "no body"@),
    {
        Self::from_string(text.to_owned())
    }

    /// Parses the two-part document: the split is fully specified by
    /// `split_doc`, and on a well-formed split the result is owed — the
    /// front-matter carries exactly the named fields of the first section
    /// (defaults applied) and the body is the remainder verbatim.
    pub fn from_string(text: String) -> (r: Result<Post, Error>)
        ensures
            r matches Ok(p) ==> {
                &&& split_doc(text@) matches Split::Parts { front, body } && p.body@ == body
                    && front.len() > 0 && body.len() > 0
                &&& p.front_matter.wf()
                &&& p.path@.len() == 0
            },
            match split_doc(text@) {
                Split::Parts { front, body } => (front.len() > 0 && body.len() > 0) ==> {
                    &&& (!yaml_parses(front) ==> r matches Err(Error::BadString { .. }))
                    &&& ((yaml_parses(front) && yaml_str_field(front, "title"@) is None) ==> (
                    r matches Err(Error::NotFound { expected }) && expected@ == "title"@))
                    &&& ((yaml_parses(front) && yaml_str_field(front, "title"@) is Some) ==> (
                    r matches Ok(p) && p.body@ == body && p.path@.len() == 0
                        && p.front_matter.wf() && fm_matches_fields(p.front_matter, front)))
                },
                _ => true,
            },
            split_doc(text@) is NoFrontMatter ==> (r matches Err(Error::BadFormat { thing })
                && thing@ == "no front-matter"@),
            split_doc(text@) is NoBody ==> (r matches Err(Error::BadFormat { thing }) && thing@
                == "no body"@),
            (split_doc(text@) matches Split::Parts { front, .. } && front.len() == 0) ==> (r matches
                Err(Error::BadFormat { thing }) && thing@ == "no front-matter"@),
            (split_doc(text@) matches Split::Parts { front, body } && front.len() > 0 && body.len()
                == 0) ==> (r matches Err(Error::BadFormat { thing }) && thing@ == "no body"@),
    {
        let parts = match split_document(text.as_str()) {
            Ok(p) => p,
            Err(e) => {
                return Err(e);
            },
        };
        let front_matter = match FrontMatter::new(parts.0.as_str()) {
            Ok(fm) => fm,
            Err(e) => {
                return Err(e);
            },
        };
        Ok(Post { front_matter, body: parts.1, path: String::new() })
    }

    /// Serializes the post: a delimiter line, the front-matter fields that
    /// are set — rendered as YAML in declaration order — then a delimiter
    /// line and the body verbatim.  Fails only where the renderer does.
    pub fn to_string(&self) -> (r: Result<String, Error>)
        ensures
            r matches Ok(out) ==> yaml_renders(fm_entry_list(self.front_matter)) && out@
                == "---\n"@ + yaml_render_of(fm_entry_list(self.front_matter)) + "---\n"@
                + self.body@,
            r matches Err(e) ==> !yaml_renders(fm_entry_list(self.front_matter)) && (
            e matches Error::BadString { .. }),
    {
        let mut entries: Vec<(String, YamlValue)> = Vec::new();
        entries.push(
            (String::from_str("title"), YamlValue::S(self.front_matter.title.clone())),
        );
        proof {
            assert(entry_views(entries@) =~= seq![
                ("title"@, YamlScalar::Str(self.front_matter.title@)),
            ]);
        }
        push_str_entry(&mut entries, "canonical_url", &self.front_matter.canonical_url);
        push_str_entry(&mut entries, "date", &self.front_matter.date);
        push_str_entry(&mut entries, "description", &self.front_matter.description);
        push_str_entry(&mut entries, "layout", &self.front_matter.layout);
        push_str_entry(&mut entries, "permalink", &self.front_matter.permalink);
        push_bool_entry(&mut entries, "published", &self.front_matter.published);
        push_str_entry(&mut entries, "series", &self.front_matter.series);
        push_str_entry(&mut entries, "slug", &self.front_matter.slug);
        push_list_entry(&mut entries, "tags", &self.front_matter.tags);
        proof {
            assert(entry_views(entries@) =~= fm_entry_list(self.front_matter));
        }
        let yaml_text = match yaml::render_yaml_mapping(&entries) {
            Ok(t) => t,
            Err(msg) => {
                return Err(Error::BadString { expected: msg, found: String::new() });
            },
        };
        let mut out = String::from_str("---\n");
        out.append(yaml_text.as_str());
        out.append("---\n");
        out.append(self.body.as_str());
        proof {
            assert(out@ == "---\n"@ + yaml_text@ + "---\n"@ + self.body@);
        }
        Ok(out)
    }

    /// Applies the global overrides: force-draft and force-slug.  All
    /// other fields are untouched.
    pub fn apply(&mut self, settings: &Settings)
        ensures
            settings.draft ==> final(self).front_matter.published == Some(false),
            !settings.draft ==> final(self).front_matter.published == old(
                self,
            ).front_matter.published,
            settings.slug matches Some(sl) ==> (final(self).front_matter.slug matches Some(s2)
                && s2@ == sl@),
            settings.slug is None ==> final(self).front_matter.slug == old(self).front_matter.slug,
            final(self).front_matter.title == old(self).front_matter.title,
            final(self).front_matter.canonical_url == old(self).front_matter.canonical_url,
            final(self).front_matter.date == old(self).front_matter.date,
            final(self).front_matter.tags == old(self).front_matter.tags,
            final(self).front_matter.series == old(self).front_matter.series,
            final(self).body == old(self).body,
            final(self).path == old(self).path,
    {
        if settings.draft {
            self.front_matter.published = Some(false);
        }
        if let Some(slug) = &settings.slug {
            self.front_matter.slug = Some(slug.clone());
        }
    }
}

// ---------------------------------------------------------------------------
// Laws of the delimiter grammar.
// ---------------------------------------------------------------------------

proof fn lemma_find_delim_first(s: Seq<char>, i: int, d: int)
    requires
        0 <= i <= d,
        delim_at(s, d),
        forall|j: int| i <= j < d ==> !delim_at(s, j),
    ensures
        find_delim(s, i) == Some(d),
    decreases d - i,
{
    if i < d {
        lemma_find_delim_first(s, i + 1, d);
    }
}

proof fn lemma_find_delim_none(s: Seq<char>, i: int)
    requires
        forall|j: int| i <= j ==> !delim_at(s, j),
    ensures
        find_delim(s, i) is None,
    decreases s.len() - i,
{
    if i + 2 <= s.len() {
        lemma_find_delim_none(s, i + 1);
    }
}

proof fn lemma_skip_dashes_run(s: Seq<char>, i: int, e: int)
    requires
        0 <= i <= e <= s.len(),
        forall|j: int| i <= j < e ==> s[j] == '-',
        e == s.len() || s[e] != '-',
    ensures
        skip_dashes(s, i) == e,
    decreases e - i,
{
    if i < e {
        lemma_skip_dashes_run(s, i + 1, e);
    }
}

proof fn lemma_skip_spaces_run(s: Seq<char>, i: int, e: int)
    requires
        0 <= i <= e <= s.len(),
        forall|j: int| i <= j < e ==> is_space(s[j]),
        e == s.len() || !is_space(s[e]),
    ensures
        skip_spaces(s, i) == e,
    decreases e - i,
{
    if i < e {
        lemma_skip_spaces_run(s, i + 1, e);
    }
}

/// A document with no delimiter line at all has no front-matter section.
pub proof fn lemma_no_delimiter_no_front_matter(s: Seq<char>)
    requires
        forall|i: int| 0 <= i ==> !delim_at(s, i),
    ensures
        split_doc(s) is NoFrontMatter,
{
    lemma_find_delim_none(s, 0);
}

/// A document with exactly one delimiter line has no body section.
pub proof fn lemma_single_delimiter_no_body(s: Seq<char>, d: int)
    requires
        delim_at(s, d),
        forall|j: int| 0 <= j < d ==> !delim_at(s, j),
        forall|j: int| delim_end(s, d) <= j ==> !delim_at(s, j),
    ensures
        split_doc(s) is NoBody,
{
    lemma_find_delim_first(s, 0, d);
    lemma_find_delim_none(s, delim_end(s, d));
}

/// Framing a front-matter text and a body between two delimiter lines and
/// splitting the result gives both back verbatim.  The delimiter lines may
/// use any dash run of length two or more and any trailing whitespace
/// (`"\n"`, `"\r\n"`, trailing blanks, blank lines), so documents that
/// differ only in line endings split identically; and nothing at all is
/// required of the body's content, so dash lines inside it — fenced code
/// blocks, table separator rows — are never taken for boundaries.
pub proof fn lemma_split_of_framed_document(
    d1: Seq<char>,
    w1: Seq<char>,
    front: Seq<char>,
    d2: Seq<char>,
    w2: Seq<char>,
    body: Seq<char>,
)
    requires
        d1.len() >= 2,
        forall|j: int| 0 <= j < d1.len() ==> d1[j] == '-',
        d2.len() >= 2,
        forall|j: int| 0 <= j < d2.len() ==> d2[j] == '-',
        w1.len() > 0,
        forall|j: int| 0 <= j < w1.len() ==> is_space(w1[j]),
        w1.last() == '\n',
        w2.len() > 0,
        forall|j: int| 0 <= j < w2.len() ==> is_space(w2[j]),
        front.len() > 0,
        !is_space(front[0]),
        front.last() == '\n',
        forall|j: int|
            0 <= j < front.len() - 1 ==> !((j == 0 || front[j - 1] == '\n') && #[trigger] front[j]
                == '-' && front[j + 1] == '-'),
        body.len() > 0,
        !is_space(body[0]),
    ensures
        split_doc(d1 + w1 + front + d2 + w2 + body) matches Split::Parts { front: f, body: b } && f
            == front && b == body,
{
    let s = d1 + w1 + front + d2 + w2 + body;
    let n1 = d1.len() as int;
    let e1 = n1 + w1.len();
    let p2 = e1 + front.len();
    let n2 = p2 + d2.len();
    let e2 = n2 + w2.len();
    let n = s.len() as int;
    assert(n == e2 + body.len());

    assert forall|i: int| 0 <= i < n1 implies s[i] == d1[i] by {}
    assert forall|i: int| n1 <= i < e1 implies s[i] == w1[i - n1] by {}
    assert forall|i: int| e1 <= i < p2 implies s[i] == front[i - e1] by {}
    assert forall|i: int| p2 <= i < n2 implies s[i] == d2[i - p2] by {}
    assert forall|i: int| n2 <= i < e2 implies s[i] == w2[i - n2] by {}
    assert forall|i: int| e2 <= i < n implies s[i] == body[i - e2] by {}

    // The first delimiter is at position 0.
    assert(delim_at(s, 0));
    lemma_find_delim_first(s, 0, 0);

    // Its match ends exactly where the front-matter text begins.
    assert(s[n1] == w1[0] && is_space(w1[0]));
    lemma_skip_dashes_run(s, 0, n1);
    assert(s[e1] == front[0]);
    lemma_skip_spaces_run(s, n1, e1);
    assert(delim_end(s, 0) == e1);

    // No delimiter begins inside the front-matter text.
    assert forall|p: int| e1 <= p < p2 implies !delim_at(s, p) by {
        let j = p - e1;
        if j == front.len() - 1 {
            assert(s[p] == front.last());
        } else if delim_at(s, p) {
            assert(s[p - 1] == if j == 0 {
                w1.last()
            } else {
                front[j - 1]
            });
            assert((j == 0 || front[j - 1] == '\n') && front[j] == '-' && front[j + 1] == '-');
        }
    }

    // The second delimiter is exactly at the end of the front-matter text.
    assert(s[p2 - 1] == front.last());
    assert(delim_at(s, p2));
    lemma_find_delim_first(s, e1, p2);

    // Its match ends exactly where the body begins.
    assert(s[n2] == w2[0] && is_space(w2[0]));
    lemma_skip_dashes_run(s, p2, n2);
    assert(s[e2] == body[0]);
    lemma_skip_spaces_run(s, n2, e2);
    assert(delim_end(s, p2) == e2);

    assert(s.subrange(e1, p2) =~= front);
    assert(s.subrange(e2, n) =~= body);
}

/// The canonical instance of the framing law: serializing with plain
/// `"---\n"` delimiter lines, as `Post::to_string` does, and parsing the
/// result recovers the front-matter text and the body exactly.
pub proof fn lemma_parse_of_serialized_document(front: Seq<char>, body: Seq<char>)
    requires
        front.len() > 0,
        !is_space(front[0]),
        front.last() == '\n',
        forall|j: int|
            0 <= j < front.len() - 1 ==> !((j == 0 || front[j - 1] == '\n') && #[trigger] front[j]
                == '-' && front[j + 1] == '-'),
        body.len() > 0,
        !is_space(body[0]),
    ensures
        split_doc("---\n"@ + front + "---\n"@ + body) matches Split::Parts { front: f, body: b }
            && f == front && b == body,
{
    reveal_strlit("---\n");
    reveal_strlit("---");
    reveal_strlit("\n");
    let d = "---"@;
    let w = "\n"@;
    lemma_split_of_framed_document(d, w, front, d, w, body);
    assert(d + w =~= "---\n"@);
    assert(d + w + front + (d + w) + body =~= "---\n"@ + front + "---\n"@ + body);
    assert((d + w + front) + (d + w) =~= (d + w + front) + d + w);
}

} // verus!
