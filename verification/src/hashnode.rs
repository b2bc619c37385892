//! Hashnode adapter: the two-phase lookup (publication and existing post
//! by slug), the ordered tag resolution (catalog first, tag-page scrape as
//! fallback), the tag-page metadata extraction, and the create-or-update
//! decision.  GraphQL transport and the fallback page fetches stay outside
//! the library.

use vstd::prelude::*;

use crate::Error;
use crate::jsonval;
use crate::jsonval::json_str_at;
use crate::post::{Post, skip_spaces, skip_spaces_exec};
use crate::scan::{
    attr_lookup, attr_lookup_exec, comment_end, comment_end_exec, lemma_comment_end_bounds,
    lemma_name_end_bounds, lemma_scan_attrs_bounds, name_end, name_end_exec, scan_attrs,
    scan_attrs_exec, unescape_range, unescaped,
};
use crate::settings::Settings;
use crate::strutil::{
    find_char_exec, first_index_from, lemma_first_index_bounds, lower_of, lowercase, seq_views,
    slug_of, slugify,
};

verus! {

// ---------------------------------------------------------------------------
// Remote state models.
// ---------------------------------------------------------------------------

/// One entry of the platform's tag catalog.
#[derive(Clone, Debug)]
pub struct TagCategory {
    pub id: String,
    pub name: String,
    pub slug: String,
}

/// The tag-catalog query result: every tag category the platform lists.
#[derive(Clone, Debug)]
pub struct Tags {
    pub tag_categories: Vec<TagCategory>,
}

/// One of the publication's posts, as the lookup query lists it.
#[derive(Clone, Debug)]
pub struct PubPost {
    pub id: String,
    pub slug: Option<String>,
}

/// The user's publication: its id and its listed posts.
#[derive(Clone, Debug)]
pub struct Publication {
    pub id: String,
    pub posts: Vec<PubPost>,
}

/// The publication-and-posts query result; the publication may be absent.
#[derive(Clone, Debug)]
pub struct PubPosts {
    pub publication: Option<Publication>,
}

// ---------------------------------------------------------------------------
// Publication and existing-post lookup.
// ---------------------------------------------------------------------------

/// A listed post matches when its slug equals the post's (absent slugs
/// compare equal, as option equality has it).
pub open spec fn post_slug_matches(p: PubPost, slug: Option<String>) -> bool {
    match (p.slug, slug) {
        (Some(a), Some(b)) => a@ == b@,
        (None, None) => true,
        _ => false,
    }
}

/// Listed post `i` is the first whose slug matches, in remote order.
pub open spec fn is_first_slug_match(posts: Seq<PubPost>, slug: Option<String>, i: int) -> bool {
    &&& 0 <= i < posts.len()
    &&& post_slug_matches(posts[i], slug)
    &&& forall|j: int| 0 <= j < i ==> !post_slug_matches(#[trigger] posts[j], slug)
}

/// Match-first-wins: when two listed posts share the post's slug, the
/// earlier one (in remote listing order) is the first match, and a later
/// duplicate never is.
pub proof fn lemma_slug_match_first_wins(
    posts: Seq<PubPost>,
    slug: Option<String>,
    i: int,
    j: int,
)
    requires
        0 <= i < j < posts.len(),
        post_slug_matches(posts[i], slug),
        post_slug_matches(posts[j], slug),
        forall|k: int| 0 <= k < i ==> !post_slug_matches(#[trigger] posts[k], slug),
    ensures
        is_first_slug_match(posts, slug, i),
        !is_first_slug_match(posts, slug, j),
{
}

fn slug_eq(a: &Option<String>, b: &Option<String>) -> (r: bool)
    ensures
        r == match (a, b) {
            (Some(x), Some(y)) => x@ == y@,
            (None, None) => true,
            _ => false,
        },
{
    match (a, b) {
        (Some(x), Some(y)) => *x == *y,
        (None, None) => true,
        _ => false,
    }
}

/// The publication id, and the id of the first listed post whose slug
/// equals the post's.  An absent publication is a hard failure: without
/// its id nothing can be published on this platform.
pub fn get_pub_and_article_id(resp: &PubPosts, post: &Post) -> (r: Result<
    (String, Option<String>),
    Error,
>)
    ensures
        resp.publication is None ==> (r matches Err(Error::NotFound { expected }) && expected@
            == "publication"@),
        resp.publication matches Some(pb) ==> (r matches Ok(p) && p.0@ == pb.id@ && match p.1 {
            Some(id) => exists|i: int|
                #[trigger] is_first_slug_match(pb.posts@, post.front_matter.slug, i)
                    && pb.posts@[i].id@ == id@,
            None => forall|i: int|
                0 <= i < pb.posts@.len() ==> !post_slug_matches(
                    #[trigger] pb.posts@[i],
                    post.front_matter.slug,
                ),
        }),
{
    let pb = match &resp.publication {
        Some(pb) => pb,
        None => {
            return Err(Error::NotFound { expected: String::from_str("publication") });
        },
    };
    let mut i: usize = 0;
    while i < pb.posts.len()
        invariant
            resp.publication == Some(*pb),
            i <= pb.posts@.len(),
            forall|j: int|
                0 <= j < i ==> !post_slug_matches(#[trigger] pb.posts@[j], post.front_matter.slug),
        decreases pb.posts@.len() - i,
    {
        if slug_eq(&pb.posts[i].slug, &post.front_matter.slug) {
            assert(is_first_slug_match(pb.posts@, post.front_matter.slug, i as int));
            return Ok((pb.id.clone(), Some(pb.posts[i].id.clone())));
        }
        i += 1;
    }
    Ok((pb.id.clone(), None))
}

// ---------------------------------------------------------------------------
// Tag resolution: catalog first, page scrape as ordered fallback.
// ---------------------------------------------------------------------------

/// A catalog entry matches a front-matter tag when its slug equals the
/// slugified tag, or its name equals the tag case-insensitively.
pub open spec fn category_matches(c: TagCategory, tag: Seq<char>) -> bool {
    c.slug@ == slug_of(tag) || lower_of(c.name@) == lower_of(tag)
}

/// Catalog entry `i` is the first that matches, in catalog order.
pub open spec fn is_first_category_match(cats: Seq<TagCategory>, tag: Seq<char>, i: int) -> bool {
    &&& 0 <= i < cats.len()
    &&& category_matches(cats[i], tag)
    &&& forall|j: int| 0 <= j < i ==> !category_matches(#[trigger] cats[j], tag)
}

/// Resolves one tag against the catalog: the id of the first matching
/// category, if any.
pub fn resolve_tag(categories: &Vec<TagCategory>, tag: &String) -> (r: Option<String>)
    ensures
        match r {
            Some(id) => exists|i: int|
                #[trigger] is_first_category_match(categories@, tag@, i) && categories@[i].id@
                    == id@,
            None => forall|i: int|
                0 <= i < categories@.len() ==> !category_matches(#[trigger] categories@[i], tag@),
        },
{
    let tag_slug = slugify(tag.as_str());
    let tag_lower = lowercase(tag.as_str());
    let mut i: usize = 0;
    while i < categories.len()
        invariant
            i <= categories@.len(),
            tag_slug@ == slug_of(tag@),
            tag_lower@ == lower_of(tag@),
            forall|j: int|
                0 <= j < i ==> !category_matches(#[trigger] categories@[j], tag@),
        decreases categories@.len() - i,
    {
        let name_lower = lowercase(categories[i].name.as_str());
        if categories[i].slug == tag_slug || name_lower == tag_lower {
            assert(is_first_category_match(categories@, tag@, i as int));
            return Some(categories[i].id.clone());
        }
        i += 1;
    }
    None
}

/// How one front-matter tag is to be resolved: either the catalog already
/// yields its id, or the public tag page under the slugified name must be
/// scraped for it.
#[derive(Clone, Debug)]
pub enum TagResolution {
    Resolved(String),
    NeedsScrape(String),
}

/// Resolves the tags against the catalog, in front-matter order: tags the
/// catalog misses are marked for the slower page-scrape fallback, carrying
/// the slug to fetch.
pub fn plan_tags(categories: &Vec<TagCategory>, tags: &Vec<String>) -> (r: Vec<TagResolution>)
    ensures
        r@.len() == tags@.len(),
        forall|i: int|
            0 <= i < tags@.len() ==> match #[trigger] r@[i] {
                TagResolution::Resolved(id) => exists|k: int|
                    #[trigger] is_first_category_match(categories@, tags@[i]@, k)
                        && categories@[k].id@ == id@,
                TagResolution::NeedsScrape(sl) => (forall|k: int|
                    0 <= k < categories@.len() ==> !category_matches(
                        #[trigger] categories@[k],
                        tags@[i]@,
                    )) && sl@ == slug_of(tags@[i]@),
            },
{
    let mut out: Vec<TagResolution> = Vec::new();
    let mut i: usize = 0;
    while i < tags.len()
        invariant
            i <= tags@.len(),
            out@.len() == i,
            forall|j: int|
                0 <= j < i ==> match #[trigger] out@[j] {
                    TagResolution::Resolved(id) => exists|k: int|
                        #[trigger] is_first_category_match(categories@, tags@[j]@, k)
                            && categories@[k].id@ == id@,
                    TagResolution::NeedsScrape(sl) => (forall|k: int|
                        0 <= k < categories@.len() ==> !category_matches(
                            #[trigger] categories@[k],
                            tags@[j]@,
                        )) && sl@ == slug_of(tags@[j]@),
                },
        decreases tags@.len() - i,
    {
        match resolve_tag(categories, &tags[i]) {
            Some(id) => out.push(TagResolution::Resolved(id)),
            None => out.push(TagResolution::NeedsScrape(slugify(tags[i].as_str()))),
        }
        i += 1;
    }
    out
}

/// The resolved tag ids from position `i` on: catalog ids as they stand,
/// scraped ids where the scrape succeeded, unresolved tags dropped.
pub open spec fn finished_from(
    plans: Seq<TagResolution>,
    scraped: Seq<Option<String>>,
    i: int,
) -> Seq<Seq<char>>
    decreases plans.len() - i,
{
    if i < 0 || i >= plans.len() {
        Seq::empty()
    } else {
        (match plans[i] {
            TagResolution::Resolved(id) => seq![id@],
            TagResolution::NeedsScrape(_) => match scraped[i] {
                Some(id) => seq![id@],
                None => Seq::empty(),
            },
        }) + finished_from(plans, scraped, i + 1)
    }
}

/// Assembles the final tag id list, in front-matter order: each resolved
/// tag contributes its catalog id, each scrape its result, and tags that
/// neither step resolved are dropped silently.
pub fn finish_tags(plans: &Vec<TagResolution>, scraped: &Vec<Option<String>>) -> (r: Vec<String>)
    requires
        plans@.len() == scraped@.len(),
    ensures
        seq_views(r@) == finished_from(plans@, scraped@, 0),
{
    let mut out: Vec<String> = Vec::new();
    proof {
        assert(seq_views(out@) + finished_from(plans@, scraped@, 0) =~= finished_from(
            plans@,
            scraped@,
            0,
        ));
    }
    let mut i: usize = 0;
    while i < plans.len()
        invariant
            plans@.len() == scraped@.len(),
            i <= plans@.len(),
            seq_views(out@) + finished_from(plans@, scraped@, i as int) == finished_from(
                plans@,
                scraped@,
                0,
            ),
        decreases plans@.len() - i,
    {
        let ghost old_out = out@;
        match &plans[i] {
            TagResolution::Resolved(id) => {
                out.push(id.clone());
                proof {
                    assert(seq_views(out@) =~= seq_views(old_out) + seq![out@.last()@]);
                }
            },
            TagResolution::NeedsScrape(_) => {
                match &scraped[i] {
                    Some(id) => {
                        out.push(id.clone());
                        proof {
                            assert(seq_views(out@) =~= seq_views(old_out) + seq![out@.last()@]);
                        }
                    },
                    None => {},
                }
            },
        }
        proof {
            assert(seq_views(out@) + finished_from(plans@, scraped@, i + 1) =~= finished_from(
                plans@,
                scraped@,
                0,
            ));
        }
        i += 1;
    }
    proof {
        assert(finished_from(plans@, scraped@, i as int) =~= Seq::<Seq<char>>::empty());
        assert(seq_views(out@) =~= finished_from(plans@, scraped@, 0));
    }
    out
}

// ---------------------------------------------------------------------------
// Tag-page scrape: the metadata blob of the public tag page.
// ---------------------------------------------------------------------------

/// The end of the trimmed text: drops trailing whitespace down to `a`.
pub open spec fn trim_end_pos(s: Seq<char>, a: int, te: int) -> int
    decreases te - a,
{
    if te <= a {
        a
    } else if 0 < te <= s.len() && crate::post::is_space(s[te - 1]) {
        trim_end_pos(s, a, te - 1)
    } else {
        te
    }
}

#[via_fn]
proof fn scan_script_decreases(s: Seq<char>, i: int) {
    if 0 <= i <= s.len() {
        lemma_first_index_bounds(s, i, '<');
        let lt = first_index_from(s, i, '<');
        if lt + 1 < s.len() {
            lemma_comment_end_bounds(s, lt + 4);
            lemma_first_index_bounds(s, lt + 1, '>');
            if lt + 2 <= s.len() {
                lemma_name_end_bounds(s, lt + 2);
                let ne2 = name_end(s, lt + 2);
                lemma_first_index_bounds(s, ne2, '>');
            }
            if lt + 1 <= s.len() {
                lemma_name_end_bounds(s, lt + 1);
                let ne = name_end(s, lt + 1);
                lemma_scan_attrs_bounds(s, ne);
                if scan_attrs(s, ne) is Some {
                    let e = scan_attrs(s, ne).unwrap().1;
                    lemma_first_index_bounds(s, e, '<');
                }
            }
        }
    }
}

/// The scrape of a tag page: scans tags from position `i` for a
/// non-self-closing `<script id="__NEXT_DATA__">` and yields the range of
/// the trimmed text that directly follows it — the embedded JSON blob.
/// A script whose text is empty, like any other tag, is passed over.
pub open spec fn scan_script(s: Seq<char>, i: int) -> Option<(int, int)>
    decreases s.len() - i,
    via scan_script_decreases
{
    if i < 0 || i > s.len() {
        None
    } else {
        let lt = first_index_from(s, i, '<');
        if lt + 1 >= s.len() {
            None
        } else if lt + 4 <= s.len() && s.subrange(lt, lt + 4) == "<!--"@ {
            match comment_end(s, lt + 4) {
                Some(e) => scan_script(s, e),
                None => None,
            }
        } else if s[lt + 1] == '!' || s[lt + 1] == '?' {
            let e = first_index_from(s, lt + 1, '>');
            if e < s.len() {
                scan_script(s, e + 1)
            } else {
                None
            }
        } else if s[lt + 1] == '/' {
            let ne = name_end(s, lt + 2);
            let e = first_index_from(s, ne, '>');
            if e < s.len() {
                scan_script(s, e + 1)
            } else {
                None
            }
        } else {
            let ne = name_end(s, lt + 1);
            if ne == lt + 1 {
                scan_script(s, lt + 1)
            } else {
                match scan_attrs(s, ne) {
                    None => None,
                    Some((attrs, e, selfclosing)) => {
                        if s.subrange(lt + 1, ne) == "script"@ && !selfclosing && attr_lookup(
                            attrs,
                            "id"@,
                        ) == Some("__NEXT_DATA__"@) {
                            let te = first_index_from(s, e, '<');
                            let a = skip_spaces(s, e);
                            if a < te {
                                Some((a, trim_end_pos(s, a, te)))
                            } else {
                                scan_script(s, te)
                            }
                        } else {
                            scan_script(s, e)
                        }
                    },
                }
            }
        }
    }
}

fn trim_end_exec(s: &str, a: usize, te: usize, n: usize) -> (r: usize)
    requires
        n == s@.len(),
        a <= te <= n,
    ensures
        r == trim_end_pos(s@, a as int, te as int),
        a <= r <= te,
{
    let mut e = te;
    loop
        invariant
            n == s@.len(),
            a <= e <= te <= n,
            trim_end_pos(s@, a as int, te as int) == trim_end_pos(s@, a as int, e as int),
        decreases e,
    {
        if e > a && crate::post::is_space_exec(s.get_char(e - 1)) {
            assert(trim_end_pos(s@, a as int, e as int) == trim_end_pos(s@, a as int, e - 1));
            e -= 1;
        } else {
            assert(trim_end_pos(s@, a as int, e as int) == e as int);
            return e;
        }
    }
}

fn scan_script_exec(s: &str, i: usize, n: usize) -> (r: Option<(usize, usize)>)
    requires
        n == s@.len(),
        i <= n,
    ensures
        match r {
            Some(t) => scan_script(s@, i as int) == Some((t.0 as int, t.1 as int)) && t.0 <= t.1
                <= n,
            None => scan_script(s@, i as int) is None,
        },
    decreases n - i,
{
    let lt = find_char_exec(s, i, n, '<');
    if n - lt < 2 {
        return None;
    }
    let c1 = s.get_char(lt + 1);
    if n - lt >= 4 && c1 == '!' && s.get_char(lt + 2) == '-' && s.get_char(lt + 3) == '-' {
        proof {
            reveal_strlit("<!--");
            assert(s@.subrange(lt as int, lt + 4) =~= "<!--"@);
        }
        match comment_end_exec(s, lt + 4, n) {
            Some(e) => {
                return scan_script_exec(s, e, n);
            },
            None => {
                return None;
            },
        }
    }
    proof {
        reveal_strlit("<!--");
        if lt + 4 <= n && s@.subrange(lt as int, lt + 4) == "<!--"@ {
            let sub = s@.subrange(lt as int, lt + 4);
            assert(s@[lt + 1] == sub[1] && s@[lt + 2] == sub[2] && s@[lt + 3] == sub[3]);
            assert(false);
        }
    }
    if c1 == '!' || c1 == '?' {
        let e = find_char_exec(s, lt + 1, n, '>');
        if e < n {
            return scan_script_exec(s, e + 1, n);
        }
        return None;
    }
    if c1 == '/' {
        let ne = name_end_exec(s, lt + 2, n);
        let e = find_char_exec(s, ne, n, '>');
        if e < n {
            return scan_script_exec(s, e + 1, n);
        }
        return None;
    }
    let ne = name_end_exec(s, lt + 1, n);
    if ne == lt + 1 {
        return scan_script_exec(s, lt + 1, n);
    }
    match scan_attrs_exec(s, ne, n) {
        None => None,
        Some((attrs, e, selfclosing)) => {
            let name = s.substring_char(lt + 1, ne).to_owned();
            let is_next_data = if name == String::from_str("script") && !selfclosing {
                match attr_lookup_exec(&attrs, &String::from_str("id")) {
                    Some(v) => v == String::from_str("__NEXT_DATA__"),
                    None => false,
                }
            } else {
                false
            };
            if is_next_data {
                let te = find_char_exec(s, e, n, '<');
                let a = skip_spaces_exec(s, e, n);
                if a < te {
                    let b = trim_end_exec(s, a, te, n);
                    Some((a, b))
                } else {
                    scan_script_exec(s, te, n)
                }
            } else {
                scan_script_exec(s, e, n)
            }
        },
    }
}

/// The metadata of a public tag page: the platform id of the tag, its
/// display name, and its slug.
#[derive(Clone, Debug)]
pub struct TagPageMeta {
    pub id: String,
    pub name: String,
    pub slug: String,
}

fn meta_field(payload: &str, field: &str) -> (r: Result<String, Error>)
    ensures
        match r {
            Ok(v) => json_str_at(payload@, "props"@, "pageProps"@, "extraData"@, field@) == Some(
                v@,
            ),
            Err(e) => json_str_at(payload@, "props"@, "pageProps"@, "extraData"@, field@) is None
                && (e matches Error::BadString { .. }),
        },
{
    match jsonval::get_json_str_at(payload, "props", "pageProps", "extraData", field) {
        Some(s) => Ok(s),
        None => Err(Error::BadString { expected: field.to_owned(), found: payload.to_owned() }),
    }
}

/// The tag metadata a page's blob carries: the strings serde_json reads
/// at `props.pageProps.extraData.{_id,name,slug}` of the given text.
pub open spec fn blob_meta(text: Seq<char>) -> (
    Option<Seq<char>>,
    Option<Seq<char>>,
    Option<Seq<char>>,
) {
    (
        json_str_at(text, "props"@, "pageProps"@, "extraData"@, "_id"@),
        json_str_at(text, "props"@, "pageProps"@, "extraData"@, "name"@),
        json_str_at(text, "props"@, "pageProps"@, "extraData"@, "slug"@),
    )
}

/// Extracts the tag metadata from a public tag page: the scan finds the
/// `__NEXT_DATA__` script blob, whose predefined entity references are
/// decoded, and the metadata is what serde_json reads at
/// `props.pageProps.extraData.{_id,name,slug}` of it.  A page without
/// such a blob fails with `NotFound`; a blob without the metadata fails
/// with `BadString`; otherwise the metadata is owed.
pub fn parse_tag_html(text: &str) -> (r: Result<TagPageMeta, Error>)
    ensures
        scan_script(text@, 0) is None ==> (r matches Err(Error::NotFound { expected }) && expected@
            == Seq::<char>::empty()),
        match scan_script(text@, 0) {
            Some((a, b)) => match blob_meta(unescaped(text@.subrange(a, b))) {
                (Some(id), Some(nm), Some(sl)) => r matches Ok(m) && m.id@ == id && m.name@ == nm
                    && m.slug@ == sl,
                _ => r matches Err(Error::BadString { .. }),
            },
            None => r is Err,
        },
{
    let n = text.unicode_len();
    let range = match scan_script_exec(text, 0, n) {
        Some(t) => t,
        None => {
            return Err(Error::NotFound { expected: String::new() });
        },
    };
    let payload_string = unescape_range(text, range.0, range.1, n);
    let payload = payload_string.as_str();
    let id = match meta_field(payload, "_id") {
        Ok(v) => v,
        Err(e) => {
            return Err(e);
        },
    };
    let name = match meta_field(payload, "name") {
        Ok(v) => v,
        Err(e) => {
            return Err(e);
        },
    };
    let slug = match meta_field(payload, "slug") {
        Ok(v) => v,
        Err(e) => {
            return Err(e);
        },
    };
    Ok(TagPageMeta { id, name, slug })
}

// ---------------------------------------------------------------------------
// Story payloads and the publish decision.
// ---------------------------------------------------------------------------

/// The create-story mutation input.
#[derive(Clone, Debug)]
pub struct CreatePubStory {
    pub title: String,
    pub content_markdown: String,
    pub slug: Option<String>,
    pub tags: Vec<String>,
    /// The canonical URL of the original article, when republishing.
    pub is_republished: Option<String>,
    pub publication_id: String,
}

/// The update-story mutation input.
#[derive(Clone, Debug)]
pub struct UpdateStory {
    pub post_id: String,
    pub title: String,
    pub content_markdown: String,
    pub slug: Option<String>,
    pub tags: Vec<String>,
    /// The canonical URL of the original article, when republishing.
    pub is_republished: Option<String>,
    pub publication_id: String,
}

/// What the adapter does after the lookups.
#[derive(Clone, Debug)]
pub enum HashnodeAction {
    /// Dry run: nothing is sent.
    Skip,
    /// No listed post carried the slug: create the story.
    Create(CreatePubStory),
    /// A listed post carried the slug: update it under its id.
    Update(UpdateStory),
}

/// Decides what to send: on a dry run nothing; otherwise an update of the
/// post the slug lookup found, or a create.  Either payload carries the
/// post's fields, the resolved tag ids in order, and the canonical URL as
/// the republish origin.  The comparison mode is ignored: Hashnode only
/// supports matching by slug.
pub fn plan_publish(
    post: Post,
    settings: &Settings,
    publication_id: String,
    existing: Option<String>,
    tag_ids: Vec<String>,
) -> (r: HashnodeAction)
    ensures
        settings.dry ==> r is Skip,
        !settings.dry ==> match r {
            HashnodeAction::Skip => false,
            HashnodeAction::Create(c) => {
                &&& existing is None
                &&& c.title == post.front_matter.title
                &&& c.content_markdown == post.body
                &&& c.slug == post.front_matter.slug
                &&& c.tags == tag_ids
                &&& c.is_republished == post.front_matter.canonical_url
                &&& c.publication_id == publication_id
            },
            HashnodeAction::Update(u) => {
                &&& existing matches Some(id) && u.post_id == id
                &&& u.title == post.front_matter.title
                &&& u.content_markdown == post.body
                &&& u.slug == post.front_matter.slug
                &&& u.tags == tag_ids
                &&& u.is_republished == post.front_matter.canonical_url
                &&& u.publication_id == publication_id
            },
        },
{
    if settings.dry {
        return HashnodeAction::Skip;
    }
    match existing {
        Some(post_id) => HashnodeAction::Update(
            UpdateStory {
                post_id,
                title: post.front_matter.title,
                content_markdown: post.body,
                slug: post.front_matter.slug,
                tags: tag_ids,
                is_republished: post.front_matter.canonical_url,
                publication_id,
            },
        ),
        None => HashnodeAction::Create(
            CreatePubStory {
                title: post.front_matter.title,
                content_markdown: post.body,
                slug: post.front_matter.slug,
                tags: tag_ids,
                is_republished: post.front_matter.canonical_url,
                publication_id,
            },
        ),
    }
}

} // verus!
