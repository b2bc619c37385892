//! Dev.to adapter: matching against the remote article listing, payload
//! mapping (with the platform's four-tag cap), and the create-or-update
//! decision.  The HTTP transport lives outside the library; it hands the
//! decoded listing in and carries the planned action out.

use vstd::prelude::*;

use crate::post::Post;
use crate::settings::{Compare, Settings};
use crate::strutil::{dec_str, u64_to_string};

verus! {

/// Dev.to rejects articles with more than four tags.
pub const MAX_TAGS: usize = 4;

/// An article id as the listing endpoint reports it: either a string or a
/// number, normalized to a string before use.
#[derive(Clone, Debug)]
pub enum DevtoId {
    Str(String),
    Num(u64),
}

/// One entry of the remote listing, reduced to what the matching logic
/// reads: the id (absent when the response carried none, or one of an
/// unexpected kind) and the canonical URL (absent unless a string).
#[derive(Clone, Debug)]
pub struct DevtoArticle {
    pub id: Option<DevtoId>,
    pub canonical_url: Option<String>,
}

/// The article payload of a create or update request.
#[derive(Clone, Debug)]
pub struct Article {
    pub title: String,
    pub body_markdown: String,
    pub published: bool,
    pub canonical_url: Option<String>,
    pub tags: Vec<String>,
    pub series: Option<String>,
    pub date: Option<String>,
}

/// The request body: an article wrapper, as the REST API expects.
#[derive(Clone, Debug)]
pub struct Body {
    pub article: Article,
}

/// The first `MAX_TAGS` tags, in original order; no tags means none.
pub open spec fn spec_capped_tags(tags: Option<Vec<String>>) -> Seq<String> {
    match tags {
        Some(t) => if t@.len() <= MAX_TAGS {
            t@
        } else {
            t@.take(MAX_TAGS as int)
        },
        None => Seq::empty(),
    }
}

/// The payload fields are exactly the post's fields, with tags capped.
pub open spec fn body_corresponds(b: Body, post: Post) -> bool {
    &&& b.article.title == post.front_matter.title
    &&& b.article.body_markdown == post.body
    &&& b.article.published == post.front_matter.spec_published()
    &&& b.article.canonical_url == post.front_matter.canonical_url
    &&& b.article.tags@ == spec_capped_tags(post.front_matter.tags)
    &&& b.article.series == post.front_matter.series
    &&& b.article.date == post.front_matter.date
}

/// Maps a post to the request payload.  At most the first four tags are
/// kept, in their original order; all other fields carry over unchanged.
pub fn body_from_post(post: Post) -> (r: Body)
    ensures
        body_corresponds(r, post),
{
    let published = post.front_matter.is_published();
    let tags: Vec<String> = match post.front_matter.tags {
        None => Vec::new(),
        Some(mut t) => {
            let ghost full = t@;
            proof {
                assert(t@ =~= full.take(t@.len() as int));
            }
            while t.len() > MAX_TAGS
                invariant
                    t@.len() <= full.len(),
                    t@.len() >= MAX_TAGS || t@.len() == full.len(),
                    t@ =~= full.take(t@.len() as int),
                decreases t@.len(),
            {
                let ghost before = t@;
                let _ = t.pop();
                proof {
                    assert(t@ =~= before.subrange(0, before.len() - 1));
                    assert(t@ =~= full.take(t@.len() as int));
                }
            }
            proof {
                if full.len() <= MAX_TAGS {
                    assert(t@ =~= full);
                }
            }
            t
        },
    };
    Body {
        article: Article {
            title: post.front_matter.title,
            body_markdown: post.body,
            published,
            canonical_url: post.front_matter.canonical_url,
            tags,
            series: post.front_matter.series,
            date: post.front_matter.date,
        },
    }
}

/// A listing entry matches when its canonical URL equals the post's.
pub open spec fn article_matches(a: DevtoArticle, value: Seq<char>) -> bool {
    match a.canonical_url {
        Some(u) => u@ == value,
        None => false,
    }
}

/// Entry `i` is the first of the listing that matches: remote order
/// decides, no sorting takes place.
pub open spec fn is_first_match(articles: Seq<DevtoArticle>, value: Seq<char>, i: int) -> bool {
    &&& 0 <= i < articles.len()
    &&& article_matches(articles[i], value)
    &&& forall|j: int| 0 <= j < i ==> !article_matches(#[trigger] articles[j], value)
}

/// The id of a listing entry, normalized to a string: numeric ids are
/// rendered in decimal.
pub open spec fn id_rendering(a: DevtoArticle) -> Option<Seq<char>> {
    match a.id {
        Some(DevtoId::Str(s)) => Some(s@),
        Some(DevtoId::Num(n)) => Some(dec_str(n as int)),
        None => None,
    }
}

/// Whether a listing entry matches the comparison value.  Only canonical
/// URL comparison is supported for Dev.to; slug mode is a caller error.
pub fn compare(article: &DevtoArticle, value: &String, mode: Compare) -> (r: bool)
    requires
        mode == Compare::CanonicalUrl,
    ensures
        r == article_matches(*article, value@),
{
    match &article.canonical_url {
        Some(u) => *u == *value,
        None => false,
    }
}

/// The normalized id of a listing entry, if it carries one.
pub fn get_id(article: &DevtoArticle) -> (r: Option<String>)
    ensures
        match r {
            Some(s) => id_rendering(*article) == Some(s@),
            None => id_rendering(*article) is None,
        },
{
    match &article.id {
        Some(DevtoId::Str(s)) => Some(s.clone()),
        Some(DevtoId::Num(n)) => Some(u64_to_string(*n)),
        None => None,
    }
}

/// Scans the listing in remote order and returns the normalized id of the
/// first entry whose canonical URL equals `value`; the scan commits to the
/// first match even when that entry carries no usable id.
pub fn find_existing(articles: &Vec<DevtoArticle>, value: &String, mode: Compare) -> (r: Option<
    String,
>)
    requires
        mode == Compare::CanonicalUrl,
    ensures
        match r {
            Some(id) => exists|i: int|
                #[trigger] is_first_match(articles@, value@, i) && id_rendering(articles@[i])
                    == Some(id@),
            None => (forall|i: int|
                0 <= i < articles@.len() ==> !article_matches(#[trigger] articles@[i], value@))
                || (exists|i: int|
                #[trigger] is_first_match(articles@, value@, i) && id_rendering(articles@[i])
                    is None),
        },
{
    let mut i: usize = 0;
    while i < articles.len()
        invariant
            mode == Compare::CanonicalUrl,
            i <= articles@.len(),
            forall|j: int| 0 <= j < i ==> !article_matches(#[trigger] articles@[j], value@),
        decreases articles@.len() - i,
    {
        if compare(&articles[i], value, mode) {
            assert(is_first_match(articles@, value@, i as int));
            return get_id(&articles[i]);
        }
        i += 1;
    }
    None
}

/// Match-first-wins: when two listing entries share the comparison key,
/// the earlier entry (in remote listing order) is the first match, and a
/// later duplicate never is.
pub proof fn lemma_match_first_wins(articles: Seq<DevtoArticle>, value: Seq<char>, i: int, j: int)
    requires
        0 <= i < j < articles.len(),
        article_matches(articles[i], value),
        article_matches(articles[j], value),
        forall|k: int| 0 <= k < i ==> !article_matches(#[trigger] articles[k], value),
    ensures
        is_first_match(articles, value, i),
        !is_first_match(articles, value, j),
{
}

/// What the adapter does after looking at the remote state.
#[derive(Clone, Debug)]
pub enum DevtoAction {
    /// Dry run: a harmless read-only listing request that still exercises
    /// authentication.
    Probe,
    /// No existing article matched: create.
    Create(Body),
    /// An existing article matched: update it under its id.
    Update(String, Body),
}

/// The view of the optionally fetched listing; `None` stands both for a
/// failed fetch and for a post without a comparison value, either of which
/// counts as "no existing match".
pub open spec fn listing_view(articles: Option<&Vec<DevtoArticle>>) -> Option<Seq<DevtoArticle>> {
    match articles {
        Some(v) => Some(v@),
        None => None,
    }
}

/// No existing article can be matched: there is nothing to compare with,
/// the fetch failed, nothing matches, or the first match carries no id.
pub open spec fn no_existing_match(post: Post, articles: Option<Seq<DevtoArticle>>) -> bool {
    match (post.front_matter.canonical_url, articles) {
        (Some(url), Some(arts)) => (forall|i: int|
            0 <= i < arts.len() ==> !article_matches(#[trigger] arts[i], url@)) || (exists|i: int|
            #[trigger] is_first_match(arts, url@, i) && id_rendering(arts[i]) is None),
        _ => true,
    }
}

/// An existing article was matched under `id`: the first matching entry of
/// the listing rendered that id.
pub open spec fn matched_existing(post: Post, articles: Option<Seq<DevtoArticle>>, id: Seq<char>) -> bool {
    match (post.front_matter.canonical_url, articles) {
        (Some(url), Some(arts)) => exists|i: int|
            #[trigger] is_first_match(arts, url@, i) && id_rendering(arts[i]) == Some(id),
        _ => false,
    }
}

/// Decides what to send: on a dry run only the read-only probe; otherwise
/// an update of the first matched article, or a create when nothing
/// matched.  Slug comparison is unsupported on Dev.to and a caller error.
pub fn plan_publish(post: Post, settings: &Settings, articles: Option<&Vec<DevtoArticle>>) -> (r:
    DevtoAction)
    requires
        settings.compare == Compare::CanonicalUrl,
    ensures
        settings.dry ==> r is Probe,
        !settings.dry ==> match r {
            DevtoAction::Probe => false,
            DevtoAction::Create(b) => body_corresponds(b, post) && no_existing_match(
                post,
                listing_view(articles),
            ),
            DevtoAction::Update(id, b) => body_corresponds(b, post) && matched_existing(
                post,
                listing_view(articles),
                id@,
            ),
        },
{
    let existing_id: Option<String> = match (&post.front_matter.canonical_url, articles) {
        (Some(url), Some(arts)) => find_existing(arts, url, settings.compare),
        _ => None,
    };
    if settings.dry {
        DevtoAction::Probe
    } else {
        let body = body_from_post(post);
        match existing_id {
            Some(id) => DevtoAction::Update(id, body),
            None => DevtoAction::Create(body),
        }
    }
}

} // verus!
