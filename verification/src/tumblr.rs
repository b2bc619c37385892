//! Tumblr adapter: matching the post against the blog's NPF content
//! blocks, building the legacy link-post request, and the create-or-update
//! decision.  OAuth signing and HTTP stay outside the library; the helpers
//! at the bottom parse the token-exchange response bodies.

use vstd::prelude::*;

use crate::Error;
use crate::post::Post;
use crate::settings::Settings;
use crate::strutil::{find_char_exec, first_index_from, lemma_first_index_bounds, join_comma, join_with_commas, pair_views, seq_views};

verus! {

/// One NPF content block, reduced to what the matching logic reads.
#[derive(Clone, Debug)]
pub enum ContentBlock {
    Link { display_url: String, title: String },
    Other,
}

/// One post of the blog listing.
#[derive(Clone, Debug)]
pub struct TumblrPost {
    pub id_string: String,
    pub content: Vec<ContentBlock>,
}

/// The blog listing returned by the posts endpoint.
#[derive(Clone, Debug)]
pub struct Posts {
    pub posts: Vec<TumblrPost>,
}

/// A block matches when it is a link block showing the canonical URL.
pub open spec fn block_matches(b: ContentBlock, url: Seq<char>) -> bool {
    match b {
        ContentBlock::Link { display_url, .. } => display_url@ == url,
        ContentBlock::Other => false,
    }
}

/// A post matches when any of its content blocks does.
pub open spec fn post_matches(p: TumblrPost, url: Seq<char>) -> bool {
    exists|i: int| 0 <= i < p.content@.len() && block_matches(#[trigger] p.content@[i], url)
}

/// Post `i` is the first of the listing that matches, in remote order.
pub open spec fn is_first_post_match(posts: Seq<TumblrPost>, url: Seq<char>, i: int) -> bool {
    &&& 0 <= i < posts.len()
    &&& post_matches(posts[i], url)
    &&& forall|j: int| 0 <= j < i ==> !post_matches(#[trigger] posts[j], url)
}

/// The post's canonical URL; Tumblr publishing requires one.
pub open spec fn the_url(post: Post) -> Seq<char> {
    post.front_matter.canonical_url.unwrap()@
}

fn post_has_link(p: &TumblrPost, url: &String) -> (r: bool)
    ensures
        r == post_matches(*p, url@),
{
    let mut i: usize = 0;
    while i < p.content.len()
        invariant
            i <= p.content@.len(),
            forall|j: int| 0 <= j < i ==> !block_matches(#[trigger] p.content@[j], url@),
        decreases p.content@.len() - i,
    {
        match &p.content[i] {
            ContentBlock::Link { display_url, .. } => {
                if *display_url == *url {
                    assert(block_matches(p.content@[i as int], url@));
                    return true;
                }
            },
            ContentBlock::Other => {},
        }
        i += 1;
    }
    false
}

/// Scans the listing in remote order for the first post with a link block
/// showing the post's canonical URL, and returns that post's id.
pub fn find_existing(post: &Post, posts: &Posts) -> (r: Option<String>)
    requires
        post.front_matter.canonical_url is Some,
    ensures
        match r {
            Some(id) => exists|i: int|
                #[trigger] is_first_post_match(posts.posts@, the_url(*post), i)
                    && posts.posts@[i].id_string@ == id@,
            None => forall|i: int|
                0 <= i < posts.posts@.len() ==> !post_matches(
                    #[trigger] posts.posts@[i],
                    the_url(*post),
                ),
        },
{
    let url = match &post.front_matter.canonical_url {
        Some(u) => u,
        None => {
            proof {
                assert(false);
            }
            return None;
        },
    };
    let mut i: usize = 0;
    while i < posts.posts.len()
        invariant
            i <= posts.posts@.len(),
            url@ == the_url(*post),
            forall|j: int|
                0 <= j < i ==> !post_matches(#[trigger] posts.posts@[j], the_url(*post)),
        decreases posts.posts@.len() - i,
    {
        if post_has_link(&posts.posts[i], url) {
            assert(is_first_post_match(posts.posts@, the_url(*post), i as int));
            return Some(posts.posts[i].id_string.clone());
        }
        i += 1;
    }
    None
}

/// Match-first-wins: when two listed posts both show the canonical URL in
/// a link block, the earlier post (in remote listing order) is the first
/// match, and a later duplicate never is.
pub proof fn lemma_post_match_first_wins(posts: Seq<TumblrPost>, url: Seq<char>, i: int, j: int)
    requires
        0 <= i < j < posts.len(),
        post_matches(posts[i], url),
        post_matches(posts[j], url),
        forall|k: int| 0 <= k < i ==> !post_matches(#[trigger] posts[k], url),
    ensures
        is_first_post_match(posts, url, i),
        !is_first_post_match(posts, url, j),
{
}

/// The legacy API request that creates or updates a link post.  The field
/// `kind` is serialized as the `type` parameter and is always `"link"`.
#[derive(Clone, Debug)]
pub struct LinkRequest {
    /// Set when updating an existing post, absent when creating one.
    pub id: Option<String>,
    pub kind: String,
    pub state: Option<String>,
    /// The tag list, comma-joined, as the API's string parameter.
    pub tags: Option<String>,
    pub date: Option<String>,
    pub format: Option<String>,
    pub title: Option<String>,
    pub url: String,
    pub description: Option<String>,
}

impl Default for LinkRequest {
    fn default() -> (r: Self)
        ensures
            r.id is None,
            r.kind@ == "link"@,
            r.state is None,
            r.tags is None,
            r.date is None,
            r.format is None,
            r.title is None,
            r.url@ == Seq::<char>::empty(),
            r.description is None,
    {
        LinkRequest {
            id: None,
            kind: String::from_str("link"),
            state: None,
            tags: None,
            date: None,
            format: None,
            title: None,
            url: String::new(),
            description: None,
        }
    }
}

/// The request carries exactly the post's title, its canonical URL, its
/// comma-joined tags, and — when updating — the matched id.
pub open spec fn request_corresponds(r: LinkRequest, post: Post, existing: Option<Seq<char>>) -> bool {
    &&& match (r.id, existing) {
        (Some(a), Some(b)) => a@ == b,
        (None, None) => true,
        _ => false,
    }
    &&& r.kind@ == "link"@
    &&& r.title == Some(post.front_matter.title)
    &&& r.url == post.front_matter.canonical_url.unwrap()
    &&& (post.front_matter.tags matches Some(t) ==> (r.tags matches Some(s) && s@ == join_comma(
        seq_views(t@),
    )))
    &&& (post.front_matter.tags is None ==> r.tags is None)
    &&& r.state is None
    &&& r.date is None
    &&& r.format is None
    &&& r.description is None
}

/// Builds the link-post request from the post: `id` set exactly when an
/// existing post was matched, tags comma-joined, URL taken from the
/// canonical URL, which must be present.
pub fn build_request(post: Post, existing: Option<String>) -> (r: LinkRequest)
    requires
        post.front_matter.canonical_url is Some,
    ensures
        r.id == existing,
        request_corresponds(
            r,
            post,
            match existing {
                Some(id) => Some(id@),
                None => None,
            },
        ),
{
    let tags = match &post.front_matter.tags {
        Some(t) => Some(join_with_commas(t)),
        None => None,
    };
    let url = match post.front_matter.canonical_url {
        Some(u) => u,
        None => {
            proof {
                assert(false);
            }
            String::new()
        },
    };
    LinkRequest {
        id: existing,
        kind: String::from_str("link"),
        state: None,
        tags,
        date: None,
        format: None,
        title: Some(post.front_matter.title),
        url,
        description: None,
    }
}

/// The legacy endpoint for this blog: `/post` to create, `/post/edit` to
/// update.
pub fn post_url(blog_id: &String, update: bool) -> (r: String)
    ensures
        update ==> r@ == "https://api.tumblr.com/v2/blog/"@ + blog_id@ + "/post/edit"@,
        !update ==> r@ == "https://api.tumblr.com/v2/blog/"@ + blog_id@ + "/post"@,
{
    let mut out = String::from_str("https://api.tumblr.com/v2/blog/");
    out.append(blog_id.as_str());
    if update {
        out.append("/post/edit");
    } else {
        out.append("/post");
    }
    out
}

/// What the adapter does after looking at the remote state.
#[derive(Clone, Debug)]
pub enum TumblrAction {
    /// Dry run: nothing is sent.
    Skip,
    /// No listed post shows the canonical URL: create.
    Create { url: String, request: LinkRequest },
    /// A listed post shows the canonical URL: update it under its id.
    Update { url: String, request: LinkRequest },
}

/// Decides what to send: on a dry run nothing at all; otherwise an update
/// of the first matched post through the edit endpoint, or a create.  A
/// canonical URL is required for Tumblr publishing.
pub fn plan_publish(post: Post, settings: &Settings, blog_id: &String, posts: &Posts) -> (r:
    TumblrAction)
    requires
        post.front_matter.canonical_url is Some,
    ensures
        settings.dry ==> r is Skip,
        !settings.dry ==> match r {
            TumblrAction::Skip => false,
            TumblrAction::Create { url, request } => {
                &&& forall|i: int|
                    0 <= i < posts.posts@.len() ==> !post_matches(
                        #[trigger] posts.posts@[i],
                        the_url(post),
                    )
                &&& request_corresponds(request, post, None)
                &&& url@ == "https://api.tumblr.com/v2/blog/"@ + blog_id@ + "/post"@
            },
            TumblrAction::Update { url, request } => {
                &&& exists|i: int|
                    #[trigger] is_first_post_match(posts.posts@, the_url(post), i)
                        && request_corresponds(request, post, Some(posts.posts@[i].id_string@))
                &&& url@ == "https://api.tumblr.com/v2/blog/"@ + blog_id@ + "/post/edit"@
            },
        },
{
    let existing = find_existing(&post, posts);
    if settings.dry {
        return TumblrAction::Skip;
    }
    let update = existing.is_some();
    let url = post_url(blog_id, update);
    let request = build_request(post, existing);
    if update {
        TumblrAction::Update { url, request }
    } else {
        TumblrAction::Create { url, request }
    }
}

// ---------------------------------------------------------------------------
// OAuth token-exchange response bodies: `key0=value0&key1=value1&...`.
// ---------------------------------------------------------------------------

#[via_fn]
proof fn pairs_from_decreases(s: Seq<char>, i: int) {
    if 0 <= i < s.len() {
        lemma_first_index_bounds(s, i, '&');
    }
}

/// The key-value pairs of a form-urlencoded body, from position `i` on:
/// segments are separated by `&`, each contributing pair splits at its
/// first `=`, and segments without `=` are dropped.
pub open spec fn pairs_from(s: Seq<char>, i: int) -> Seq<(Seq<char>, Seq<char>)>
    decreases s.len() - i,
    via pairs_from_decreases
{
    if i >= s.len() || i < 0 {
        Seq::empty()
    } else {
        let amp = first_index_from(s, i, '&');
        let eq = first_index_from(s, i, '=');
        let rest = if amp < s.len() {
            pairs_from(s, amp + 1)
        } else {
            Seq::empty()
        };
        if eq < amp {
            seq![(s.subrange(i, eq), s.subrange(eq + 1, amp))] + rest
        } else {
            rest
        }
    }
}

/// All key-value pairs of a form-urlencoded body.
pub open spec fn pairs_of(s: Seq<char>) -> Seq<(Seq<char>, Seq<char>)> {
    pairs_from(s, 0)
}

/// Parses a form-urlencoded body into its key-value pairs, in order.
pub fn parse_form_pairs(body: &str) -> (r: Vec<(String, String)>)
    ensures
        pair_views(r@) == pairs_of(body@),
{
    let n = body.unicode_len();
    let mut out: Vec<(String, String)> = Vec::new();
    let mut i: usize = 0;
    while i < n
        invariant
            n == body@.len(),
            i <= n,
            pair_views(out@) + pairs_from(body@, i as int) == pairs_of(body@),
        decreases n - i,
    {
        let amp = find_char_exec(body, i, n, '&');
        let eq = find_char_exec(body, i, n, '=');
        let ghost old_out = out@;
        if eq < amp {
            let key = body.substring_char(i, eq).to_owned();
            let value = body.substring_char(eq + 1, amp).to_owned();
            out.push((key, value));
            proof {
                assert(pair_views(out@) =~= pair_views(old_out) + seq![
                    (body@.subrange(i as int, eq as int), body@.subrange(eq + 1, amp as int)),
                ]);
                assert(pair_views(out@) + pairs_from(body@, amp + 1) =~= pairs_of(body@));
            }
        } else {
            proof {
                assert(pair_views(out@) + pairs_from(body@, amp + 1) =~= pairs_of(body@));
            }
        }
        if amp >= n {
            proof {
                assert(pairs_from(body@, (amp + 1) as int) =~= Seq::empty());
                assert(pairs_from(body@, n as int) =~= Seq::empty());
            }
            i = n;
        } else {
            i = amp + 1;
        }
    }
    proof {
        assert(pairs_from(body@, i as int) =~= Seq::empty());
        assert(pair_views(out@) =~= pairs_of(body@));
    }
    out
}

/// Pair `i` is the first one carrying the key.
pub open spec fn is_first_key_match(
    pairs: Seq<(Seq<char>, Seq<char>)>,
    key: Seq<char>,
    i: int,
) -> bool {
    &&& 0 <= i < pairs.len()
    &&& pairs[i].0 == key
    &&& forall|j: int| 0 <= j < i ==> (#[trigger] pairs[j]).0 != key
}

/// The value of the first pair carrying the key, or `NotFound` naming the
/// key when no pair does.
pub fn get_value(pairs: &Vec<(String, String)>, find_key: &String) -> (r: Result<String, Error>)
    ensures
        match r {
            Ok(v) => exists|i: int|
                #[trigger] is_first_key_match(pair_views(pairs@), find_key@, i) && v@ == pair_views(
                    pairs@,
                )[i].1,
            Err(e) => (forall|i: int|
                0 <= i < pairs@.len() ==> (#[trigger] pair_views(pairs@)[i]).0 != find_key@) && (
            e matches Error::NotFound {
                expected,
            } && expected@ == find_key@),
        },
{
    let mut i: usize = 0;
    while i < pairs.len()
        invariant
            i <= pairs@.len(),
            forall|j: int| 0 <= j < i ==> (#[trigger] pair_views(pairs@)[j]).0 != find_key@,
        decreases pairs@.len() - i,
    {
        if pairs[i].0 == *find_key {
            assert(is_first_key_match(pair_views(pairs@), find_key@, i as int));
            return Ok(pairs[i].1.clone());
        }
        assert((pair_views(pairs@)[i as int]).0 != find_key@);
        i += 1;
    }
    Err(Error::NotFound { expected: find_key.clone() })
}

} // verus!
