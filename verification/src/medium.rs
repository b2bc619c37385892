//! Medium adapter: payload mapping, the RSS-and-HTML scrape that looks
//! for an already published story carrying the same canonical link, and
//! the dry-run gate.  Medium has no update endpoint, so a match is
//! informational only: outside a dry run the adapter always creates.

use vstd::prelude::*;

use crate::post::Post;
use crate::scan::{
    attr_lookup, attr_lookup_exec, attrs_have, attrs_have_exec, comment_end, comment_end_exec,
    lemma_comment_end_bounds, lemma_name_end_bounds, lemma_scan_attrs_bounds, name_end,
    name_end_exec, scan_attrs, scan_attrs_exec,
};
use crate::settings::Settings;
use crate::strutil::{find_char_exec, first_index_from, lemma_first_index_bounds};

verus! {

#[via_fn]
proof fn scan_canonical_decreases(s: Seq<char>, i: int, in_head: bool) {
    if 0 <= i <= s.len() {
        lemma_first_index_bounds(s, i, '<');
        let lt = first_index_from(s, i, '<');
        if lt + 1 < s.len() {
            lemma_comment_end_bounds(s, lt + 4);
            lemma_first_index_bounds(s, lt + 1, '>');
            if lt + 2 <= s.len() {
                lemma_name_end_bounds(s, lt + 2);
                let ne2 = name_end(s, lt + 2);
                lemma_first_index_bounds(s, ne2, '>');
            }
            if lt + 1 <= s.len() {
                lemma_name_end_bounds(s, lt + 1);
                let ne = name_end(s, lt + 1);
                lemma_scan_attrs_bounds(s, ne);
            }
        }
    }
}

/// The scrape of an article page: scans tags from position `i`, entering
/// `<head>`, and yields the `href` of the first self-closing `<link>`
/// inside the head that carries `rel="canonical"`.  A close of the head,
/// the end of input, malformed markup, or a canonical link without an
/// `href` all end the scan empty-handed.
pub open spec fn scan_canonical(s: Seq<char>, i: int, in_head: bool) -> Option<Seq<char>>
    decreases s.len() - i,
    via scan_canonical_decreases
{
    if i < 0 || i > s.len() {
        None
    } else {
        let lt = first_index_from(s, i, '<');
        if lt + 1 >= s.len() {
            None
        } else if lt + 4 <= s.len() && s.subrange(lt, lt + 4) == "<!--"@ {
            match comment_end(s, lt + 4) {
                Some(e) => scan_canonical(s, e, in_head),
                None => None,
            }
        } else if s[lt + 1] == '!' || s[lt + 1] == '?' {
            let e = first_index_from(s, lt + 1, '>');
            if e < s.len() {
                scan_canonical(s, e + 1, in_head)
            } else {
                None
            }
        } else if s[lt + 1] == '/' {
            let ne = name_end(s, lt + 2);
            let e = first_index_from(s, ne, '>');
            if e >= s.len() {
                None
            } else if in_head && s.subrange(lt + 2, ne) == "head"@ {
                None
            } else {
                scan_canonical(s, e + 1, in_head)
            }
        } else {
            let ne = name_end(s, lt + 1);
            if ne == lt + 1 {
                scan_canonical(s, lt + 1, in_head)
            } else {
                match scan_attrs(s, ne) {
                    None => None,
                    Some((attrs, e, selfclosing)) => {
                        let name = s.subrange(lt + 1, ne);
                        if !in_head && name == "head"@ && !selfclosing {
                            scan_canonical(s, e, true)
                        } else if in_head && selfclosing && name == "link"@ {
                            if attrs_have(attrs, "rel"@, "canonical"@) {
                                attr_lookup(attrs, "href"@)
                            } else {
                                scan_canonical(s, e, in_head)
                            }
                        } else {
                            scan_canonical(s, e, in_head)
                        }
                    },
                }
            }
        }
    }
}

fn scan_canonical_exec(s: &str, i: usize, n: usize, in_head: bool) -> (r: Option<String>)
    requires
        n == s@.len(),
        i <= n,
    ensures
        match r {
            Some(v) => scan_canonical(s@, i as int, in_head) == Some(v@),
            None => scan_canonical(s@, i as int, in_head) is None,
        },
    decreases n - i,
{
    let lt = find_char_exec(s, i, n, '<');
    if n - lt < 2 {
        return None;
    }
    let c1 = s.get_char(lt + 1);
    if n - lt >= 4 && c1 == '!' && s.get_char(lt + 2) == '-' && s.get_char(lt + 3) == '-' {
        proof {
            reveal_strlit("<!--");
            assert(s@.subrange(lt as int, lt + 4) =~= "<!--"@);
        }
        match comment_end_exec(s, lt + 4, n) {
            Some(e) => {
                return scan_canonical_exec(s, e, n, in_head);
            },
            None => {
                return None;
            },
        }
    }
    proof {
        reveal_strlit("<!--");
        if lt + 4 <= n && s@.subrange(lt as int, lt + 4) == "<!--"@ {
            let sub = s@.subrange(lt as int, lt + 4);
            assert(s@[lt + 1] == sub[1] && s@[lt + 2] == sub[2] && s@[lt + 3] == sub[3]);
            assert(false);
        }
    }
    if c1 == '!' || c1 == '?' {
        let e = find_char_exec(s, lt + 1, n, '>');
        if e < n {
            return scan_canonical_exec(s, e + 1, n, in_head);
        }
        return None;
    }
    if c1 == '/' {
        let ne = name_end_exec(s, lt + 2, n);
        let e = find_char_exec(s, ne, n, '>');
        if e >= n {
            return None;
        }
        if in_head {
            let name = s.substring_char(lt + 2, ne).to_owned();
            if name == String::from_str("head") {
                return None;
            }
        }
        return scan_canonical_exec(s, e + 1, n, in_head);
    }
    let ne = name_end_exec(s, lt + 1, n);
    if ne == lt + 1 {
        return scan_canonical_exec(s, lt + 1, n, in_head);
    }
    match scan_attrs_exec(s, ne, n) {
        None => None,
        Some((attrs, e, selfclosing)) => {
            let name = s.substring_char(lt + 1, ne).to_owned();
            if !in_head && name == String::from_str("head") && !selfclosing {
                return scan_canonical_exec(s, e, n, true);
            }
            if in_head && selfclosing && name == String::from_str("link") {
                if attrs_have_exec(&attrs, &String::from_str("rel"), &String::from_str("canonical"))
                {
                    return attr_lookup_exec(&attrs, &String::from_str("href"));
                }
                return scan_canonical_exec(s, e, n, in_head);
            }
            scan_canonical_exec(s, e, n, in_head)
        },
    }
}

/// Extracts the canonical link of an article page: the `href` of the
/// first `<link rel="canonical" ... />` inside `<head>`.
pub fn parse_article_canonical(text: &str) -> (r: Option<String>)
    ensures
        match r {
            Some(u) => scan_canonical(text@, 0, false) == Some(u@),
            None => scan_canonical(text@, 0, false) is None,
        },
{
    let n = text.unicode_len();
    scan_canonical_exec(text, 0, n, false)
}

/// Whether a fetched story page is the post: its canonical link equals
/// the post's canonical URL, byte for byte.
pub fn story_matches(story: &str, canonical_url: &String) -> (r: bool)
    ensures
        r == (scan_canonical(story@, 0, false) == Some(canonical_url@)),
{
    match parse_article_canonical(story) {
        Some(u) => u == *canonical_url,
        None => false,
    }
}

// ---------------------------------------------------------------------------
// Feed handling.
// ---------------------------------------------------------------------------

/// Whether the rss crate parses these bytes as a feed.
pub uninterp spec fn feed_parses(feed: Seq<u8>) -> bool;

/// The per-item links of the parsed feed, in feed order, absent links
/// included.
pub uninterp spec fn feed_links_of(feed: Seq<u8>) -> Seq<Option<Seq<char>>>;

/// The views of a sequence of optional strings.
pub open spec fn opt_views(items: Seq<Option<String>>) -> Seq<Option<Seq<char>>> {
    items.map_values(
        |i: Option<String>|
            match i {
                Some(s) => Some(s@),
                None => None,
            },
    )
}

/// Relies on `rss::Channel::read_from`: parses the author's RSS feed and
/// hands out each item's link, in feed order, absent links included; the
/// closure only picks the item's link field.
#[verifier::external_body]
fn feed_item_links(feed: &Vec<u8>) -> (r: Result<Vec<Option<String>>, String>)
    ensures
        r matches Ok(items) ==> feed_parses(feed@) && opt_views(items@) == feed_links_of(feed@),
        r is Err ==> !feed_parses(feed@),
{
    match rss::Channel::read_from(&feed[..]) {
        Ok(channel) => Ok(channel.items.into_iter().map(|item| item.link).collect()),
        Err(e) => Err(e.to_string()),
    }
}

/// The links that are present from position `i` on, in order.
pub open spec fn present_links_from(items: Seq<Option<Seq<char>>>, i: int) -> Seq<Seq<char>>
    decreases items.len() - i,
{
    if i < 0 || i >= items.len() {
        Seq::empty()
    } else {
        (match items[i] {
            Some(l) => seq![l],
            None => Seq::empty(),
        }) + present_links_from(items, i + 1)
    }
}

proof fn lemma_links_agree(items: Seq<Option<String>>, i: int)
    ensures
        links_from(items, i) == present_links_from(opt_views(items), i),
    decreases items.len() - i,
{
    if 0 <= i < items.len() {
        lemma_links_agree(items, i + 1);
        assert(links_from(items, i) =~= present_links_from(opt_views(items), i));
    }
}

/// The present links from position `i` on, in order.
pub open spec fn links_from(items: Seq<Option<String>>, i: int) -> Seq<Seq<char>>
    decreases items.len() - i,
{
    if i < 0 || i >= items.len() {
        Seq::empty()
    } else {
        (match items[i] {
            Some(l) => seq![l@],
            None => Seq::empty(),
        }) + links_from(items, i + 1)
    }
}

/// Keeps the links that are present, in feed order.
pub fn collect_links(items: &Vec<Option<String>>) -> (r: Vec<String>)
    ensures
        crate::strutil::seq_views(r@) == links_from(items@, 0),
{
    let mut out: Vec<String> = Vec::new();
    let mut i: usize = 0;
    proof {
        assert(crate::strutil::seq_views(out@) + links_from(items@, 0) =~= links_from(items@, 0));
    }
    while i < items.len()
        invariant
            i <= items@.len(),
            crate::strutil::seq_views(out@) + links_from(items@, i as int) == links_from(
                items@,
                0,
            ),
        decreases items@.len() - i,
    {
        let ghost old_out = out@;
        match &items[i] {
            Some(l) => {
                out.push(l.clone());
                proof {
                    assert(crate::strutil::seq_views(out@) =~= crate::strutil::seq_views(old_out)
                        + seq![items@[i as int].unwrap()@]);
                    assert(crate::strutil::seq_views(out@) + links_from(items@, i + 1)
                        =~= links_from(items@, 0));
                }
            },
            None => {
                proof {
                    assert(crate::strutil::seq_views(out@) + links_from(items@, i + 1)
                        =~= links_from(items@, 0));
                }
            },
        }
        i += 1;
    }
    proof {
        assert(links_from(items@, i as int) =~= Seq::<Seq<char>>::empty());
        assert(crate::strutil::seq_views(out@) =~= links_from(items@, 0));
    }
    out
}

/// Parses the author's RSS feed and keeps the present item links, in
/// feed order.  Success is owed exactly when the feed parses, and the
/// result is the named item links with the absent ones dropped.
pub fn feed_links(feed: &Vec<u8>) -> (r: Result<Vec<String>, crate::Error>)
    ensures
        feed_parses(feed@) ==> (r matches Ok(links) && crate::strutil::seq_views(links@)
            == present_links_from(feed_links_of(feed@), 0)),
        !feed_parses(feed@) ==> (r matches Err(crate::Error::BadString { .. })),
{
    match feed_item_links(feed) {
        Ok(items) => {
            let links = collect_links(&items);
            proof {
                lemma_links_agree(items@, 0);
            }
            Ok(links)
        },
        Err(msg) => Err(crate::Error::BadString { expected: msg, found: String::new() }),
    }
}

/// The public feed of an author: `https://medium.com/feed/@{username}`.
pub fn feed_url(username: &String) -> (r: String)
    ensures
        r@ == "https://medium.com/feed/@"@ + username@,
{
    let mut out = String::from_str("https://medium.com/feed/@");
    out.append(username.as_str());
    out
}

// ---------------------------------------------------------------------------
// Payload mapping and the publish decision.
// ---------------------------------------------------------------------------

#[derive(Clone, Copy, Debug, PartialEq, Eq, Structural)]
pub enum ContentFormat {
    Html,
    Markdown,
}

#[derive(Clone, Copy, Debug, PartialEq, Eq, Structural)]
pub enum PublishStatus {
    Public,
    Draft,
    Unlisted,
}

/// The story payload of a create request.
#[derive(Clone, Debug)]
pub struct Article {
    pub title: String,
    pub content_format: ContentFormat,
    pub content: String,
    pub tags: Option<Vec<String>>,
    pub canonical_url: Option<String>,
    pub publish_status: Option<PublishStatus>,
    pub license: Option<String>,
    pub notify_followers: Option<bool>,
}

/// The authenticated user, as the `/me` endpoint reports it.
#[derive(Clone, Debug)]
pub struct MediumUser {
    pub id: String,
    pub username: String,
    pub name: String,
}

/// The payload carries the post verbatim, as Markdown, public unless the
/// post is a draft.
pub open spec fn article_corresponds(a: Article, post: Post) -> bool {
    &&& a.title == post.front_matter.title
    &&& a.content_format == ContentFormat::Markdown
    &&& a.content == post.body
    &&& a.tags == post.front_matter.tags
    &&& a.canonical_url == post.front_matter.canonical_url
    &&& a.publish_status == Some(
        if post.front_matter.spec_published() {
            PublishStatus::Public
        } else {
            PublishStatus::Draft
        },
    )
    &&& a.license is None
    &&& a.notify_followers is None
}

/// Maps a post to the story payload.
pub fn article_from_post(post: Post) -> (r: Article)
    ensures
        article_corresponds(r, post),
{
    let publish_status = Some(
        if post.front_matter.is_published() {
            PublishStatus::Public
        } else {
            PublishStatus::Draft
        },
    );
    Article {
        title: post.front_matter.title,
        content_format: ContentFormat::Markdown,
        content: post.body,
        tags: post.front_matter.tags,
        canonical_url: post.front_matter.canonical_url,
        publish_status,
        license: None,
        notify_followers: None,
    }
}

/// The create endpoint for the authenticated user.
pub fn post_url(user_id: &String) -> (r: String)
    ensures
        r@ == "https://api.medium.com/v1/users/"@ + user_id@ + "/posts"@,
{
    let mut out = String::from_str("https://api.medium.com/v1/users/");
    out.append(user_id.as_str());
    out.append("/posts");
    out
}

/// What the adapter does after the authentication check.
#[derive(Clone, Debug)]
pub enum MediumAction {
    /// Dry run: nothing is sent beyond the read-only authentication call.
    Skip,
    /// Create the story; Medium has no update endpoint, so any match found
    /// during the scrape is informational only.
    Create(Article),
}

/// Decides what to send: nothing on a dry run, otherwise always a create.
pub fn plan_publish(post: Post, settings: &Settings) -> (r: MediumAction)
    ensures
        settings.dry ==> r is Skip,
        !settings.dry ==> (r matches MediumAction::Create(a) && article_corresponds(a, post)),
{
    if settings.dry {
        MediumAction::Skip
    } else {
        MediumAction::Create(article_from_post(post))
    }
}

} // verus!
