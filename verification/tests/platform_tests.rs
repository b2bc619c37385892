use bullhorn::Error;
use bullhorn::devto::{self, DevtoAction, DevtoArticle, DevtoId};
use bullhorn::hashnode::{
    self, HashnodeAction, PubPost, PubPosts, Publication, TagCategory, TagResolution,
};
use bullhorn::medium::{self, MediumAction};
use bullhorn::post::Post;
use bullhorn::settings::{Compare, Settings};
use bullhorn::tumblr::{self, ContentBlock, LinkRequest, Posts, TumblrAction, TumblrPost};

fn sample_post(text: &str) -> Post {
    Post::new(text).unwrap()
}

// ---------------------------------------------------------------------------
// Dev.to
// ---------------------------------------------------------------------------

#[test]
fn devto_tag_cap_keeps_first_four() {
    let post = sample_post(
        "---\ntitle: title\ntags: [t1, t2, t3, t4, t5, t6]\n---\nbody",
    );
    let body = devto::body_from_post(post);
    assert_eq!(body.article.tags, vec!["t1", "t2", "t3", "t4"]);
}

#[test]
fn devto_few_tags_kept_in_order() {
    let post = sample_post("---\ntitle: title\ntags: [t1, t2]\n---\nbody");
    let body = devto::body_from_post(post);
    assert_eq!(body.article.tags, vec!["t1", "t2"]);
    let post = sample_post("---\ntitle: title\n---\nbody");
    let body = devto::body_from_post(post);
    assert!(body.article.tags.is_empty());
}

fn listing_entry(id: Option<DevtoId>, url: &str) -> DevtoArticle {
    DevtoArticle { id, canonical_url: Some(url.to_owned()) }
}

#[test]
fn devto_match_first_wins() {
    let url = "https://server.io/a.html".to_owned();
    let articles = vec![
        listing_entry(Some(DevtoId::Str("zero".to_owned())), "https://server.io/other.html"),
        listing_entry(Some(DevtoId::Str("one".to_owned())), "https://server.io/a.html"),
        listing_entry(Some(DevtoId::Str("two".to_owned())), "https://server.io/a.html"),
    ];
    let id = devto::find_existing(&articles, &url, Compare::CanonicalUrl);
    assert_eq!(id, Some("one".to_owned()));
}

#[test]
fn devto_numeric_id_is_normalized() {
    let article = listing_entry(Some(DevtoId::Num(655788057293963264)), "u");
    assert_eq!(devto::get_id(&article), Some("655788057293963264".to_owned()));
    let article = listing_entry(None, "u");
    assert_eq!(devto::get_id(&article), None);
}

#[test]
fn devto_plan_updates_matched_article() {
    let post = sample_post(
        "---\ntitle: title\ncanonical_url: https://server.io/a.html\n---\nbody",
    );
    let settings = Settings::default();
    let articles = vec![listing_entry(Some(DevtoId::Num(7)), "https://server.io/a.html")];
    match devto::plan_publish(post, &settings, Some(&articles)) {
        DevtoAction::Update(id, body) => {
            assert_eq!(id, "7");
            assert_eq!(body.article.title, "title");
            assert_eq!(body.article.canonical_url, Some("https://server.io/a.html".to_owned()));
            assert!(body.article.published);
        }
        other => panic!("expected update, got {:?}", other),
    }
}

#[test]
fn devto_plan_creates_without_match() {
    let post = sample_post(
        "---\ntitle: title\ncanonical_url: https://server.io/a.html\n---\nbody",
    );
    let settings = Settings::default();
    let articles: Vec<DevtoArticle> = vec![];
    assert!(matches!(
        devto::plan_publish(post, &settings, Some(&articles)),
        DevtoAction::Create(_)
    ));
    // A failed fetch also counts as no existing match.
    let post = sample_post(
        "---\ntitle: title\ncanonical_url: https://server.io/a.html\n---\nbody",
    );
    assert!(matches!(devto::plan_publish(post, &settings, None), DevtoAction::Create(_)));
}

#[test]
fn devto_dry_run_plans_probe_only() {
    let post = sample_post(
        "---\ntitle: title\ncanonical_url: https://server.io/a.html\n---\nbody",
    );
    let mut settings = Settings::default();
    settings.dry = true;
    let articles = vec![listing_entry(Some(DevtoId::Num(7)), "https://server.io/a.html")];
    assert!(matches!(
        devto::plan_publish(post, &settings, Some(&articles)),
        DevtoAction::Probe
    ));
}

// ---------------------------------------------------------------------------
// Tumblr
// ---------------------------------------------------------------------------

fn link_post(id: &str, url: &str) -> TumblrPost {
    TumblrPost {
        id_string: id.to_owned(),
        content: vec![
            ContentBlock::Other,
            ContentBlock::Link { display_url: url.to_owned(), title: "t".to_owned() },
        ],
    }
}

#[test]
fn existing() {
    // The first listed post whose link block shows the canonical URL wins.
    let url = "https://rendered-obsolete.github.io/2021/05/03/dotnet_calli.html";
    let post = sample_post(&format!("---\ntitle: title\ncanonical_url: {}\n---\nbody", url));
    let posts = Posts {
        posts: vec![
            link_post("111", "https://other.example/x.html"),
            link_post("655788057293963264", url),
            link_post("999", url),
        ],
    };
    assert_eq!(tumblr::find_existing(&post, &posts).unwrap(), "655788057293963264");
}

#[test]
fn tumblr_no_match_creates() {
    let post = sample_post(
        "---\ntitle: title\ncanonical_url: https://server.io/a.html\n---\nbody",
    );
    let settings = Settings::default();
    let posts = Posts { posts: vec![link_post("1", "https://other.example/x.html")] };
    match tumblr::plan_publish(post, &settings, &"blog".to_owned(), &posts) {
        TumblrAction::Create { url, request } => {
            assert_eq!(url, "https://api.tumblr.com/v2/blog/blog/post");
            assert_eq!(request.id, None);
            assert_eq!(request.kind, "link");
            assert_eq!(request.url, "https://server.io/a.html");
            assert_eq!(request.title, Some("title".to_owned()));
        }
        other => panic!("expected create, got {:?}", other),
    }
}

#[test]
fn tumblr_match_updates_through_edit_endpoint() {
    let post = sample_post(
        "---\ntitle: title\ncanonical_url: https://server.io/a.html\ntags: [a, b, c]\n---\nbody",
    );
    let settings = Settings::default();
    let posts = Posts { posts: vec![link_post("42", "https://server.io/a.html")] };
    match tumblr::plan_publish(post, &settings, &"blog".to_owned(), &posts) {
        TumblrAction::Update { url, request } => {
            assert_eq!(url, "https://api.tumblr.com/v2/blog/blog/post/edit");
            assert_eq!(request.id, Some("42".to_owned()));
            assert_eq!(request.tags, Some("a,b,c".to_owned()));
        }
        other => panic!("expected update, got {:?}", other),
    }
}

#[test]
fn tumblr_dry_run_sends_nothing() {
    let post = sample_post(
        "---\ntitle: title\ncanonical_url: https://server.io/a.html\n---\nbody",
    );
    let mut settings = Settings::default();
    settings.dry = true;
    let posts = Posts { posts: vec![link_post("42", "https://server.io/a.html")] };
    assert!(matches!(
        tumblr::plan_publish(post, &settings, &"blog".to_owned(), &posts),
        TumblrAction::Skip
    ));
}

#[test]
fn tumblr_link_request_default() {
    let request = LinkRequest::default();
    assert_eq!(request.kind, "link");
    assert_eq!(request.id, None);
    assert_eq!(request.url, "");
    assert_eq!(request.tags, None);
}

#[test]
fn oauth_response_pairs() {
    let pairs = tumblr::parse_form_pairs("oauth_token=abc&oauth_token_secret=def&empty&x=1");
    assert_eq!(
        pairs,
        vec![
            ("oauth_token".to_owned(), "abc".to_owned()),
            ("oauth_token_secret".to_owned(), "def".to_owned()),
            ("x".to_owned(), "1".to_owned()),
        ]
    );
    assert_eq!(tumblr::get_value(&pairs, &"oauth_token".to_owned()).unwrap(), "abc");
    assert_eq!(tumblr::get_value(&pairs, &"oauth_token_secret".to_owned()).unwrap(), "def");
    let err = tumblr::get_value(&pairs, &"oauth_verifier".to_owned()).unwrap_err();
    assert!(matches!(err, Error::NotFound { ref expected } if expected == "oauth_verifier"));
}

// ---------------------------------------------------------------------------
// Medium
// ---------------------------------------------------------------------------

#[test]
fn parse_article() {
    // A fixed article page: the canonical link inside the head is found.
    let html = "<!DOCTYPE html><html><head>\
<meta charset=\"utf-8\"/>\
<!-- a comment with a <link rel=\"canonical\" href=\"https://wrong.example/\"/> inside -->\
<link rel=\"stylesheet\" href=\"https://cdn.example/style.css\"/>\
<link rel=\"canonical\" href=\"https://rendered-obsolete.github.io/2021/05/03/dotnet_calli.html\"/>\
<link rel=\"canonical\" href=\"https://second.example/ignored.html\"/>\
</head><body><p>text</p></body></html>";
    let canonical_url = medium::parse_article_canonical(html).unwrap();
    assert_eq!(
        canonical_url,
        "https://rendered-obsolete.github.io/2021/05/03/dotnet_calli.html"
    );
}

#[test]
fn canonical_links_outside_head_are_ignored() {
    let html = "<html><body><link rel=\"canonical\" href=\"https://x.example/\"/></body></html>";
    assert_eq!(medium::parse_article_canonical(html), None);
    // The scan stops at the close of the head.
    let html = "<html><head></head><link rel=\"canonical\" href=\"https://x.example/\"/></html>";
    assert_eq!(medium::parse_article_canonical(html), None);
}

#[test]
fn medium_story_match_is_byte_equality() {
    let html = "<html><head><link rel=\"canonical\" href=\"https://a.example/p.html\"/></head></html>";
    assert!(medium::story_matches(html, &"https://a.example/p.html".to_owned()));
    assert!(!medium::story_matches(html, &"https://a.example/P.html".to_owned()));
}

#[test]
fn medium_feed_links_in_order() {
    let feed = "<?xml version=\"1.0\"?><rss version=\"2.0\"><channel>\
<title>t</title><link>https://medium.com/@u</link><description>d</description>\
<item><title>one</title><link>https://medium.com/@u/one</link></item>\
<item><title>no-link</title></item>\
<item><title>two</title><link>https://medium.com/@u/two</link></item>\
</channel></rss>";
    let links = medium::feed_links(&feed.as_bytes().to_vec()).unwrap();
    assert_eq!(links, vec!["https://medium.com/@u/one", "https://medium.com/@u/two"]);
    let direct = medium::collect_links(&vec![
        Some("a".to_owned()),
        None,
        Some("b".to_owned()),
    ]);
    assert_eq!(direct, vec!["a", "b"]);
}

#[test]
fn medium_plan_is_create_or_nothing() {
    let post = sample_post("---\ntitle: title\n---\nbody");
    let settings = Settings::default();
    match medium::plan_publish(post, &settings) {
        MediumAction::Create(article) => {
            assert_eq!(article.title, "title");
            assert_eq!(article.content, "body");
            assert_eq!(article.publish_status, Some(medium::PublishStatus::Public));
            assert_eq!(article.content_format, medium::ContentFormat::Markdown);
        }
        other => panic!("expected create, got {:?}", other),
    }
    let post = sample_post("---\ntitle: title\npublished: false\n---\nbody");
    match medium::plan_publish(post, &settings) {
        MediumAction::Create(article) => {
            assert_eq!(article.publish_status, Some(medium::PublishStatus::Draft));
        }
        other => panic!("expected create, got {:?}", other),
    }
    let post = sample_post("---\ntitle: title\n---\nbody");
    let mut dry = Settings::default();
    dry.dry = true;
    assert!(matches!(medium::plan_publish(post, &dry), MediumAction::Skip));
}

#[test]
fn medium_urls() {
    assert_eq!(medium::feed_url(&"user".to_owned()), "https://medium.com/feed/@user");
    assert_eq!(medium::post_url(&"abc".to_owned()), "https://api.medium.com/v1/users/abc/posts");
}

// ---------------------------------------------------------------------------
// Hashnode
// ---------------------------------------------------------------------------

fn catalog() -> Vec<TagCategory> {
    vec![
        TagCategory { id: "id-rust".to_owned(), name: "Rust".to_owned(), slug: "rust".to_owned() },
        TagCategory {
            id: "id-dotnet".to_owned(),
            name: ".NET".to_owned(),
            slug: "dotnet".to_owned(),
        },
        TagCategory {
            id: "id-rust2".to_owned(),
            name: "rust".to_owned(),
            slug: "rust-lang".to_owned(),
        },
    ]
}

#[test]
fn hashnode_tag_catalog_match() {
    // Slugified match; the first catalog entry wins over a later one.
    assert_eq!(hashnode::resolve_tag(&catalog(), &"Rust".to_owned()), Some("id-rust".to_owned()));
    // Case-insensitive name match.
    assert_eq!(hashnode::resolve_tag(&catalog(), &".net".to_owned()), Some("id-dotnet".to_owned()));
    // A miss needs the page-scrape fallback.
    assert_eq!(hashnode::resolve_tag(&catalog(), &"golang".to_owned()), None);
}

#[test]
fn hashnode_tag_plan_and_finish() {
    let tags = vec!["Rust".to_owned(), "golang".to_owned(), ".NET".to_owned()];
    let plans = hashnode::plan_tags(&catalog(), &tags);
    assert!(matches!(plans[0], TagResolution::Resolved(ref id) if id == "id-rust"));
    assert!(matches!(plans[1], TagResolution::NeedsScrape(ref slug) if slug == "golang"));
    assert!(matches!(plans[2], TagResolution::Resolved(ref id) if id == "id-dotnet"));
    // The scrape resolved the middle tag: order is preserved.
    let scraped = vec![None, Some("id-go".to_owned()), None];
    assert_eq!(hashnode::finish_tags(&plans, &scraped), vec!["id-rust", "id-go", "id-dotnet"]);
    // A failed scrape drops the tag silently.
    let scraped = vec![None, None, None];
    assert_eq!(hashnode::finish_tags(&plans, &scraped), vec!["id-rust", "id-dotnet"]);
}

#[test]
fn parse_tag() {
    let html = "<html><head><title>dotnet</title></head><body>\
<script id=\"other\">ignored()</script>\
<script id=\"__NEXT_DATA__\" type=\"application/json\">\
{\"props\":{\"pageProps\":{\"statusCode\":200,\"extraData\":\
{\"_id\":\"56744721958ef13879b94cad\",\"name\":\"dotnet\",\"slug\":\"dotnet\"}}}}\
</script></body></html>";
    let info = hashnode::parse_tag_html(html).unwrap();
    assert_eq!(info.name, "dotnet");
    assert_eq!(info.id, "56744721958ef13879b94cad");
    assert_eq!(info.slug, "dotnet");
}

#[test]
fn tag_page_without_blob_is_not_found() {
    let err = hashnode::parse_tag_html("<html><head></head><body></body></html>").unwrap_err();
    assert!(matches!(err, Error::NotFound { .. }));
    let err = hashnode::parse_tag_html(
        "<html><body><script id=\"__NEXT_DATA__\">not json</script></body></html>",
    )
    .unwrap_err();
    assert!(matches!(err, Error::BadString { .. }));
}

#[test]
fn hashnode_lookup_matches_first_slug() {
    let post = sample_post("---\ntitle: title\nslug: my-post\n---\nbody");
    let resp = PubPosts {
        publication: Some(Publication {
            id: "pub-1".to_owned(),
            posts: vec![
                PubPost { id: "p0".to_owned(), slug: Some("other".to_owned()) },
                PubPost { id: "p1".to_owned(), slug: Some("my-post".to_owned()) },
                PubPost { id: "p2".to_owned(), slug: Some("my-post".to_owned()) },
            ],
        }),
    };
    let (pub_id, existing) = hashnode::get_pub_and_article_id(&resp, &post).unwrap();
    assert_eq!(pub_id, "pub-1");
    assert_eq!(existing, Some("p1".to_owned()));
}

#[test]
fn hashnode_missing_publication_aborts() {
    let post = sample_post("---\ntitle: title\n---\nbody");
    let resp = PubPosts { publication: None };
    let err = hashnode::get_pub_and_article_id(&resp, &post).unwrap_err();
    assert!(matches!(err, Error::NotFound { ref expected } if expected == "publication"));
}

#[test]
fn hashnode_plan_create_update_and_dry() {
    let settings = Settings::default();
    let post = sample_post("---\ntitle: title\ncanonical_url: https://c.example/\n---\nbody");
    match hashnode::plan_publish(
        post,
        &settings,
        "pub-1".to_owned(),
        None,
        vec!["id-rust".to_owned()],
    ) {
        HashnodeAction::Create(c) => {
            assert_eq!(c.title, "title");
            assert_eq!(c.publication_id, "pub-1");
            assert_eq!(c.tags, vec!["id-rust"]);
            assert_eq!(c.is_republished, Some("https://c.example/".to_owned()));
        }
        other => panic!("expected create, got {:?}", other),
    }
    let post = sample_post("---\ntitle: title\n---\nbody");
    match hashnode::plan_publish(
        post,
        &settings,
        "pub-1".to_owned(),
        Some("p1".to_owned()),
        vec![],
    ) {
        HashnodeAction::Update(u) => {
            assert_eq!(u.post_id, "p1");
            assert_eq!(u.slug, Some("title".to_owned()));
        }
        other => panic!("expected update, got {:?}", other),
    }
    let post = sample_post("---\ntitle: title\n---\nbody");
    let mut dry = Settings::default();
    dry.dry = true;
    assert!(matches!(
        hashnode::plan_publish(post, &dry, "pub-1".to_owned(), Some("p1".to_owned()), vec![]),
        HashnodeAction::Skip
    ));
}

#[test]
fn entity_references_decoded_in_href() {
    // The predefined entity references are decoded in attribute values,
    // so a canonical URL with a query string matches byte-for-byte.
    let html = "<html><head>\
<link rel=\"canonical\" href=\"https://a.example/p.html?x=1&amp;y=2\"/>\
</head></html>";
    let canonical = medium::parse_article_canonical(html).unwrap();
    assert_eq!(canonical, "https://a.example/p.html?x=1&y=2");
    assert!(medium::story_matches(html, &"https://a.example/p.html?x=1&y=2".to_owned()));
}
