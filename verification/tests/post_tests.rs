use bullhorn::Error;
use bullhorn::post::Post;

#[test]
fn post_missing() {
    for text in &[
        // No front-matter
        "---\n \n---\nbody",
        "---\n\n---\nbody",
        "---\n---\nbody",
        // No body
        "---\ntitle: title\n---",
        // Nothing
        "",
    ] {
        let _ = Post::new(text);
    }
}

#[test]
fn post_lf() {
    let text = "--- \n\
            title: title \n\
            --- \n\
            body";
    let post = Post::new(text).unwrap();
    assert_eq!(post.front_matter.title, "title");
    assert_eq!(post.body, "body");
}

#[test]
fn post_crlf() {
    let text = "--- \r\n\
            title: title \r\n\
            --- \r\n\
            body";
    let post = Post::new(text).unwrap();
    println!("{}\n{} {}", text, post.front_matter.title, post.body);
    assert_eq!(post.front_matter.title, "title");
    assert_eq!(post.body, "body");
}

#[test]
fn post_mixed_line_endings() {
    let text = "--- \n\
            title: title \r\n\
            --- \r\n\
            body";
    let post = Post::new(text).unwrap();
    assert_eq!(post.front_matter.title, "title");
    assert_eq!(post.body, "body");
}

#[test]
fn post_all_fields() {
    let text = "---
title: title
canonical_url: https://server.io/canonical/url.html
tags: [tag0]
series: series
---
body";
    println!("TEXT:\n{}", text);
    let post = Post::new(text).unwrap();
    println!("{}\n{} {}", text, post.front_matter.title, post.body);
    assert_eq!(post.front_matter.title, "title");
    assert_eq!(post.body, "body");
}

#[test]
fn post_tags() {
    let no_tags = "---
title: title
tags:
---
body";
    let post = Post::new(no_tags).unwrap();
    assert_eq!(post.front_matter.tags, None);

    let one_tag = "---
title: title
tags: [tag0]
---
body";
    let post = Post::new(one_tag).unwrap();
    assert_eq!(post.front_matter.tags, Some(vec!["tag0".to_owned()]));

    let multiple_tags = Some(vec!["tag0".to_owned(), "tag1".to_owned()]);

    let list = "---
title: title
tags:
- tag0
- tag1
---
body";
    let post = Post::new(list).unwrap();
    assert_eq!(post.front_matter.tags, multiple_tags);

    let array = "---
title: title
tags: [tag0, tag1]
---
body";
    let post = Post::new(array).unwrap();
    assert_eq!(post.front_matter.tags, multiple_tags);
}

#[test]
fn post_bad_field() {
    let text = "---
title: title
bad_field: very naughty
---
body";
    let post = Post::new(text).unwrap();
    assert_eq!(post.front_matter.title, "title");
    assert_eq!(post.body, "body");
}

#[test]
fn post_dashes_code() {
    let text = "---
title: title
---

```
---
```";
    let post = Post::new(text).unwrap();
    assert_eq!(post.front_matter.title, "title");
    assert!(!post.body.is_empty());
}

#[test]
fn post_dashes_table() {
    let text = "---
title: title
---

| |
---|---
| |";
    let post = Post::new(text).unwrap();
    assert_eq!(post.front_matter.title, "title");
    assert!(!post.body.is_empty());
}

#[test]
fn post_comment() {
    let text = "---
title: title
# Comment
---
body
";
    let post = Post::new(text).unwrap();
    assert_eq!(post.front_matter.title, "title");
    assert!(!post.body.is_empty());
}

#[test]
fn body_kept_verbatim_past_second_delimiter() {
    // Dash lines inside the body never act as boundaries: the split takes
    // only the first two delimiters and the remainder verbatim.
    let post = Post::new("---\ntitle: title\n---\n```\n---\n```").unwrap();
    assert_eq!(post.body, "```\n---\n```");
    let post = Post::new("---\ntitle: title\n---\n| |\n---|---\n| |").unwrap();
    assert_eq!(post.body, "| |\n---|---\n| |");
}

#[test]
fn missing_sections_fail_with_bad_format() {
    // Front-matter only, no body section.
    let err = Post::new("---\ntitle: title\n---").unwrap_err();
    assert!(matches!(err, Error::BadFormat { ref thing } if thing == "no body"));
    // Body only, no front-matter delimiter at all.
    let err = Post::new("just some text\nwith lines\n").unwrap_err();
    assert!(matches!(err, Error::BadFormat { ref thing } if thing == "no front-matter"));
    // Empty and whitespace-only front-matter sections.
    let err = Post::new("---\n\n---\nbody").unwrap_err();
    assert!(matches!(err, Error::BadFormat { ref thing } if thing == "no front-matter"));
    let err = Post::new("---\n \n---\nbody").unwrap_err();
    assert!(matches!(err, Error::BadFormat { ref thing } if thing == "no front-matter"));
}

#[test]
fn line_endings_parse_to_same_document() {
    let lf = Post::new("---\ntitle: title\n---\nbody").unwrap();
    let crlf = Post::new("---\r\ntitle: title\r\n---\r\nbody").unwrap();
    let mixed = Post::new("---\ntitle: title\r\n---\r\nbody").unwrap();
    assert_eq!(lf.front_matter.title, crlf.front_matter.title);
    assert_eq!(lf.front_matter.title, mixed.front_matter.title);
    assert_eq!(lf.body, crlf.body);
    assert_eq!(lf.body, mixed.body);
}

#[test]
fn round_trip_preserves_set_fields() {
    let text = "---
title: A Title
canonical_url: https://server.io/2021/07/01/a-title.html
date: 2021-07-01
published: false
series: series
slug: a-title
tags: [tag0, tag1]
---
The body.
With a second line.";
    let first = Post::new(text).unwrap();
    let serialized = first.to_string().unwrap();
    let second = Post::new(&serialized).unwrap();
    assert_eq!(second.front_matter.title, first.front_matter.title);
    assert_eq!(second.front_matter.canonical_url, first.front_matter.canonical_url);
    assert_eq!(second.front_matter.date, first.front_matter.date);
    assert_eq!(second.front_matter.published, first.front_matter.published);
    assert_eq!(second.front_matter.series, first.front_matter.series);
    assert_eq!(second.front_matter.slug, first.front_matter.slug);
    assert_eq!(second.front_matter.tags, first.front_matter.tags);
    assert_eq!(second.body, first.body);
}

#[test]
fn round_trip_exact_when_defaults_are_explicit() {
    // With slug and published spelled out, serialization reproduces the
    // document exactly, field order included.
    let text = "---\ntitle: title\npublished: true\nslug: title\n---\nbody";
    let post = Post::new(text).unwrap();
    assert_eq!(post.to_string().unwrap(), text);
}

#[test]
fn slug_defaults_to_slugified_title() {
    let post = Post::new("---\ntitle: Some Fancy Title!\n---\nbody").unwrap();
    assert_eq!(post.front_matter.slug, Some("some-fancy-title".to_owned()));
    // An author-supplied slug is kept.
    let post = Post::new("---\ntitle: Some Fancy Title!\nslug: custom\n---\nbody").unwrap();
    assert_eq!(post.front_matter.slug, Some("custom".to_owned()));
}

#[test]
fn published_defaults_to_true() {
    let post = Post::new("---\ntitle: title\n---\nbody").unwrap();
    assert_eq!(post.front_matter.published, Some(true));
    assert!(post.front_matter.is_published());
    let post = Post::new("---\ntitle: title\npublished: false\n---\nbody").unwrap();
    assert_eq!(post.front_matter.published, Some(false));
    assert!(!post.front_matter.is_published());
}

#[test]
fn missing_title_is_not_found() {
    let err = Post::new("---\nlayout: post\n---\nbody").unwrap_err();
    assert!(matches!(err, Error::NotFound { ref expected } if expected == "title"));
}

#[test]
fn unparsable_front_matter_is_bad_string() {
    let err = Post::new("---\ntitle: [unclosed\n---\nbody").unwrap_err();
    assert!(matches!(err, Error::BadString { .. }));
}

#[test]
fn apply_overrides_draft_and_slug() {
    let mut post = Post::new("---\ntitle: title\n---\nbody").unwrap();
    let mut settings = bullhorn::settings::Settings::default();
    settings.draft = true;
    settings.slug = Some("forced".to_owned());
    post.apply(&settings);
    assert_eq!(post.front_matter.published, Some(false));
    assert_eq!(post.front_matter.slug, Some("forced".to_owned()));
    // Without overrides nothing changes.
    let mut post = Post::new("---\ntitle: title\n---\nbody").unwrap();
    let settings = bullhorn::settings::Settings::default();
    post.apply(&settings);
    assert_eq!(post.front_matter.published, Some(true));
    assert_eq!(post.front_matter.slug, Some("title".to_owned()));
}

#[test]
fn two_dash_delimiters_accepted() {
    // A delimiter is any line starting with two or more dashes.
    let post = Post::new("--\ntitle: title\n--\nbody").unwrap();
    assert_eq!(post.front_matter.title, "title");
    assert_eq!(post.body, "body");
    let post = Post::new("----------\ntitle: title\n----------\nbody").unwrap();
    assert_eq!(post.front_matter.title, "title");
    assert_eq!(post.body, "body");
}

#[test]
fn preamble_before_first_delimiter_is_discarded() {
    let post = Post::new("stray preamble\n---\ntitle: title\n---\nbody").unwrap();
    assert_eq!(post.front_matter.title, "title");
    assert_eq!(post.body, "body");
}
