use bullhorn::Error;
use bullhorn::github_pages::{
    FilenameParts, fill_from_pages, format_canonical_url, format_date, pages_host,
};
use bullhorn::post::Post;

#[test]
fn parse_filename() {
    let parts = bullhorn::github_pages::parse_filename("2021-7-1-test.md").unwrap();
    assert_eq!(
        parts,
        FilenameParts { year: 2021, month: 7, day: 1, name: "test".to_owned() }
    );

    let parts = bullhorn::github_pages::parse_filename("2021-07-01-test.md").unwrap();
    assert_eq!(
        parts,
        FilenameParts { year: 2021, month: 7, day: 1, name: "test".to_owned() }
    );

    let _ = bullhorn::github_pages::parse_filename("test.md").unwrap_err();
}

#[test]
fn parse_filename_with_directories() {
    let parts = bullhorn::github_pages::parse_filename("_posts/2021/2021-12-31-the-end.md").unwrap();
    assert_eq!(
        parts,
        FilenameParts { year: 2021, month: 12, day: 31, name: "the-end".to_owned() }
    );
}

#[test]
fn bad_filename_is_bad_path() {
    let err = bullhorn::github_pages::parse_filename("notes.md").unwrap_err();
    assert!(matches!(
        err,
        Error::BadPath { ref expected, ref found }
            if expected == "YYYY-MM-DD-name.ext" && found == "notes.md"
    ));
}

#[test]
fn pages_host_from_remote() {
    let host = pages_host(&"github:repo/repo.github.io.git".to_owned()).unwrap();
    assert_eq!(host, "repo.github.io");
    let host = pages_host(&"https://github.com/owner/owner.github.io".to_owned()).unwrap();
    assert_eq!(host, "owner.github.io");
    let err = pages_host(&"https://example.com/owner/repo.git".to_owned()).unwrap_err();
    assert!(matches!(
        err,
        Error::NotFound { ref expected } if expected == "repo/repo.github.io.git"
    ));
}

#[test]
fn canonical_url_is_zero_padded() {
    let parts = FilenameParts { year: 2021, month: 7, day: 1, name: "test".to_owned() };
    assert_eq!(
        format_canonical_url(&"repo.github.io".to_owned(), &parts),
        "https://repo.github.io/2021/07/01/test.html"
    );
    assert_eq!(format_date(&parts), "2021-07-01");
    let parts = FilenameParts { year: 2021, month: 12, day: 31, name: "x".to_owned() };
    assert_eq!(
        format_canonical_url(&"repo.github.io".to_owned(), &parts),
        "https://repo.github.io/2021/12/31/x.html"
    );
}

#[test]
fn fill_only_when_absent() {
    let parts = FilenameParts { year: 2021, month: 7, day: 1, name: "test".to_owned() };
    let host = "repo.github.io".to_owned();

    let mut post = Post::new("---\ntitle: title\n---\nbody").unwrap();
    fill_from_pages(&mut post, &host, &parts);
    assert_eq!(
        post.front_matter.canonical_url,
        Some("https://repo.github.io/2021/07/01/test.html".to_owned())
    );
    assert_eq!(post.front_matter.date, Some("2021-07-01".to_owned()));

    // Author-supplied values are never overwritten.
    let mut post = Post::new(
        "---\ntitle: title\ncanonical_url: https://mine.example/\ndate: 2020-01-01\n---\nbody",
    )
    .unwrap();
    fill_from_pages(&mut post, &host, &parts);
    assert_eq!(post.front_matter.canonical_url, Some("https://mine.example/".to_owned()));
    assert_eq!(post.front_matter.date, Some("2020-01-01".to_owned()));
}
