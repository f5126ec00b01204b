use gematom::FeedError;
use gematom::category::Category;
use gematom::feed::ArticleEntry;
use gematom::feed::FeedConfig;
use gematom::feed::build_feed;
use gematom::feed::populate_entry_from_file;

fn lines(ls: &[&str]) -> Vec<String> {
    ls.iter().map(|l| String::from(*l)).collect()
}

fn config() -> FeedConfig {
    FeedConfig {
        base_url: String::from("gemini://example.org/"),
        title: None,
        subtitle: None,
        author: None,
        email: None,
        clean: false,
    }
}

fn entry(id: &str, updated: i64) -> ArticleEntry {
    ArticleEntry {
        id: String::from(id),
        link: String::from(id),
        title: String::from(id),
        updated,
    }
}

#[test]
fn test_populate_entry_nested_file() {
    let text = lines(&["intro", "# A Fine Post"]);
    let e = populate_entry_from_file(
        "site/news/2022-01-02-post.gmi",
        "gemini://example.org/",
        "site",
        Category::Flat,
        false,
        &text,
        7,
    )
    .unwrap();
    assert_eq!(e.id, "gemini://example.org/news/2022-01-02-post.gmi");
    assert_eq!(e.link, e.id);
    assert_eq!(e.title, "A Fine Post");
    assert_eq!(e.updated, 1641081600);
}

#[test]
fn test_populate_entry_defaults_without_heading() {
    let text = lines(&["no heading here"]);
    let e = populate_entry_from_file(
        "site/2023-05-01_my_post.gmi",
        "gemini://example.org/",
        "site",
        Category::Flat,
        true,
        &text,
        12345,
    )
    .unwrap();
    assert_eq!(e.id, "gemini://example.org/2023-05-01_my_post.gmi");
    assert_eq!(e.title, "my post");
    assert_eq!(e.updated, 1682899200);
}

#[test]
fn test_populate_entry_tree_article() {
    let text = lines(&[]);
    let e = populate_entry_from_file(
        "site/blog/walks/index.gmi",
        "gemini://example.org/",
        "site",
        Category::Tree,
        false,
        &text,
        777,
    )
    .unwrap();
    assert_eq!(e.id, "gemini://example.org/blog/walks/index.gmi");
    assert_eq!(e.title, "walks");
    assert_eq!(e.updated, 777);
}

#[test]
fn test_populate_entry_bad_stamp_aborts() {
    let text = lines(&[]);
    let r = populate_entry_from_file(
        "site/2022-99-99-post.gmi",
        "gemini://example.org/",
        "site",
        Category::Flat,
        false,
        &text,
        0,
    );
    match r {
        Err(e) => assert_eq!(e, FeedError::InvalidDate),
        Ok(_) => panic!("an impossible stamp must abort the entry"),
    }
}

#[test]
fn test_build_feed_fields() {
    let mut cfg = config();
    cfg.subtitle = Some(String::from("a quiet corner"));
    cfg.author = Some(String::from("Someone"));
    let doc = build_feed(
        &cfg,
        String::from("My Site"),
        vec![entry("a", 50), entry("b", 20)],
    )
    .unwrap();
    assert_eq!(doc.id, "gemini://example.org/");
    assert_eq!(doc.title, "My Site");
    assert_eq!(doc.subtitle.as_deref(), Some("a quiet corner"));
    assert_eq!(doc.generator_value, "gematom, an atom feed generator for gemini.");
    assert_eq!(doc.generator_uri, "https://github.com/drtutut/gematom");
    assert_eq!(doc.generator_version, "1.1.1");
    assert_eq!(doc.rights, "\u{a9} \u{c9}ric W\u{fc}rbel 2021");
    let person = doc.author.unwrap();
    assert_eq!(person.name, "Someone");
    assert_eq!(person.email, None);
    assert_eq!(doc.self_href, "gemini://example.org/");
    assert_eq!(doc.alternate_href, "gemini://example.org/");
    assert_eq!(doc.updated, 50);
    assert_eq!(doc.entries.len(), 2);
    assert_eq!(doc.entries[0].id, "a");
    assert_eq!(doc.entries[1].id, "b");
}

#[test]
fn test_build_feed_author_block_rules() {
    let doc = build_feed(&config(), String::from("t"), vec![entry("a", 1)]).unwrap();
    assert!(doc.author.is_none());

    let mut with_email = config();
    with_email.email = Some(String::from("me@example.org"));
    let doc2 = build_feed(&with_email, String::from("t"), vec![entry("a", 1)]).unwrap();
    let person = doc2.author.unwrap();
    assert_eq!(person.name, "");
    assert_eq!(person.email.as_deref(), Some("me@example.org"));

    let mut empty_author = config();
    empty_author.author = Some(String::new());
    let doc3 = build_feed(&empty_author, String::from("t"), vec![entry("a", 1)]).unwrap();
    assert!(doc3.author.is_none());
}

#[test]
fn test_build_feed_zero_entries_writes_nothing() {
    assert!(build_feed(&config(), String::from("t"), Vec::new()).is_none());
}
