use gematom::category::CatEntry;
use gematom::category::Category;
use gematom::discover::FsEntry;
use gematom::discover::collect_all_articles;
use gematom::discover::collect_articles;
use gematom::discover::mode_is_world_readable;

fn entry(path: &str, regular: bool, readable: bool) -> FsEntry {
    FsEntry { path: String::from(path), is_regular: regular, world_readable: readable }
}

#[test]
fn test_flat_discovery_excludes_index() {
    let listing = vec![
        entry("site/news/a.gmi", true, true),
        entry("site/news/index.gmi", true, true),
        entry("site/news/index.gemini", true, true),
        entry("site/news/b.gemini", true, true),
        entry("site/news/notes.txt", true, true),
        entry("site/news/sub/c.gmi", true, true),
    ];
    let r = collect_articles("news", Category::Flat, "site", &listing);
    let paths: Vec<&str> = r.iter().map(|p| p.0.as_str()).collect();
    assert_eq!(paths, vec!["site/news/a.gmi", "site/news/b.gemini"]);
    assert!(r.iter().all(|p| p.1 == Category::Flat));
}

#[test]
fn test_tree_discovery_keeps_only_nested_index() {
    let listing = vec![
        entry("site/blog/index.gmi", true, true),
        entry("site/blog/2021-06-01-trip/index.gmi", true, true),
        entry("site/blog/deep/down/index.gemini", true, true),
        entry("site/blog/2021-06-01-trip/photo.gmi", true, true),
    ];
    let r = collect_articles("blog", Category::Tree, "site", &listing);
    let paths: Vec<&str> = r.iter().map(|p| p.0.as_str()).collect();
    assert_eq!(
        paths,
        vec![
            "site/blog/2021-06-01-trip/index.gmi",
            "site/blog/deep/down/index.gemini"
        ]
    );
}

#[test]
fn test_readability_filter_is_absolute() {
    let listing = vec![
        entry("site/news/a.gmi", true, false),
        entry("site/news/b.gmi", false, true),
        entry("site/news/c.gmi", true, true),
    ];
    let r = collect_articles("news", Category::Flat, "site", &listing);
    assert_eq!(r.len(), 1);
    assert_eq!(r[0].0, "site/news/c.gmi");

    let tree_listing = vec![
        entry("site/blog/post/index.gmi", true, false),
        entry("site/blog/other/index.gmi", false, true),
    ];
    let rt = collect_articles("blog", Category::Tree, "site", &tree_listing);
    assert_eq!(rt.len(), 0);
}

#[test]
fn test_collect_all_merges_in_configuration_order() {
    let cats = vec![
        CatEntry { name: String::from("news"), kind: Category::Flat },
        CatEntry { name: String::from("blog"), kind: Category::Tree },
    ];
    let listings = vec![
        vec![entry("site/news/a.gmi", true, true)],
        vec![entry("site/blog/post/index.gmi", true, true)],
    ];
    let r = collect_all_articles(&cats, "site", &listings);
    let paths: Vec<&str> = r.iter().map(|p| p.0.as_str()).collect();
    assert_eq!(paths, vec!["site/news/a.gmi", "site/blog/post/index.gmi"]);
    assert_eq!(r[0].1, Category::Flat);
    assert_eq!(r[1].1, Category::Tree);
}

#[test]
fn test_mode_world_readable_bit() {
    assert!(mode_is_world_readable(0o644));
    assert!(!mode_is_world_readable(0o640));
}
