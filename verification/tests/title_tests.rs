use gematom::category::Category;
use gematom::text::clean_underscores;
use gematom::text::trim_str;
use gematom::title::default_title_str;
use gematom::title::extract_first_heading;
use gematom::title::get_feed_title;
use gematom::title::remove_rfc3339_date;

fn lines(ls: &[&str]) -> Vec<String> {
    ls.iter().map(|l| String::from(*l)).collect()
}

#[test]
fn test_first_heading_ignores_surroundings() {
    let ls = lines(&[
        "some prose before",
        "",
        "# Hello World",
        "more prose",
        "## a second heading",
    ]);
    assert_eq!(extract_first_heading(&ls, "default"), "Hello World");
    let only = lines(&["# Hello World"]);
    assert_eq!(extract_first_heading(&only, "default"), "Hello World");
}

#[test]
fn test_first_heading_multiple_markers_and_spaces() {
    let ls = lines(&["###   spaced out\t"]);
    assert_eq!(extract_first_heading(&ls, "default"), "spaced out");
}

#[test]
fn test_no_heading_falls_back() {
    let ls = lines(&["plain text", "still plain"]);
    assert_eq!(extract_first_heading(&ls, "the default"), "the default");
}

#[test]
fn test_heading_of_only_markers_is_empty() {
    let ls = lines(&["###"]);
    assert_eq!(extract_first_heading(&ls, "default"), "");
}

#[test]
fn test_default_title_strips_date() {
    assert_eq!(
        default_title_str("2023-05-01-my-post.gmi", Category::Flat, false),
        "my-post"
    );
}

#[test]
fn test_default_title_clean_underscores() {
    assert_eq!(
        default_title_str("2023-05-01_my_post.gmi", Category::Flat, true),
        "my post"
    );
}

#[test]
fn test_default_title_tree_uses_parent() {
    assert_eq!(
        default_title_str("blog/2021-06-01-trip/index.gmi", Category::Tree, false),
        "trip"
    );
}

#[test]
fn test_remove_rfc3339_date_cases() {
    assert_eq!(remove_rfc3339_date("2023-05-01-my-post"), "my-post");
    assert_eq!(remove_rfc3339_date("2023-05-01 _-note"), "note");
    assert_eq!(remove_rfc3339_date("no-date-here"), "no-date-here");
    assert_eq!(remove_rfc3339_date("2023-05-01"), "");
    assert_eq!(remove_rfc3339_date("2023-05-01--"), "--");
}

#[test]
fn test_get_feed_title_from_index() {
    let ls = lines(&["# My Site", "welcome"]);
    assert_eq!(get_feed_title("/srv/my_site", false, Some(&ls)), "My Site");
}

#[test]
fn test_get_feed_title_fallback_clean() {
    assert_eq!(get_feed_title("/srv/my_site", true, None), "my site");
    assert_eq!(get_feed_title("/srv/my_site", false, None), "my_site");
    let ls = lines(&["no heading in index"]);
    assert_eq!(get_feed_title("/srv/my_site", true, Some(&ls)), "my site");
}

#[test]
fn test_trim_and_clean_helpers() {
    assert_eq!(trim_str("  padded\u{00A0} "), "padded");
    assert_eq!(clean_underscores("a_b_c"), "a b c");
}
