use gematom::FeedError;
use gematom::category::Category;
use gematom::timestamp::epoch_from_ymd;
use gematom::timestamp::get_update_time;

#[test]
fn test_date_in_name_beats_filesystem_time() {
    let r = get_update_time("2022-01-02-note.gmi", Category::Flat, 987654321);
    assert_eq!(r, Ok(1641081600));
}

#[test]
fn test_tree_date_comes_from_parent_directory() {
    let r = get_update_time(
        "site/blog/2021-06-01-trip/index.gmi",
        Category::Tree,
        987654321,
    );
    assert_eq!(r, Ok(1622505600));
}

#[test]
fn test_no_date_prefix_uses_filesystem_time() {
    let r = get_update_time("note.gmi", Category::Flat, 987654321);
    assert_eq!(r, Ok(987654321));
    let partial = get_update_time("2022-01-note.gmi", Category::Flat, 42);
    assert_eq!(partial, Ok(42));
}

#[test]
fn test_impossible_stamp_is_an_error() {
    let r = get_update_time("2022-13-05-note.gmi", Category::Flat, 0);
    assert_eq!(r, Err(FeedError::InvalidDate));
    let feb = get_update_time("2021-02-29-note.gmi", Category::Flat, 0);
    assert_eq!(feb, Err(FeedError::InvalidDate));
}

#[test]
fn test_epoch_arithmetic_anchors() {
    assert_eq!(epoch_from_ymd(1970, 1, 1), 0);
    assert_eq!(epoch_from_ymd(1969, 12, 31), -86400);
    assert_eq!(epoch_from_ymd(2000, 2, 29), 951782400);
    assert_eq!(epoch_from_ymd(2022, 1, 2), 1641081600);
    assert_eq!(epoch_from_ymd(2100, 3, 1), 4107542400);
}
