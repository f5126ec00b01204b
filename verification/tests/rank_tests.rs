use gematom::feed::ArticleEntry;
use gematom::rank::select_entries;

fn entry(id: &str, updated: i64) -> ArticleEntry {
    ArticleEntry {
        id: String::from(id),
        link: String::from(id),
        title: String::from(id),
        updated,
    }
}

#[test]
fn test_ranking_keeps_ten_most_recent() {
    let times: Vec<i64> = vec![3, 14, 1, 9, 12, 5, 15, 2, 8, 11, 4, 13, 6, 10, 7];
    let entries: Vec<ArticleEntry> = times
        .iter()
        .map(|t| entry(&format!("e{}", t), *t))
        .collect();
    let sel = select_entries(entries, 10).unwrap();
    let got: Vec<i64> = sel.iter().map(|e| e.updated).collect();
    assert_eq!(got, vec![15, 14, 13, 12, 11, 10, 9, 8, 7, 6]);
}

#[test]
fn test_ranking_with_fewer_than_limit_keeps_all() {
    let entries = vec![entry("a", 5), entry("b", 9), entry("c", 7)];
    let sel = select_entries(entries, 10).unwrap();
    let got: Vec<i64> = sel.iter().map(|e| e.updated).collect();
    assert_eq!(got, vec![9, 7, 5]);
}

#[test]
fn test_ranking_limit_zero_yields_empty_selection() {
    let entries = vec![entry("a", 5)];
    let sel = select_entries(entries, 0).unwrap();
    assert_eq!(sel.len(), 0);
}

#[test]
fn test_ranking_nothing_to_rank_is_a_distinct_signal() {
    assert!(select_entries(Vec::new(), 10).is_none());
}

#[test]
fn test_ranking_ties_keep_all_tied_entries() {
    let entries = vec![entry("a", 7), entry("b", 7), entry("c", 3)];
    let sel = select_entries(entries, 2).unwrap();
    let got: Vec<i64> = sel.iter().map(|e| e.updated).collect();
    assert_eq!(got, vec![7, 7]);
}
