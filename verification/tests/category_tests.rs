use gematom::category::Category;
use gematom::category::is_category;
use gematom::category::parse_categories;

#[test]
fn test_is_category() {
    assert_eq!(is_category("blabla:flat"), Ok(()));
    assert_eq!(is_category("news:tree"), Ok(()));
    assert_eq!(
        is_category("vers:zorgl"),
        Err(String::from("Not a valid category: zorgl"))
    );
    assert_eq!(
        is_category("vers:ici:tree"),
        Err(String::from("Bad category specification: vers:ici:tree"))
    );
}

#[test]
fn test_is_category_no_colon() {
    assert_eq!(
        is_category("nocolon"),
        Err(String::from("Bad category specification: nocolon"))
    );
}

#[test]
fn test_is_category_empty_kind() {
    assert_eq!(
        is_category("x:"),
        Err(String::from("Not a valid category: "))
    );
    assert_eq!(
        is_category(":flat"),
        Ok(())
    );
}

#[test]
fn test_category_from_str() {
    assert_eq!(Category::from_str("flat"), Ok(Category::Flat));
    assert_eq!(Category::from_str("tree"), Ok(Category::Tree));
    assert_eq!(
        Category::from_str("zorgl"),
        Err(String::from("Invalid category zorgl"))
    );
}

#[test]
fn test_parse_categories_basic() {
    let values = vec![String::from("news:tree"), String::from("notes:flat")];
    let cats = parse_categories(&values).unwrap();
    assert_eq!(cats.len(), 2);
    assert_eq!(cats[0].name, "news");
    assert_eq!(cats[0].kind, Category::Tree);
    assert_eq!(cats[1].name, "notes");
    assert_eq!(cats[1].kind, Category::Flat);
}

#[test]
fn test_parse_categories_last_kind_wins() {
    let values = vec![String::from("news:tree"), String::from("news:flat")];
    let cats = parse_categories(&values).unwrap();
    assert_eq!(cats.len(), 1);
    assert_eq!(cats[0].name, "news");
    assert_eq!(cats[0].kind, Category::Flat);
}

#[test]
fn test_parse_categories_bad_kind() {
    let values = vec![String::from("news:tree"), String::from("vers:zorgl:x")];
    match parse_categories(&values) {
        Ok(_) => panic!("a bad kind field must be rejected"),
        Err(e) => assert_eq!(e, "Invalid category zorgl"),
    }
}
