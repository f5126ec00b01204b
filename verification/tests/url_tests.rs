use gematom::urls::entry_url;
use gematom::urls::is_gemini_url;

#[test]
fn test_is_gemini_url() {
    assert_eq!(is_gemini_url("gemini://retry-abort.org"), Ok(()));
    assert_eq!(is_gemini_url("gemini://retry-abort.org/"), Ok(()));
    assert_eq!(is_gemini_url("gemini://retry-abort.org/vers/"), Ok(()));
    assert_eq!(is_gemini_url("gemini://retry-abort.org/vers/test.gmi"), Ok(()));
    assert_eq!(
        is_gemini_url("gemini://user@retry-abort.org/vers/test.gmi"),
        Err(String::from(
            "user authentication not allowed in url gemini://user@retry-abort.org/vers/test.gmi"
        ))
    );
    assert_eq!(
        is_gemini_url("portnawak"),
        Err(String::from("relative URL without a base"))
    );
    assert_eq!(
        is_gemini_url("http://portnawak.com"),
        Err(String::from("Bad url scheme : http"))
    );
}

#[test]
fn test_is_gemini_url_password() {
    assert_eq!(
        is_gemini_url("gemini://:secret@retry-abort.org/"),
        Err(String::from(
            "user authentication not allowed in url gemini://:secret@retry-abort.org/"
        ))
    );
}

#[test]
fn test_entry_url_nested() {
    let u = entry_url("gemini://example.org/", "root/news/post.gmi", "root").unwrap();
    assert_eq!(u, "gemini://example.org/news/post.gmi");
}

#[test]
fn test_entry_url_in_root() {
    let u = entry_url("gemini://example.org/", "root/post.gmi", "root").unwrap();
    assert_eq!(u, "gemini://example.org/post.gmi");
}
