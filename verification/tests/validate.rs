use solana_scoring::validate::{is_short, is_short_url};

#[test]
fn short_strings_are_accepted() {
    assert_eq!(is_short(""), Ok(()));
    assert_eq!(is_short(&"a".repeat(255)), Ok(()));
}

#[test]
fn long_strings_are_rejected_with_a_message() {
    let s = "b".repeat(256);
    let r = is_short(&s);
    assert_eq!(r, Err(format!("too long: {}", s)));
}

#[test]
fn a_normal_https_url_is_accepted() {
    assert_eq!(is_short_url("https://example.org/m.json"), Ok(()));
}

#[test]
fn a_non_url_is_rejected() {
    assert!(is_short_url("notaurl").is_err());
}

#[test]
fn a_url_without_a_host_is_rejected() {
    assert_eq!(
        is_short_url("unix:/run/foo.socket"),
        Err("no host provided".to_string())
    );
}

#[test]
fn a_long_url_is_rejected() {
    let url = format!("https://example.org/{}", "c".repeat(300));
    let r = is_short_url(&url);
    assert_eq!(r, Err(format!("too long: {}", url)));
}
