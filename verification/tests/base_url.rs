use syncoon::errors::AppError;
use syncoon::urls::parse_base_url;

#[test]
fn test_base_url_parse_https() {
    let base_url = parse_base_url("https://bla.dracoon.com/bla/somefile.pdf".into()).unwrap();
    assert_eq!(base_url, "https://bla.dracoon.com");
}

#[test]
fn test_base_url_parse_no_https() {
    let base_url = parse_base_url("bla.dracoon.com/bla/somefile.pdf".into()).unwrap();
    assert_eq!(base_url, "https://bla.dracoon.com");
}

#[test]
fn test_base_url_parse_invalid_path() {
    let base_url = parse_base_url("bla.dracoon.com".into());
    assert_eq!(
        base_url,
        Err(AppError::InvalidUrl("https://bla.dracoon.com".into()))
    );
}

#[test]
fn test_base_url_rejects_plain_http() {
    let base_url = parse_base_url("http://bla.example.com/x/file.pdf".into());
    assert_eq!(
        base_url,
        Err(AppError::InvalidUrl("http://bla.example.com/x/file.pdf".into()))
    );
}

#[test]
fn test_base_url_normalizes_bare_host_with_path() {
    let base_url = parse_base_url("bla.example.com/x/file.pdf".into()).unwrap();
    assert_eq!(base_url, "https://bla.example.com");
}

#[test]
fn test_base_url_host_only_with_trailing_slash() {
    let base_url = parse_base_url("bla.example.com/".into()).unwrap();
    assert_eq!(base_url, "https://bla.example.com");
}
