use pointercrate_auth::mime::{parse_accept_header, parse_content_type_header, MimeProcess};

#[test]
fn content_type_header_parses_to_its_essence() {
    // the essence is extracted, not the raw input echoed back
    let essence = parse_content_type_header(" text/html; charset=utf-8 ").unwrap();
    assert_eq!(essence.top, "text");
    assert_eq!(essence.sub, "html");
}

#[test]
fn invalid_content_type_names_the_header() {
    let err = parse_content_type_header("not a media type").unwrap_err();
    assert_eq!(err.header, "Content-Type");
}

#[test]
fn accept_header_splits_at_commas_and_trims() {
    let accept = parse_accept_header("text/html,\tapplication/json;q=0.8 , image/png").unwrap();
    let pairs: Vec<(&str, &str)> =
        accept.0.iter().map(|m| (m.top.as_str(), m.sub.as_str())).collect();
    assert_eq!(pairs, vec![("text", "html"), ("application", "json"), ("image", "png")]);
}

#[test]
fn one_bad_accept_element_fails_the_whole_header() {
    let err = parse_accept_header("text/html, oops, image/png").unwrap_err();
    assert_eq!(err.header, "Accept");
    // an empty element (a trailing comma) does not parse either
    assert!(parse_accept_header("text/html,").is_err());
}

#[test]
fn request_without_headers_is_accepted_as_empty() {
    let (content_type, accept) = MimeProcess::start(None, None).unwrap();
    assert!(content_type.0.is_none());
    assert!(accept.0.is_empty());
}

#[test]
fn start_processes_both_headers() {
    let (content_type, accept) =
        MimeProcess::start(Some("application/json"), Some("text/html, text/plain")).unwrap();
    let essence = content_type.0.unwrap();
    assert_eq!((essence.top.as_str(), essence.sub.as_str()), ("application", "json"));
    assert_eq!(accept.0.len(), 2);
    assert_eq!(accept.0[1].sub, "plain");
    let err = MimeProcess::start(Some("bogus"), Some("text/html")).unwrap_err();
    assert_eq!(err.header, "Content-Type");
}
