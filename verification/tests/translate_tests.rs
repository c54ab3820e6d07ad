use fcgi_bridge::translate::{bytes_eq, check_http_prefix, check_token, check_uri, check_value, translate, CgiVars, TranslateError};

fn vars_of(pairs: &[(&[u8], &[u8])]) -> CgiVars {
    let mut vars = CgiVars::new();
    for (name, value) in pairs {
        vars.push(name.to_vec(), value.to_vec());
    }
    vars
}

#[test]
fn translates_the_concrete_scenario() {
    // REQUEST_METHOD=GET, REQUEST_URI=/hi, HTTP_X_TOKEN=abc
    let vars = vars_of(&[
        (b"REQUEST_METHOD", b"GET"),
        (b"REQUEST_URI", b"/hi"),
        (b"HTTP_X_TOKEN", b"abc"),
    ]);
    let head = translate(&vars).unwrap();
    assert_eq!(head.method, b"GET".to_vec());
    assert_eq!(head.uri, b"/hi".to_vec());
    assert_eq!(head.headers.len(), 1);
    assert_eq!(head.headers[0].0, b"x-token".to_vec());
    assert_eq!(head.headers[0].1, b"abc".to_vec());
}

#[test]
fn missing_dedicated_variables_fall_back_to_defaults() {
    let vars = vars_of(&[]);
    let head = translate(&vars).unwrap();
    assert_eq!(head.method, b"GET".to_vec());
    assert_eq!(head.uri, b"/".to_vec());
    assert!(head.headers.is_empty());
}

#[test]
fn content_headers_come_from_their_dedicated_variables() {
    let vars = vars_of(&[
        (b"REQUEST_METHOD", b"POST"),
        (b"REQUEST_URI", b"/submit"),
        (b"CONTENT_TYPE", b"text/plain"),
        (b"CONTENT_LENGTH", b"2"),
        (b"HTTP_ACCEPT", b"*/*"),
    ]);
    let head = translate(&vars).unwrap();
    assert_eq!(head.method, b"POST".to_vec());
    assert_eq!(head.headers.len(), 3);
    assert_eq!(head.headers[0].0, b"content-type".to_vec());
    assert_eq!(head.headers[0].1, b"text/plain".to_vec());
    assert_eq!(head.headers[1].0, b"content-length".to_vec());
    assert_eq!(head.headers[1].1, b"2".to_vec());
    assert_eq!(head.headers[2].0, b"accept".to_vec());
    assert_eq!(head.headers[2].1, b"*/*".to_vec());
}

#[test]
fn unprefixed_variables_never_become_headers() {
    let vars = vars_of(&[
        (b"REQUEST_METHOD", b"GET"),
        (b"REQUEST_URI", b"/"),
        (b"SERVER_PROTOCOL", b"HTTP/1.0"),
        (b"REMOTE_ADDR", b"127.0.0.1"),
        (b"QUERY_STRING", b"a=b"),
    ]);
    let head = translate(&vars).unwrap();
    assert!(head.headers.is_empty());
}

#[test]
fn prefixed_names_are_lowercased_and_underscores_become_hyphens() {
    let vars = vars_of(&[(b"HTTP_IF_NONE_MATCH", b"xyz")]);
    let head = translate(&vars).unwrap();
    assert_eq!(head.headers.len(), 1);
    assert_eq!(head.headers[0].0, b"if-none-match".to_vec());
}

#[test]
fn first_variable_wins_on_duplicate_names() {
    let vars = vars_of(&[(b"REQUEST_METHOD", b"PUT"), (b"REQUEST_METHOD", b"GET")]);
    let head = translate(&vars).unwrap();
    assert_eq!(head.method, b"PUT".to_vec());
}

#[test]
fn illegal_method_bytes_are_malformed() {
    let vars = vars_of(&[(b"REQUEST_METHOD", b"GE T")]);
    assert!(matches!(translate(&vars), Err(TranslateError::MalformedRequest)));
}

#[test]
fn empty_method_value_is_malformed() {
    let vars = vars_of(&[(b"REQUEST_METHOD", b"")]);
    assert!(matches!(translate(&vars), Err(TranslateError::MalformedRequest)));
}

#[test]
fn illegal_uri_bytes_are_malformed() {
    let vars = vars_of(&[(b"REQUEST_URI", b"/a b")]);
    assert!(matches!(translate(&vars), Err(TranslateError::MalformedRequest)));
}

#[test]
fn header_value_with_line_break_is_malformed() {
    let vars = vars_of(&[(b"HTTP_X_EVIL", b"a\r\nb")]);
    assert!(matches!(translate(&vars), Err(TranslateError::MalformedRequest)));
}

#[test]
fn header_name_with_illegal_byte_is_malformed() {
    // HTTP_@ canonicalizes to "@", which is no token byte.
    let vars = vars_of(&[(b"HTTP_@", b"x")]);
    assert!(matches!(translate(&vars), Err(TranslateError::MalformedRequest)));
}

#[test]
fn empty_header_name_after_prefix_is_malformed() {
    let vars = vars_of(&[(b"HTTP_", b"x")]);
    assert!(matches!(translate(&vars), Err(TranslateError::MalformedRequest)));
}

#[test]
fn byte_helpers_agree_with_the_grammar() {
    assert!(bytes_eq(b"abc", b"abc"));
    assert!(!bytes_eq(b"abc", b"abd"));
    assert!(!bytes_eq(b"abc", b"ab"));
    assert!(check_token(b"x-token"));
    assert!(!check_token(b""));
    assert!(!check_token(b"a b"));
    assert!(check_uri(b"/hi?q=1"));
    assert!(!check_uri(b""));
    assert!(check_value(b"text/plain; charset=utf-8"));
    assert!(!check_value(b"a\nb"));
    assert!(check_http_prefix(b"HTTP_X"));
    assert!(!check_http_prefix(b"HTTP"));
    assert!(!check_http_prefix(b"CONTENT_TYPE"));
}
