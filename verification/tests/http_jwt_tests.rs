use rcli::{
    ct_bytes_eq, dir_listing_html, file_response, jwt_validation_rules, Claims, FileLookup,
};

#[test]
fn test_dir_listing_html_renders_entries_in_order() {
    let entries = vec![
        ("docs/a.txt".to_string(), "a.txt".to_string()),
        ("docs/b".to_string(), "b".to_string()),
    ];
    let html = dir_listing_html("docs/../", &entries);
    assert_eq!(
        html,
        "<html><body><ul>\
         <li><a href=\"/docs/../\">../</a></li>\
         <li><a href=\"/docs/a.txt\">a.txt</a></li>\
         <li><a href=\"/docs/b\">b</a></li>\
         </ul></body></html>"
    );
}

#[test]
fn test_file_response_missing() {
    let r = file_response("sub/none.txt", FileLookup::Missing);
    assert_eq!(r.status, 404);
    assert_eq!(r.content_type, "text/plain");
    assert_eq!(r.body, "File sub/none.txt not found");
}

#[test]
fn test_file_response_content_and_errors() {
    let ok = file_response("a.txt", FileLookup::Content("hello".to_string()));
    assert_eq!(ok.status, 200);
    assert_eq!(ok.content_type, "text/plain");
    assert_eq!(ok.body, "hello");
    let broken = file_response("a.txt", FileLookup::Unreadable("denied".to_string()));
    assert_eq!(broken.status, 500);
    assert_eq!(broken.content_type, "text/plain");
    assert_eq!(broken.body, "denied");
}

#[test]
fn test_file_response_directory() {
    let r = file_response(
        "docs",
        FileLookup::Directory("docs/../".to_string(), vec![]),
    );
    assert_eq!(r.status, 200);
    assert_eq!(r.content_type, "text/html");
    assert_eq!(
        r.body,
        "<html><body><ul><li><a href=\"/docs/../\">../</a></li></ul></body></html>"
    );
}

#[test]
fn test_claims_construction() {
    let c = Claims::new(10000000000, Some("device1".to_string()), Some("acme".to_string()));
    assert_eq!(c.exp, 10000000000);
    assert_eq!(c.aud, Some("device1".to_string()));
    assert_eq!(c.sub, Some("acme".to_string()));
    assert_eq!(c.iat, None);
    assert_eq!(c.iss, None);
    assert_eq!(c.nbf, None);
    let d = Claims::default();
    assert_eq!(d.exp, 0);
    assert_eq!(d.aud, None);
    assert_eq!(d.sub, None);
}

#[test]
fn test_jwt_validation_rules() {
    let rules = jwt_validation_rules(Some("device1".to_string()), Some("acme".to_string()));
    assert_eq!(rules.required_claims, vec!["exp", "sub", "aud"]);
    assert_eq!(rules.aud, Some("device1".to_string()));
    assert_eq!(rules.sub, Some("acme".to_string()));
    let open = jwt_validation_rules(None, None);
    assert_eq!(open.required_claims, vec!["exp", "sub", "aud"]);
    assert_eq!(open.aud, None);
    assert_eq!(open.sub, None);
}

#[test]
fn test_ct_bytes_eq() {
    assert!(ct_bytes_eq(b"same bytes", b"same bytes"));
    assert!(!ct_bytes_eq(b"same bytes", b"same byteZ"));
    assert!(!ct_bytes_eq(b"short", b"longer input"));
    assert!(ct_bytes_eq(b"", b""));
}
