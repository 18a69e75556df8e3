use edgelet_http::IdentityCertificateRequest;

#[test]
fn a_new_request_has_no_expiration() {
    assert_eq!(IdentityCertificateRequest::new().expiration(), None);
    assert_eq!(IdentityCertificateRequest::default().expiration(), None);
}

#[test]
fn the_expiration_is_what_was_set_last() {
    let mut request = IdentityCertificateRequest::new();
    request.set_expiration("2021-01-01T00:00:00Z".to_string());
    assert_eq!(request.expiration(), Some("2021-01-01T00:00:00Z"));
    request.set_expiration("2022-01-01T00:00:00Z".to_string());
    assert_eq!(request.expiration(), Some("2022-01-01T00:00:00Z"));
    let request = request.with_expiration(String::new());
    assert_eq!(request.expiration(), Some(""));
}

#[test]
fn reset_takes_the_expiration_away() {
    let mut request =
        IdentityCertificateRequest::new().with_expiration("2021-01-01T00:00:00Z".to_string());
    assert_eq!(request.expiration(), Some("2021-01-01T00:00:00Z"));
    request.reset_expiration();
    assert_eq!(request.expiration(), None);
}
