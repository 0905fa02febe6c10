use wakatime_ls::locator::extract_uri_string;

#[test]
fn file_uri_becomes_local_path() {
    let uri = url::Url::parse("file:///var/log/test.txt").unwrap();
    assert_eq!(extract_uri_string(&uri), "/var/log/test.txt");
}

#[test]
fn file_uri_with_spaces_is_decoded() {
    let uri = url::Url::parse("file:///home/user/my%20notes.txt").unwrap();
    assert_eq!(extract_uri_string(&uri), "/home/user/my notes.txt");
}

#[test]
fn non_file_uri_falls_back_to_scheme_strip() {
    let uri = url::Url::parse("https://example.com/some/doc.txt").unwrap();
    assert_eq!(extract_uri_string(&uri), "example.com/some/doc.txt");
}

#[test]
fn untitled_uri_falls_back_to_scheme_strip() {
    let uri = url::Url::parse("untitled:Untitled-1").unwrap();
    assert_eq!(extract_uri_string(&uri), "Untitled-1");
}
