use vn::Endpoint;

#[test]
fn endpoints_are_valid() {
    for endpoint in Endpoint::variants() {
        let url = endpoint.url();
        reqwest::Url::parse(&url).unwrap();
    }
}

#[test]
fn endpoint_urls_join_base_and_name() {
    assert_eq!(Endpoint::VisualNovel.url(), "https://api.vndb.org/kana/vn");
    assert_eq!(Endpoint::UlistLabels.url(), "https://api.vndb.org/kana/ulist_labels");
    assert_eq!(Endpoint::AuthInfo.url(), "https://api.vndb.org/kana/authinfo");
    assert_eq!(Endpoint::variants().len(), 14);
}
