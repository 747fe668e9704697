use buddy2api::routes::{endpoints, openai_endpoints, Endpoint, Method};

#[test]
fn addresses_are_distinct_and_absolute() {
    let all = endpoints();
    assert_eq!(all.len(), 48);
    for (i, a) in all.iter().enumerate() {
        assert!(a.path().starts_with('/'));
        for b in &all[..i] {
            assert_ne!((a.method(), a.path()), (b.method(), b.path()));
        }
    }
}

#[test]
fn settings_are_read_and_written_at_one_path() {
    assert_eq!(Endpoint::ProxyConfig.path(), Endpoint::SaveProxyConfig.path());
    assert_eq!(Endpoint::ProxyConfig.method(), Method::Get);
    assert_eq!(Endpoint::SaveProxyConfig.method(), Method::Post);
    assert_eq!(Endpoint::SaveTravelConfig.path(), "/api/travel/config");
    assert_eq!(Endpoint::CnIdeDetect.method(), Method::Post);
    assert_eq!(Endpoint::CnIdeDetect.path(), "/api/codebuddy-cn-ide/detect");
}

#[test]
fn the_openai_interface_has_two_endpoints() {
    let addresses: Vec<(Method, &str)> =
        openai_endpoints().iter().map(|e| (e.method(), e.path())).collect();
    assert_eq!(
        addresses,
        vec![(Method::Post, "/v1/chat/completions"), (Method::Get, "/v1/models")]
    );
}
