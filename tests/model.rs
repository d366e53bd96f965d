use std::time::Duration;

use trending::common::{PageParam, SearchReq};
use trending::errors::TrendingError;
use trending::options::ClientOptions;
use trending::platform::PlatformType;

#[test]
fn known_platforms_render_lowercase_tags() {
    let all = [
        (PlatformType::Zhihu, "zhihu"),
        (PlatformType::Weibo, "weibo"),
        (PlatformType::Toutiao, "toutiao"),
        (PlatformType::Tencent, "tencent"),
        (PlatformType::Tieba, "tieba"),
        (PlatformType::Netease, "netease"),
        (PlatformType::Hupu, "hupu"),
    ];
    for (p, tag) in all.iter() {
        assert_eq!(p.to_str(), *tag);
        assert_eq!(PlatformType::from_tag(tag).to_str(), *tag);
    }
    assert!(matches!(PlatformType::from_tag("zhihu"), PlatformType::Zhihu));
    assert!(matches!(PlatformType::from_tag("tencent"), PlatformType::Tencent));
}

#[test]
fn unknown_tag_is_kept_verbatim() {
    let p = PlatformType::from_tag("foo");
    match &p {
        PlatformType::Other(s) => assert_eq!(s, "foo"),
        _ => panic!("expected the open variant"),
    }
    assert_eq!(p.to_str(), "foo");
    assert!(matches!(PlatformType::from_tag("Zhihu"), PlatformType::Other(_)));
    assert_eq!(PlatformType::from_tag("").to_str(), "");
}

#[test]
fn search_request_builders() {
    let r = SearchReq::new("keyword");
    assert_eq!(r.keyword, "keyword");
    assert!(r.page.is_none() && r.size.is_none());
    let r = SearchReq::new("k").with_page(PageParam::from(3)).with_size(20);
    assert_eq!(r.keyword, "k");
    assert_eq!(r.page, Some(PageParam::Other(3)));
    assert_eq!(r.size, Some(20));
    let r = SearchReq::new("k").with_page(PageParam::First);
    assert_eq!(r.page, Some(PageParam::First));
    assert_eq!(r.size, None);
}

#[test]
fn header_lookup_ignores_case() {
    let o = ClientOptions::new().with_header("X-Test", "1").unwrap();
    assert!(o.contains_header("x-test"));
    assert!(o.contains_header("X-TEST"));
    assert!(!o.contains_header("x-other"));
    assert!(!o.contains_header("bad name"));
}

#[test]
fn new_options_are_empty() {
    let o = ClientOptions::new();
    assert!(!o.contains_header("x-test"));
    let (headers, timeout, proxy) = o.into_parts();
    assert!(headers.is_empty());
    assert!(timeout.is_none());
    assert!(proxy.is_none());
}

#[test]
fn later_header_replaces_earlier() {
    let o = ClientOptions::new()
        .with_header("Accept", "a")
        .unwrap()
        .with_header("X-One", "1")
        .unwrap()
        .with_header("ACCEPT", "b")
        .unwrap();
    let (headers, _, _) = o.into_parts();
    assert_eq!(headers.len(), 2);
    assert!(headers.contains(&("accept".to_string(), "b".to_string())));
    assert!(headers.contains(&("x-one".to_string(), "1".to_string())));
}

#[test]
fn invalid_header_name_is_refused() {
    match ClientOptions::new().with_header("bad name", "1") {
        Err(TrendingError::HeaderName { name }) => assert_eq!(name, "bad name"),
        other => panic!("unexpected {:?}", other),
    }
    assert!(matches!(
        ClientOptions::new().with_header("", "1"),
        Err(TrendingError::HeaderName { .. })
    ));
}

#[test]
fn invalid_header_value_is_refused() {
    match ClientOptions::new().with_header("x-a", "a\nb") {
        Err(TrendingError::HeaderValue { value }) => assert_eq!(value, "a\nb"),
        other => panic!("unexpected {:?}", other),
    }
    assert!(ClientOptions::new().with_header("x-a", "tab\tok").is_ok());
}

#[test]
fn with_headers_sets_each_or_fails() {
    let o = ClientOptions::new()
        .with_headers(vec![
            ("User-Agent".to_string(), "t".to_string()),
            ("X-B".to_string(), "2".to_string()),
        ])
        .unwrap();
    assert!(o.contains_header("user-agent"));
    assert!(o.contains_header("x-b"));
    let bad = ClientOptions::new()
        .with_headers(vec![("ok".to_string(), "1".to_string()), ("no\n".to_string(), "2".to_string())]);
    assert!(matches!(bad, Err(TrendingError::HeaderName { .. })));
}

#[test]
fn timeout_and_proxy_are_kept() {
    let o = ClientOptions::new()
        .with_timeout(Duration::from_secs(5))
        .with_proxy("http://127.0.0.1:8080")
        .unwrap();
    let (_, timeout, proxy) = o.into_parts();
    assert_eq!(timeout, Some(Duration::from_secs(5)));
    assert!(proxy.is_some());
}

#[test]
fn bad_proxy_is_refused() {
    match ClientOptions::new().with_proxy("http://exa mple.com") {
        Err(TrendingError::Proxy { proxy, .. }) => assert_eq!(proxy, "http://exa mple.com"),
        other => panic!("unexpected {:?}", other),
    }
}
