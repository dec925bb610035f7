use roxy::message::{Authority, Method, Version};

#[test]
fn authority_with_port_has_host_and_port() {
    let authority = Authority::parse("example.com:443").unwrap();
    assert_eq!(authority.as_str(), "example.com:443");
    assert_eq!(authority.host(), "example.com");
    assert_eq!(authority.port_u16(), Some(443));
}

#[test]
fn authority_without_port_has_none() {
    let authority = Authority::parse("example.com").unwrap();
    assert_eq!(authority.host(), "example.com");
    assert_eq!(authority.port_u16(), None);
}

#[test]
fn authority_with_user_info_and_ipv6_literal() {
    let authority = Authority::parse("user:pw@[::1]:8080").unwrap();
    assert_eq!(authority.as_str(), "user:pw@[::1]:8080");
    assert_eq!(authority.host(), "[::1]");
    assert_eq!(authority.port_u16(), Some(8080));
}

#[test]
fn text_that_is_no_authority_is_rejected() {
    assert!(Authority::parse("").is_none());
    assert!(Authority::parse("exa mple.com").is_none());
    assert!(Authority::parse("example.com/path").is_none());
    assert!(Authority::parse("user@").is_none());
}

#[test]
fn cloned_authority_is_the_same() {
    let authority = Authority::parse("example.com:22").unwrap();
    let copy = authority.clone();
    assert_eq!(copy.as_str(), "example.com:22");
    assert_eq!(copy.host(), "example.com");
    assert_eq!(copy.port_u16(), Some(22));
}

#[test]
fn cache_key_is_the_lower_case_text() {
    let authority = Authority::parse("ExAmPlE.COM:443").unwrap();
    assert_eq!(authority.cache_key(), b"example.com:443".to_vec());
    let plain = Authority::parse("a-z_0.9:1").unwrap();
    assert_eq!(plain.cache_key(), b"a-z_0.9:1".to_vec());
}

#[test]
fn only_connect_is_connect() {
    assert!(Method::Connect.is_connect());
    assert!(!Method::Get.is_connect());
    assert!(!Method::Extension("CONNECT2".to_string()).is_connect());
}

#[test]
fn http1_family_is_10_and_11() {
    assert!(Version::Http10.http1());
    assert!(Version::Http11.http1());
    assert!(!Version::Http09.http1());
    assert!(!Version::Http2.http1());
    assert!(!Version::Http3.http1());
}
