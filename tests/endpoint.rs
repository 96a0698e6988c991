use rproxy::endpoint::{proxy_url, validate, ProxyProtocol, ValidationError};

#[test]
fn proxy_scheme() {
    assert_eq!(ProxyProtocol::Http.as_scheme(), "http");
    assert_eq!(ProxyProtocol::Socks5.as_scheme(), "socks5");
    assert_eq!(ProxyProtocol::Socks4.as_scheme(), "socks4");
}

#[test]
fn protocol_labels() {
    assert_eq!(ProxyProtocol::Http.label(), "HTTP");
    assert_eq!(ProxyProtocol::Socks5.label(), "SOCKS5");
    assert_eq!(ProxyProtocol::Socks4.label(), "SOCKS4");
}

#[test]
fn validate_builds_url() {
    let url = validate("10.10.10.1", "8080", ProxyProtocol::Http).unwrap();
    assert_eq!(url, "http://10.10.10.1:8080");
}

#[test]
fn validate_trims_and_renders_parsed_port() {
    let url = validate("  1.2.3.4 ", " +080 ", ProxyProtocol::Socks5).unwrap();
    assert_eq!(url, "socks5://1.2.3.4:80");
}

#[test]
fn validate_port_bounds() {
    assert_eq!(validate("h", "0", ProxyProtocol::Socks4).unwrap(), "socks4://h:0");
    assert_eq!(validate("h", "65535", ProxyProtocol::Http).unwrap(), "http://h:65535");
    assert_eq!(validate("h", "65536", ProxyProtocol::Http), Err(ValidationError::InvalidPort));
}

#[test]
fn validate_rejects_bad_input() {
    assert_eq!(validate("", "8080", ProxyProtocol::Http), Err(ValidationError::EmptyIp));
    assert_eq!(validate(" \t", "8080", ProxyProtocol::Http), Err(ValidationError::EmptyIp));
    assert_eq!(validate("", "abc", ProxyProtocol::Http), Err(ValidationError::EmptyIp));
    assert_eq!(validate("1.1.1.1", "abc", ProxyProtocol::Http), Err(ValidationError::InvalidPort));
    assert_eq!(validate("1.1.1.1", "70000", ProxyProtocol::Http), Err(ValidationError::InvalidPort));
    assert_eq!(validate("1.1.1.1", "", ProxyProtocol::Http), Err(ValidationError::InvalidPort));
    assert_eq!(validate("1.1.1.1", "-1", ProxyProtocol::Http), Err(ValidationError::InvalidPort));
    assert_eq!(validate("1.1.1.1", "+", ProxyProtocol::Http), Err(ValidationError::InvalidPort));
}

#[test]
fn validation_messages() {
    assert_eq!(ValidationError::EmptyIp.message(), "IP 地址不能为空");
    assert_eq!(ValidationError::InvalidPort.message(), "端口号无效（1-65535）");
}

#[test]
fn proxy_url_format() {
    assert_eq!(proxy_url(ProxyProtocol::Socks5, "example.org", 1080), "socks5://example.org:1080");
}
