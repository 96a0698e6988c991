//! Proxy endpoints: the protocol table, input validation and the proxy URL.
use vstd::prelude::*;
use crate::text::{
    decimal_text, digits_value, is_digit, parse_u16, parse_u16_text, trim_end, trim_start, trim_text,
    trimmed, u16_text, unsigned_digits,
};

verus! {

/// The protocol a proxy server speaks.
#[derive(Clone, Copy, Debug, PartialEq, Eq, Structural)]
pub enum ProxyProtocol {
    Http,
    Socks5,
    Socks4,
}

/// The URL scheme of each protocol.
pub open spec fn scheme_text(p: ProxyProtocol) -> Seq<char> {
    match p {
        ProxyProtocol::Http => "http"@,
        ProxyProtocol::Socks5 => "socks5"@,
        ProxyProtocol::Socks4 => "socks4"@,
    }
}

/// The name of each protocol shown to the user.
pub open spec fn label_text(p: ProxyProtocol) -> Seq<char> {
    match p {
        ProxyProtocol::Http => "HTTP"@,
        ProxyProtocol::Socks5 => "SOCKS5"@,
        ProxyProtocol::Socks4 => "SOCKS4"@,
    }
}

impl ProxyProtocol {
    /// The URL scheme of the protocol.
    pub fn as_scheme(self) -> (r: &'static str)
        ensures
            r@ == scheme_text(self),
    {
        match self {
            ProxyProtocol::Http => "http",
            ProxyProtocol::Socks5 => "socks5",
            ProxyProtocol::Socks4 => "socks4",
        }
    }

    /// The protocol's name as shown to the user.
    pub fn label(self) -> (r: &'static str)
        ensures
            r@ == label_text(self),
    {
        match self {
            ProxyProtocol::Http => "HTTP",
            ProxyProtocol::Socks5 => "SOCKS5",
            ProxyProtocol::Socks4 => "SOCKS4",
        }
    }
}

/// Why an endpoint's input is unusable.
#[derive(Clone, Copy, Debug, PartialEq, Eq, Structural)]
pub enum ValidationError {
    /// The address is empty once white space is trimmed.
    EmptyIp,
    /// The trimmed port is not a number in `0..=65535`.
    InvalidPort,
}

impl ValidationError {
    /// The message shown for this error.
    pub fn message(self) -> (r: String)
        ensures
            r@ == match self {
                ValidationError::EmptyIp => "IP 地址不能为空"@,
                ValidationError::InvalidPort => "端口号无效（1-65535）"@,
            },
    {
        match self {
            ValidationError::EmptyIp => String::from_str("IP 地址不能为空"),
            ValidationError::InvalidPort => String::from_str("端口号无效（1-65535）"),
        }
    }
}

/// `{scheme}://{host}:{port}`.
pub open spec fn url_text(p: ProxyProtocol, host: Seq<char>, port: u16) -> Seq<char> {
    scheme_text(p) + "://"@ + host + ":"@ + decimal_text(port as nat)
}

/// The outcome of validating an address, a port and a protocol: the proxy URL
/// built from the trimmed address and the parsed port, or the first problem.
pub open spec fn validation(ip: Seq<char>, port: Seq<char>, p: ProxyProtocol) -> Result<
    Seq<char>,
    ValidationError,
> {
    if trimmed(ip).len() == 0 {
        Err(ValidationError::EmptyIp)
    } else {
        match parse_u16_text(trimmed(port)) {
            None => Err(ValidationError::InvalidPort),
            Some(n) => Ok(url_text(p, trimmed(ip), n)),
        }
    }
}

/// A result whose text is replaced by its view.
pub open spec fn text_result<E>(r: Result<String, E>) -> Result<Seq<char>, E> {
    match r {
        Ok(s) => Ok(s@),
        Err(e) => Err(e),
    }
}

/// Builds `{scheme}://{host}:{port}`.
pub fn proxy_url(p: ProxyProtocol, host: &str, port: u16) -> (r: String)
    ensures
        r@ == url_text(p, host@, port),
{
    let mut url = String::from_str(p.as_scheme());
    url.append("://");
    url.append(host);
    url.append(":");
    let digits = u16_text(port);
    url.append(digits.as_str());
    url
}

/// Checks an address and a port and renders the proxy URL for `p`.
pub fn validate(ip: &str, port: &str, p: ProxyProtocol) -> (r: Result<String, ValidationError>)
    ensures
        text_result(r) == validation(ip@, port@, p),
{
    let host = trim_text(ip);
    if host.unicode_len() == 0 {
        return Err(ValidationError::EmptyIp);
    }
    let port_text = trim_text(port);
    match parse_u16(port_text.as_str()) {
        None => Err(ValidationError::InvalidPort),
        Some(n) => Ok(proxy_url(p, host.as_str(), n)),
    }
}

/// An address that is not blank with a port that parses as a `u16` always
/// gives `{scheme}://{trimmed address}:{port}`, the scheme that of the
/// protocol and the port written in decimal.
pub proof fn lemma_accepted_inputs(ip: Seq<char>, port: Seq<char>, p: ProxyProtocol)
    requires
        trimmed(ip).len() > 0,
        parse_u16_text(trimmed(port)) is Some,
    ensures
        validation(ip, port, p) == Ok::<Seq<char>, ValidationError>(
            scheme_text(p) + "://"@ + trimmed(ip) + ":"@ + decimal_text(
                parse_u16_text(trimmed(port))->0 as nat,
            ),
        ),
{
}

/// An empty or all-white-space address is always refused as `EmptyIp`, and a
/// port of `abc` or `70000` is always refused as `InvalidPort`.
pub proof fn lemma_rejected_inputs(ip: Seq<char>, port: Seq<char>, p: ProxyProtocol)
    ensures
        validation(seq![], port, p) == Err::<Seq<char>, ValidationError>(ValidationError::EmptyIp),
        trimmed(ip).len() == 0 ==> validation(ip, port, p) == Err::<Seq<char>, ValidationError>(
            ValidationError::EmptyIp,
        ),
        trimmed(ip).len() > 0 ==> validation(ip, "abc"@, p) == Err::<Seq<char>, ValidationError>(
            ValidationError::InvalidPort,
        ),
        trimmed(ip).len() > 0 ==> validation(ip, "70000"@, p) == Err::<
            Seq<char>,
            ValidationError,
        >(ValidationError::InvalidPort),
{
    reveal_strlit("abc");
    reveal_strlit("70000");
    let abc = "abc"@;
    assert(trim_start(abc) == abc);
    assert(trim_end(abc) == abc);
    assert(!is_digit(unsigned_digits(abc)[0]));
    let big = "70000"@;
    assert(trim_start(big) == big);
    assert(trim_end(big) == big);
    reveal_with_fuel(digits_value, 6);
    assert(digits_value(big) == 70000) by {
        assert(big.drop_last() =~= seq!['7', '0', '0', '0']);
        assert(big.drop_last().drop_last() =~= seq!['7', '0', '0']);
        assert(big.drop_last().drop_last().drop_last() =~= seq!['7', '0']);
        assert(big.drop_last().drop_last().drop_last().drop_last() =~= seq!['7']);
        assert(seq!['7'].drop_last() =~= Seq::<char>::empty());
    }
}

} // verus!
