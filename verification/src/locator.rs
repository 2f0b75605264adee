//! URLs, read by the `url` crate, and the address that the session reaches
//! the hub by.
use vstd::prelude::*;
use crate::text::opt_text;

verus! {

/// What the agent reads of a URL.
#[derive(Debug, PartialEq)]
pub struct UrlParts {
    /// The URL in its normal form.
    pub text: String,
    /// The scheme, such as `https`.
    pub scheme: String,
    /// The host, where the URL names one.
    pub host: Option<String>,
    /// The port, where the URL names one that is not the default of its
    /// scheme.
    pub port: Option<u16>,
}

/// The normal form in which `url::Url::parse` keeps a text that it accepts
/// as an absolute URL; `None` where it rejects the text.
pub uninterp spec fn url_normal_form(text: Seq<char>) -> Option<Seq<char>>;

/// What `Url::scheme` hands out for the URL that a text is parsed to.
pub uninterp spec fn url_scheme(text: Seq<char>) -> Seq<char>;

/// What `Url::host_str` hands out for the URL that a text is parsed to.
pub uninterp spec fn url_host(text: Seq<char>) -> Option<Seq<char>>;

/// What `Url::port` hands out for the URL that a text is parsed to.
pub uninterp spec fn url_port(text: Seq<char>) -> Option<u16>;

/// Calls `url::Url::parse` and, where it accepts the text, `Url::scheme`,
/// `Url::host_str` and `Url::port` on the URL, and hands out the URL's
/// text. Assumed: each outcome depends on the text alone, so it is the name
/// of that outcome applied to the text.
#[verifier::external_body]
pub(crate) fn read_url(text: &str) -> (r: Option<UrlParts>)
    ensures
        match r {
            Some(parts) => url_normal_form(text@) == Some(parts.text@) && parts.scheme@
                == url_scheme(text@) && opt_text(parts.host) == url_host(text@) && parts.port
                == url_port(text@),
            None => url_normal_form(text@) is None,
        },
{
    let url = url::Url::parse(text).ok()?;
    let scheme = url.scheme().to_string();
    let host = url.host_str().map(String::from);
    let port = url.port();
    Some(UrlParts { text: String::from(url), scheme, host, port })
}

/// The one character that stands for a digit.
pub open spec fn digit_text(digit: nat) -> Seq<char> {
    if digit == 0 {
        "0"@
    } else if digit == 1 {
        "1"@
    } else if digit == 2 {
        "2"@
    } else if digit == 3 {
        "3"@
    } else if digit == 4 {
        "4"@
    } else if digit == 5 {
        "5"@
    } else if digit == 6 {
        "6"@
    } else if digit == 7 {
        "7"@
    } else if digit == 8 {
        "8"@
    } else {
        "9"@
    }
}

/// A number in decimal digits, without leading zeros.
pub open spec fn decimal_text(n: nat) -> Seq<char>
    decreases n,
{
    if n < 10 {
        digit_text(n)
    } else {
        decimal_text(n / 10) + digit_text(n % 10)
    }
}

/// The address of a host: the host, and behind a colon the port where
/// there is one.
pub open spec fn address_text(host: Seq<char>, port: Option<u16>) -> Seq<char> {
    match port {
        Some(p) => host + ":"@ + decimal_text(p as nat),
        None => host,
    }
}

/// Protocol and address that a URL with the given parts is reached by;
/// `None` where the URL names no host.
pub open spec fn hub_address(
    scheme: Seq<char>,
    host: Option<Seq<char>>,
    port: Option<u16>,
) -> Option<(Seq<char>, Seq<char>)> {
    match host {
        Some(h) => Some((scheme, address_text(h, port))),
        None => None,
    }
}

/// Protocol and address that the URL in a text is reached by; `None` where
/// the text is no URL or the URL names no host.
pub open spec fn hub_address_of(text: Seq<char>) -> Option<(Seq<char>, Seq<char>)> {
    match url_normal_form(text) {
        Some(_) => hub_address(url_scheme(text), url_host(text), url_port(text)),
        None => None,
    }
}

/// The view of an optional pair of texts.
pub open spec fn opt_pair(pair: Option<(String, String)>) -> Option<(Seq<char>, Seq<char>)> {
    match pair {
        Some(p) => Some((p.0@, p.1@)),
        None => None,
    }
}

fn digit(d: u16) -> (text: &'static str)
    requires
        d < 10,
    ensures
        text@ == digit_text(d as nat),
{
    if d == 0 {
        "0"
    } else if d == 1 {
        "1"
    } else if d == 2 {
        "2"
    } else if d == 3 {
        "3"
    } else if d == 4 {
        "4"
    } else if d == 5 {
        "5"
    } else if d == 6 {
        "6"
    } else if d == 7 {
        "7"
    } else if d == 8 {
        "8"
    } else {
        "9"
    }
}

/// Writes a number in decimal digits.
pub fn decimal(n: u16) -> (text: String)
    ensures
        text@ == decimal_text(n as nat),
    decreases n,
{
    if n < 10 {
        String::from_str(digit(n))
    } else {
        let mut text = decimal(n / 10);
        text.append(digit(n % 10));
        text
    }
}

impl UrlParts {
    /// Protocol and address that the session reaches the hub by: the
    /// scheme of the URL, and its host with the port where it names one.
    /// `None` where the URL names no host.
    pub fn hub_address(&self) -> (address: Option<(String, String)>)
        ensures
            opt_pair(address) == hub_address(self.scheme@, opt_text(self.host), self.port),
    {
        match &self.host {
            Some(host) => {
                let mut address = host.clone();
                match self.port {
                    Some(port) => {
                        address.append(":");
                        let digits = decimal(port);
                        address.append(digits.as_str());
                    },
                    None => {},
                }
                Some((self.scheme.clone(), address))
            },
            None => None,
        }
    }
}

} // verus!
