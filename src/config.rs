//! Where the service listens: a host and a port, each with a default.
use vstd::prelude::*;

use crate::text::{all_digits, decimal, digits_value, push_decimal};

verus! {

/// The port number that the text `s` writes: an optional `+`, then one or more
/// decimal digits whose value is at most 65535.
pub open spec fn port_number(s: Seq<char>) -> Option<u16> {
    let digits = if s.len() > 0 && s[0] == '+' {
        s.drop_first()
    } else {
        s
    };
    if digits.len() > 0 && all_digits(digits) && digits_value(digits) <= u16::MAX {
        Some(digits_value(digits) as u16)
    } else {
        None
    }
}

/// Parses a decimal port number.
///
/// Relies on `str::parse::<u16>` (`u16::from_str`), documented to accept an
/// optional `+` sign followed by decimal digits only, and to fail on an empty
/// string, on any other character and on a value above `u16::MAX`.
#[verifier::external_body]
fn parse_port(s: &str) -> (r: Option<u16>)
    ensures
        r == port_number(s@),
{
    s.parse::<u16>().ok()
}

/// The host bound to where none is given.
pub open spec fn default_host() -> Seq<char> {
    "0.0.0.0"@
}

/// The port bound to where none is given.
pub const DEFAULT_PORT: u16 = 8080;

/// The service's listening configuration.
pub struct Config {
    /// Host address to bind to.
    pub host: String,
    /// Port number to bind to.
    pub port: u16,
}

impl Config {
    /// The configuration from the host and port settings, where given; the
    /// defaults are `0.0.0.0` and 8080. `None` where a port is given that is not
    /// a port number.
    pub fn from_settings(host: Option<String>, port: Option<String>) -> (r: Option<Config>)
        ensures
            r is Some <==> (port matches Some(p) ==> port_number(p@) is Some),
            r matches Some(c) ==> c.host@ == (match host {
                Some(h) => h@,
                None => default_host(),
            }) && c.port == (match port {
                Some(p) => port_number(p@)->Some_0,
                None => DEFAULT_PORT,
            }),
    {
        let host = match host {
            Some(h) => h,
            None => String::from_str("0.0.0.0"),
        };
        let port = match port {
            Some(p) => match parse_port(p.as_str()) {
                Some(n) => n,
                None => return None,
            },
            None => DEFAULT_PORT,
        };
        Some(Config { host, port })
    }

    /// The bind address, `host:port`.
    pub fn bind_address(&self) -> (r: String)
        ensures
            r@ == self.host@ + ":"@ + decimal(self.port as nat),
    {
        let mut s = self.host.clone();
        s.append(":");
        push_decimal(&mut s, self.port as u32);
        s
    }
}

} // verus!
