//! The backend connector's arithmetic: from the configured base address and
//! the path of an upgrade request to the address that the relay connects to.

use vstd::prelude::*;

verus! {

/// The listening port when none is configured.
pub const DEFAULT_PORT: u16 = 4343;

/// The scheme of a backend base address.
#[derive(Debug, Clone, Copy, PartialEq, Eq, Structural)]
pub enum Scheme {
    Http,
    Https,
}

/// Why no backend address can be derived from a base address.
#[derive(Debug, Clone, Copy, PartialEq, Eq, Structural)]
pub enum AddressError {
    /// The base address does not begin with `http://` or `https://`.
    UnsupportedScheme,
}

/// The startup configuration: made once, handed to the listener and the
/// connector, never changed.
#[derive(Debug, Clone, PartialEq, Eq)]
pub struct Config {
    pub backend: String,
    pub port: u16,
}

/// The first four characters of `addr` spell `http`, in any case.
pub open spec fn begins_with_http(addr: Seq<char>) -> bool {
    &&& addr.len() >= 4
    &&& (addr[0] == 'h' || addr[0] == 'H')
    &&& (addr[1] == 't' || addr[1] == 'T')
    &&& (addr[2] == 't' || addr[2] == 'T')
    &&& (addr[3] == 'p' || addr[3] == 'P')
}

/// The scheme component of `addr` with its `://`, if it is `http` or `https`.
pub open spec fn scheme_of(addr: Seq<char>) -> Option<Scheme> {
    if begins_with_http(addr) && addr.len() >= 7 && addr[4] == ':' && addr[5] == '/' && addr[6]
        == '/' {
        Some(Scheme::Http)
    } else if begins_with_http(addr) && addr.len() >= 8 && (addr[4] == 's' || addr[4] == 'S')
        && addr[5] == ':' && addr[6] == '/' && addr[7] == '/' {
        Some(Scheme::Https)
    } else {
        None
    }
}

impl Scheme {
    /// How many characters of the address the scheme and its `://` take.
    pub open spec fn width(self) -> int {
        match self {
            Scheme::Http => 7,
            Scheme::Https => 8,
        }
    }

    /// What stands in the scheme's place in the derived address.
    pub open spec fn relay_prefix(self) -> Seq<char> {
        match self {
            Scheme::Http => "ws://"@,
            Scheme::Https => "wss://"@,
        }
    }
}

/// `s` without one `/` at its end, if it has one.
pub open spec fn without_trailing_slash(s: Seq<char>) -> Seq<char> {
    if s.len() > 0 && s.last() == '/' {
        s.drop_last()
    } else {
        s
    }
}

/// `s` without one `/` at its start, if it has one.
pub open spec fn without_leading_slash(s: Seq<char>) -> Seq<char> {
    if s.len() > 0 && s[0] == '/' {
        s.skip(1)
    } else {
        s
    }
}

/// The address of the backend's WebSocket endpoint for a request to `path`:
/// the base address with its scheme replaced and nothing else touched, then
/// the request's path and query, with exactly one `/` between the two.
pub open spec fn target_of(base: Seq<char>, path: Seq<char>) -> Option<Seq<char>> {
    match scheme_of(base) {
        Some(scheme) => Some(
            scheme.relay_prefix() + without_trailing_slash(base.skip(scheme.width())) + "/"@
                + without_leading_slash(path),
        ),
        None => None,
    }
}

/// A request's path with its query, as the request line had them.
pub open spec fn request_target_of(path: Seq<char>, query: Option<Seq<char>>) -> Seq<char> {
    match query {
        Some(query) => path + "?"@ + query,
        None => path,
    }
}

/// Puts a request's path and its query, if it has one, together again.
pub fn request_target(path: &str, query: Option<&str>) -> (target: String)
    ensures
        target@ == request_target_of(
            path@,
            match query {
                Some(query) => Some(query@),
                None => None,
            },
        ),
{
    let mut target = String::from_str(path);
    match query {
        Some(query) => {
            target.append("?");
            target.append(query);
        },
        None => {},
    }
    target
}

/// Reads the scheme of a base address.
pub fn scheme(addr: &str) -> (found: Option<Scheme>)
    ensures
        found == scheme_of(addr@),
{
    let n = addr.unicode_len();
    if n < 7 {
        return None;
    }
    let c0 = addr.get_char(0);
    let c1 = addr.get_char(1);
    let c2 = addr.get_char(2);
    let c3 = addr.get_char(3);
    if !((c0 == 'h' || c0 == 'H') && (c1 == 't' || c1 == 'T') && (c2 == 't' || c2 == 'T') && (c3
        == 'p' || c3 == 'P')) {
        return None;
    }
    let c4 = addr.get_char(4);
    let c5 = addr.get_char(5);
    let c6 = addr.get_char(6);
    if c4 == ':' {
        if c5 == '/' && c6 == '/' {
            Some(Scheme::Http)
        } else {
            None
        }
    } else if (c4 == 's' || c4 == 'S') && n >= 8 {
        if c5 == ':' && c6 == '/' && addr.get_char(7) == '/' {
            Some(Scheme::Https)
        } else {
            None
        }
    } else {
        None
    }
}

/// Derives the address to connect to for an upgrade request to `path`, or
/// says that the base address is not an HTTP or HTTPS address.
pub fn upgrade_target(base: &str, path: &str) -> (target: Result<String, AddressError>)
    ensures
        match target {
            Ok(address) => target_of(base@, path@) == Some(address@),
            Err(error) => target_of(base@, path@) is None && error
                == AddressError::UnsupportedScheme,
        },
{
    let found = scheme(base);
    let (mut address, start): (String, usize) = match found {
        None => {
            return Err(AddressError::UnsupportedScheme);
        },
        Some(Scheme::Http) => (String::from_str("ws://"), 7),
        Some(Scheme::Https) => (String::from_str("wss://"), 8),
    };
    let n = base.unicode_len();
    let end: usize = if n > start && base.get_char(n - 1) == '/' {
        (n - 1) as usize
    } else {
        n
    };
    let m = path.unicode_len();
    let from: usize = if m > 0 && path.get_char(0) == '/' {
        1
    } else {
        0
    };
    address.append(base.substring_char(start, end));
    address.append("/");
    address.append(path.substring_char(from, m));
    Ok(address)
}

impl Default for Config {
    /// The configuration of a proxy started without arguments.
    fn default() -> (config: Config)
        ensures
            config.backend@ == "http://127.0.0.1:8080/"@,
            config.port == DEFAULT_PORT,
    {
        Config { backend: String::from_str("http://127.0.0.1:8080/"), port: DEFAULT_PORT }
    }
}

impl Config {
    /// The address to connect to for an upgrade request to `path`.
    pub fn target(&self, path: &str) -> (target: Result<String, AddressError>)
        ensures
            match target {
                Ok(address) => target_of(self.backend@, path@) == Some(address@),
                Err(error) => target_of(self.backend@, path@) is None && error
                    == AddressError::UnsupportedScheme,
            },
    {
        upgrade_target(self.backend.as_str(), path)
    }
}

} // verus!
