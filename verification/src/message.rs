//! The head of an HTTP message as the proxy reads and rewrites it.

use hyper::HeaderMap;
use vstd::prelude::*;

verus! {

/// Request method.
#[derive(Debug, Clone, PartialEq, Eq)]
pub enum Method {
    Options,
    Get,
    Post,
    Put,
    Delete,
    Head,
    Trace,
    Connect,
    Patch,
    /// Any method outside the standard set, by its token.
    Extension(String),
}

impl Method {
    /// Whether the method asks the proxy to open a tunnel.
    pub fn is_connect(&self) -> (connect: bool)
        ensures
            connect == (*self == Method::Connect),
    {
        match self {
            Method::Connect => true,
            _ => false,
        }
    }
}

/// Protocol version of a message.
#[derive(Debug, Clone, Copy, PartialEq, Eq, Structural)]
pub enum Version {
    Http09,
    Http10,
    Http11,
    Http2,
    Http3,
}

impl Version {
    /// Whether the version is one of the HTTP/1 family that sends the target
    /// of a request in origin form.
    pub open spec fn is_http1(self) -> bool {
        self == Version::Http10 || self == Version::Http11
    }

    /// Whether the version is HTTP/1.0 or HTTP/1.1.
    pub fn http1(&self) -> (http1: bool)
        ensures
            http1 == self.is_http1(),
    {
        match self {
            Version::Http10 => true,
            Version::Http11 => true,
            _ => false,
        }
    }
}

/// URI scheme.
#[derive(Debug, Clone, PartialEq, Eq)]
pub enum Scheme {
    Http,
    Https,
    /// Any other scheme, by its text.
    Other(String),
}

/// What the URI parser makes of an authority text: nothing when the text is
/// not an authority, otherwise its host and, when one is written, its port.
pub uninterp spec fn authority_parts(text: Seq<char>) -> Option<(Seq<char>, Option<u16>)>;

/// Trusted: `str::parse::<hyper::http::uri::Authority>` followed by
/// `Authority::host` and `Authority::port_u16` on the parsed value. The
/// outcome depends on the text alone; it is referred to as
/// [`authority_parts`].
#[verifier::external_body]
fn parse_authority_parts(text: &str) -> (parts: Option<(String, Option<u16>)>)
    ensures
        parts is Some <==> authority_parts(text@) is Some,
        parts matches Some(found) ==> authority_parts(text@) == Some((found.0@, found.1)),
{
    match text.parse::<hyper::http::uri::Authority>() {
        Ok(authority) => Some((authority.host().to_string(), authority.port_u16())),
        Err(_) => None,
    }
}

/// The `host[:port]` component of a URI: the target of a tunnel and the key
/// under which minted certificates are cached.
///
/// A value always holds a text the URI parser accepts, together with the host
/// and port the parser reads from it.
#[derive(Debug)]
pub struct Authority {
    text: String,
    host: String,
    port: Option<u16>,
}

impl View for Authority {
    type V = Seq<char>;

    /// The authority as written.
    closed spec fn view(&self) -> Seq<char> {
        self.text@
    }
}

impl Clone for Authority {
    fn clone(&self) -> (copy: Self)
        ensures
            copy == *self,
    {
        proof {
            use_type_invariant(self);
        }
        Authority { text: self.text.clone(), host: self.host.clone(), port: self.port }
    }
}

/// `text` with every ASCII upper-case letter replaced by its lower-case form.
pub open spec fn ascii_lowercase(text: Seq<u8>) -> Seq<u8> {
    text.map_values(|b: u8| if 0x41 <= b <= 0x5a { (b + 0x20) as u8 } else { b })
}

impl Authority {
    #[verifier::type_invariant]
    spec fn well_formed(self) -> bool {
        authority_parts(self.text@) == Some((self.host@, self.port))
    }

    /// The host part of the authority.
    pub closed spec fn host_view(self) -> Seq<char> {
        self.host@
    }

    /// The port written in the authority, if any.
    pub closed spec fn port_view(self) -> Option<u16> {
        self.port
    }

    /// The bytes of the authority as written.
    pub closed spec fn bytes(self) -> Seq<u8> {
        vstd::utf8::encode_utf8(self.text@)
    }

    /// Reads an authority from text; `None` when the text is not one.
    pub fn parse(text: &str) -> (parsed: Option<Authority>)
        ensures
            parsed is Some <==> authority_parts(text@) is Some,
            parsed matches Some(authority) ==> {
                &&& authority@ == text@
                &&& authority_parts(text@) == Some((authority.host_view(), authority.port_view()))
            },
    {
        match parse_authority_parts(text) {
            Some((host, port)) => Some(Authority { text: text.to_owned(), host, port }),
            None => None,
        }
    }

    /// The authority as written.
    pub fn as_str(&self) -> (text: &str)
        ensures
            text@ == self@,
    {
        self.text.as_str()
    }

    /// The host part.
    pub fn host(&self) -> (host: &str)
        ensures
            host@ == self.host_view(),
            authority_parts(self@) == Some((self.host_view(), self.port_view())),
    {
        proof {
            use_type_invariant(self);
        }
        self.host.as_str()
    }

    /// The port, if the authority names one.
    pub fn port_u16(&self) -> (port: Option<u16>)
        ensures
            port == self.port_view(),
            authority_parts(self@) == Some((self.host_view(), self.port_view())),
    {
        proof {
            use_type_invariant(self);
        }
        self.port
    }

    /// The key under which this authority is cached: its bytes in lower case,
    /// so that authorities differing only in ASCII case share an entry.
    pub fn cache_key(&self) -> (key: Vec<u8>)
        ensures
            key@ == ascii_lowercase(self.bytes()),
    {
        let bytes = self.text.as_str().as_bytes();
        let mut key: Vec<u8> = Vec::with_capacity(bytes.len());
        let mut i: usize = 0;
        while i < bytes.len()
            invariant
                i <= bytes.len(),
                bytes@ == self.bytes(),
                key@ == ascii_lowercase(bytes@.take(i as int)),
            decreases bytes.len() - i,
        {
            let b = bytes[i];
            let lower: u8 = if 0x41 <= b && b <= 0x5a { b + 0x20 } else { b };
            key.push(lower);
            i += 1;
            assert(key@ =~= ascii_lowercase(bytes@.take(i as int)));
        }
        assert(bytes@.take(i as int) =~= bytes@);
        key
    }
}

/// The components of a request target.
#[derive(Debug, Clone)]
pub struct UriParts {
    pub scheme: Option<Scheme>,
    pub authority: Option<Authority>,
    pub path_and_query: Option<String>,
}

/// Everything of a request but its body.
#[derive(Debug)]
pub struct RequestHead {
    pub method: Method,
    pub uri: UriParts,
    pub version: Version,
    pub headers: HeaderMap,
}

/// Everything of a response but its body.
#[derive(Debug)]
pub struct ResponseHead {
    pub status: u16,
    pub version: Version,
    pub headers: HeaderMap,
}

} // verus!
