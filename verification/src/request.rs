//! Request envelopes: a request in flight together with the identifier it
//! received when it entered the proxy.

use crate::error::BackendError;
use crate::headers::{header_values, header_values_of, remove_header};
use crate::ids::{following, RequestIdCounter};
use crate::message::{authority_parts, Authority, Method, RequestHead, Scheme, UriParts};
use crate::response::string_from_utf8;
use vstd::prelude::*;
use vstd::utf8::{decode_utf8, valid_utf8};

verus! {

/// A request on its way upstream.
#[derive(Debug)]
pub struct RoxyRequest<B> {
    head: RequestHead,
    body: B,
    request_id: u64,
}

/// What a [`RoxyRequest`] holds.
pub struct RequestView<B> {
    pub head: RequestHead,
    pub body: B,
    pub request_id: u64,
}

impl<B> View for RoxyRequest<B> {
    type V = RequestView<B>;

    closed spec fn view(&self) -> RequestView<B> {
        RequestView { head: self.head, body: self.body, request_id: self.request_id }
    }
}

/// The header names a forwarded request must not carry: the proxy hands
/// bodies on as they are and keeps no cache.
pub open spec fn without_cache_headers(values: Map<Seq<char>, Seq<Seq<u8>>>) -> Map<
    Seq<char>,
    Seq<Seq<u8>>,
> {
    values.remove("accept-encoding"@).remove("if-modified-since"@).remove("if-none-match"@)
}

/// Whether a header value can be read as text: every byte is a visible
/// ASCII character, a space or a tab.
pub open spec fn is_visible_ascii(value: Seq<u8>) -> bool {
    forall|i: int| 0 <= i < value.len() ==> (32 <= #[trigger] value[i] < 127 || value[i] == 9)
}

/// The authority a request names in its `Host` header: the first value of
/// the header, provided it reads as text and that text is an authority.
pub open spec fn host_authority(values: Map<Seq<char>, Seq<Seq<u8>>>) -> Option<Seq<char>> {
    if values.contains_key("host"@) && values["host"@].len() > 0 {
        let first = values["host"@][0];
        if is_visible_ascii(first) && valid_utf8(first) && authority_parts(decode_utf8(first))
            is Some {
            Some(decode_utf8(first))
        } else {
            None
        }
    } else {
        None
    }
}

fn visible_ascii(value: &[u8]) -> (visible: bool)
    ensures
        visible == is_visible_ascii(value@),
{
    let mut i: usize = 0;
    while i < value.len()
        invariant
            i <= value.len(),
            forall|k: int| 0 <= k < i ==> (32 <= #[trigger] value@[k] < 127 || value@[k] == 9),
        decreases value.len() - i,
    {
        let b = value[i];
        if !((32 <= b && b < 127) || b == 9) {
            return false;
        }
        i += 1;
    }
    true
}

impl<B> RoxyRequest<B> {
    /// Wraps a request under the given identifier.
    pub fn new(head: RequestHead, body: B, request_id: u64) -> (request: Self)
        ensures
            request@ == (RequestView { head, body, request_id }),
    {
        RoxyRequest { head, body, request_id }
    }

    /// Wraps a request that enters the proxy: it receives the next identifier
    /// of the counter, and the counter moves on.
    pub fn ingress(head: RequestHead, body: B, counter: &mut RequestIdCounter) -> (request: Self)
        ensures
            request@ == (RequestView { head, body, request_id: old(counter)@ }),
            final(counter)@ == following(old(counter)@),
    {
        let request_id = counter.next_id();
        RoxyRequest { head, body, request_id }
    }

    /// The identifier assigned when the request entered the proxy.
    pub fn request_id(&self) -> (id: u64)
        ensures
            id == self@.request_id,
    {
        self.request_id
    }

    /// The request method.
    pub fn method(&self) -> (method: &Method)
        ensures
            *method == self@.head.method,
    {
        &self.head.method
    }

    /// The request target.
    pub fn uri(&self) -> (uri: &UriParts)
        ensures
            *uri == self@.head.uri,
    {
        &self.head.uri
    }

    /// The head of the request.
    pub fn head(&self) -> (head: &RequestHead)
        ensures
            *head == self@.head,
    {
        &self.head
    }

    /// Takes the envelope apart.
    pub fn deconstruct(self) -> (parts: (u64, RequestHead, B))
        ensures
            parts == (self@.request_id, self@.head, self@.body),
    {
        (self.request_id, self.head, self.body)
    }

    /// Prepares the request for forwarding: the `Accept-Encoding`,
    /// `If-Modified-Since` and `If-None-Match` headers are dropped, everything
    /// else stays as it is.
    pub fn forward_request(self) -> (outbound: Self)
        ensures
            outbound@.request_id == self@.request_id,
            outbound@.body == self@.body,
            outbound@.head.method == self@.head.method,
            outbound@.head.uri == self@.head.uri,
            outbound@.head.version == self@.head.version,
            header_values(outbound@.head.headers) == without_cache_headers(
                header_values(self@.head.headers),
            ),
    {
        let mut request = self;
        proof {
            reveal_strlit("accept-encoding");
            reveal_strlit("if-modified-since");
            reveal_strlit("if-none-match");
        }
        remove_header(&mut request.head.headers, "accept-encoding");
        remove_header(&mut request.head.headers, "if-modified-since");
        remove_header(&mut request.head.headers, "if-none-match");
        request
    }

    /// Gives a request that names its target only in the `Host` header an
    /// absolute target: scheme `http`, the authority from the header, and the
    /// path the request came with, or `/` when it came with none. Without a
    /// usable `Host` header the request cannot be routed.
    pub fn route_by_host(self) -> (routed: Result<Self, BackendError>)
        ensures
            match host_authority(header_values(self@.head.headers)) {
                Some(host) => routed matches Ok(request) && {
                    &&& request@.request_id == self@.request_id
                    &&& request@.body == self@.body
                    &&& request@.head.method == self@.head.method
                    &&& request@.head.version == self@.head.version
                    &&& request@.head.headers == self@.head.headers
                    &&& request@.head.uri.scheme == Some(Scheme::Http)
                    &&& request@.head.uri.authority matches Some(authority) && authority@ == host
                    &&& match self@.head.uri.path_and_query {
                        Some(path) => request@.head.uri.path_and_query == Some(path),
                        None => request@.head.uri.path_and_query matches Some(path) && path@
                            == "/"@,
                    }
                },
                None => routed == Err::<Self, BackendError>(
                    BackendError::MissingOrInvalidHostHeader,
                ),
            },
    {
        proof {
            reveal_strlit("host");
        }
        let mut request = self;
        let mut hosts = header_values_of(&request.head.headers, "host");
        if hosts.len() == 0 {
            return Err(BackendError::MissingOrInvalidHostHeader);
        }
        let first = hosts.swap_remove(0);
        assert(first@ == header_values(self@.head.headers)["host"@][0]);
        if !visible_ascii(first.as_slice()) {
            return Err(BackendError::MissingOrInvalidHostHeader);
        }
        let text = match string_from_utf8(first) {
            Some(text) => text,
            None => return Err(BackendError::MissingOrInvalidHostHeader),
        };
        let authority = match Authority::parse(text.as_str()) {
            Some(authority) => authority,
            None => return Err(BackendError::MissingOrInvalidHostHeader),
        };
        request.head.uri.scheme = Some(Scheme::Http);
        request.head.uri.authority = Some(authority);
        if request.head.uri.path_and_query.is_none() {
            request.head.uri.path_and_query = Some("/".to_owned());
        }
        Ok(request)
    }
}

} // verus!
