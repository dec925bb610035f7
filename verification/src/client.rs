//! The upstream client: how a request is prepared before it leaves the proxy
//! and what becomes of the outcome of sending it.

use crate::error::BackendError;
use crate::headers::{
    cookie_separator, has_room, header_values, header_values_of, is_header_value,
    join_bytes, joined, remove_header, replace_header, values_for,
};
use crate::message::{RequestHead, ResponseHead};
use crate::request::RoxyRequest;
use crate::response::{is_error_response, BodyView, ResponseView, RoxyResponse};
use hyper::HeaderMap;
use rustls::ClientConfig;
use vstd::prelude::*;

verus! {

/// `rustls::ClientConfig`, the TLS settings of an HTTPS client.
#[verifier::external_type_specification]
#[verifier::external_body]
pub struct ExClientConfig(ClientConfig);

/// How the upstream client reaches origin servers.
#[derive(Clone, Copy, Debug, PartialEq, Eq, Structural)]
pub enum Transport {
    /// Plain HTTP only: the connector refuses `https` targets.
    Http,
    /// HTTPS where the target asks for it, HTTP otherwise, every protocol
    /// version enabled.
    Https,
}

/// How the upstream client writes requests on the wire.
#[derive(Clone, Copy, Debug, PartialEq, Eq, Structural)]
pub struct WireOptions {
    /// Header names are written in the case in which they were received.
    pub preserve_header_case: bool,
    /// Header names without a recorded case are written in title case.
    pub title_case_headers: bool,
}

/// An HTTP client that supports both secure (HTTPS) and non-secure (HTTP)
/// connections.
pub struct HttpClient {
    /// TLS configuration for HTTPS connections; absent when using HTTP.
    tls_config: Option<ClientConfig>,
}

/// A request ready to be sent upstream.
pub struct Outbound<B> {
    /// Identifier of the request.
    pub request_id: u64,
    /// The sanitized head.
    pub head: RequestHead,
    /// The body, untouched.
    pub body: B,
    /// Whether the cookies are folded. Only a header map that refuses to
    /// store the folded value makes this `false`.
    pub folded: bool,
}

/// The headers of a request as they are sent upstream: no `Host`, and all
/// `Cookie` values folded into one, separated by `"; "`.
pub open spec fn sanitized(values: Map<Seq<char>, Seq<Seq<u8>>>) -> Map<Seq<char>, Seq<Seq<u8>>> {
    let hostless = values.remove("host"@);
    if hostless.contains_key("cookie"@) {
        hostless.insert("cookie"@, seq![joined(cookie_separator(), hostless["cookie"@])])
    } else {
        hostless
    }
}

/// How the headers after sanitizing relate to the headers before, given
/// whether the cookies could be folded. No `Host` header is left in any case.
/// Folding fails only when there are several `Cookie` headers and the header
/// map refuses to store the folded value, which a map that [`has_room`]
/// never does; the headers are then as before but for the
/// `Host` header.
pub open spec fn is_sanitized(
    before: Map<Seq<char>, Seq<Seq<u8>>>,
    after: Map<Seq<char>, Seq<Seq<u8>>>,
    folded: bool,
) -> bool {
    &&& !after.contains_key("host"@)
    &&& folded ==> after == sanitized(before)
    &&& !folded ==> after == before.remove("host"@)
    &&& values_for(before, "cookie"@).len() <= 1 ==> folded
    &&& has_room(before) ==> folded
}

/// Removes the `Host` header and folds all `Cookie` headers into one.
///
/// Returns whether the headers are now in sanitized form. The one way this
/// can fail is a header map that refuses to store the folded cookie value;
/// then only `Host` has been removed. A request with at most one `Cookie`
/// header is always sanitized.
pub fn sanitize_headers(headers: &mut HeaderMap) -> (folded: bool)
    ensures
        is_sanitized(header_values(*old(headers)), header_values(*final(headers)), folded),
{
    proof {
        reveal_strlit("host");
        reveal_strlit("cookie");
        lemma_sanitized_has_no_host(header_values(*old(headers)));
    }
    remove_header(headers, "host");
    let cookies = header_values_of(headers, "cookie");
    if cookies.len() <= 1 {
        proof {
            if cookies.len() == 1 {
                let hostless = header_values(*old(headers)).remove("host"@);
                assert(hostless["cookie"@] =~= seq![hostless["cookie"@][0]]);
                assert(hostless.insert("cookie"@, hostless["cookie"@]) =~= hostless);
            }
        }
        return true;
    }
    let separator: [u8; 2] = [0x3b, 0x20];
    assert(separator@ == cookie_separator());
    let folded_value = join_bytes(separator.as_slice(), &cookies);
    proof {
        assert forall|i: int| 0 <= i < cookies.deep_view().len() implies is_header_value(
            #[trigger] cookies.deep_view()[i],
        ) by {
            assert(cookies.deep_view()[i] == cookies[i]@);
        }
        lemma_joined_is_header_value(cookies.deep_view());
        if has_room(header_values(*old(headers))) {
            lemma_removal_leaves_room(header_values(*old(headers)), "host"@);
        }
    }
    replace_header(headers, "cookie", folded_value.as_slice())
}

/// Values that a header map may hold, joined by `"; "`, are again a value
/// that a header map may hold.
pub proof fn lemma_joined_is_header_value(items: Seq<Seq<u8>>)
    requires
        forall|i: int| 0 <= i < items.len() ==> is_header_value(#[trigger] items[i]),
    ensures
        is_header_value(joined(cookie_separator(), items)),
    decreases items.len(),
{
    if items.len() >= 2 {
        let earlier = items.drop_last();
        assert forall|i: int| 0 <= i < earlier.len() implies is_header_value(
            #[trigger] earlier[i],
        ) by {
            assert(earlier[i] == items[i]);
        }
        lemma_joined_is_header_value(earlier);
        let head = joined(cookie_separator(), earlier);
        let last = items.last();
        assert(is_header_value(last));
        let whole = head + cookie_separator() + last;
        assert forall|i: int| 0 <= i < whole.len() implies ((#[trigger] whole[i]) >= 32 && whole[i]
            != 127) || whole[i] == 9 by {
            if i < head.len() {
                assert(whole[i] == head[i]);
            } else if i < head.len() + 2 {
                assert(whole[i] == cookie_separator()[i - head.len()]);
            } else {
                assert(whole[i] == last[i - head.len() - 2]);
            }
        }
    } else if items.len() == 1 {
        assert(is_header_value(items[0]));
    }
}

/// A header map that has room still has room once a name is removed.
pub proof fn lemma_removal_leaves_room(values: Map<Seq<char>, Seq<Seq<u8>>>, name: Seq<char>)
    requires
        has_room(values),
    ensures
        has_room(values.remove(name)),
{
    assert(values.remove(name).dom() =~= values.dom().remove(name));
}

/// Sanitizing adds no name: headers that have room still have room once
/// sanitized, so a second pass folds as surely as the first and, by
/// [`lemma_sanitized_is_idempotent`], changes nothing.
pub proof fn lemma_sanitized_leaves_room(values: Map<Seq<char>, Seq<Seq<u8>>>)
    requires
        has_room(values),
    ensures
        has_room(sanitized(values)),
{
    lemma_removal_leaves_room(values, "host"@);
    assert(sanitized(values).dom() =~= values.remove("host"@).dom());
}

/// No `Host` header reaches the upstream client: sanitized headers never
/// hold one.
pub proof fn lemma_sanitized_has_no_host(values: Map<Seq<char>, Seq<Seq<u8>>>)
    ensures
        !sanitized(values).contains_key("host"@),
{
    reveal_strlit("host");
    reveal_strlit("cookie");
    assert("host"@.len() != "cookie"@.len());
}

/// Cookies are folded: sanitized headers hold a `Cookie` header exactly when
/// the headers did before, and then it has a single value, which is the
/// earlier values in their order, joined by `"; "`.
pub proof fn lemma_sanitized_folds_cookies(values: Map<Seq<char>, Seq<Seq<u8>>>)
    ensures
        sanitized(values).contains_key("cookie"@) <==> values.contains_key("cookie"@),
        values.contains_key("cookie"@) ==> sanitized(values)["cookie"@] == seq![
            joined(cookie_separator(), values["cookie"@]),
        ],
{
    reveal_strlit("host");
    reveal_strlit("cookie");
    assert("host"@.len() != "cookie"@.len());
}

/// Sanitizing touches nothing else: every header other than `Host` and
/// `Cookie` is present afterwards exactly when it was before, with the same
/// values in the same order.
pub proof fn lemma_sanitized_keeps_other_headers(
    values: Map<Seq<char>, Seq<Seq<u8>>>,
    name: Seq<char>,
)
    requires
        name != "host"@,
        name != "cookie"@,
    ensures
        sanitized(values).contains_key(name) <==> values.contains_key(name),
        values.contains_key(name) ==> sanitized(values)[name] == values[name],
{
}

/// Two values are joined with the separator between them.
pub proof fn lemma_joined_pair(separator: Seq<u8>, first: Seq<u8>, second: Seq<u8>)
    ensures
        joined(separator, seq![first, second]) == first + separator + second,
{
    let pair = seq![first, second];
    assert(pair.drop_last() =~= seq![first]);
    assert(joined(separator, pair.drop_last()) == first);
}

/// Sanitizing twice is the same as sanitizing once.
pub proof fn lemma_sanitized_is_idempotent(values: Map<Seq<char>, Seq<Seq<u8>>>)
    ensures
        sanitized(sanitized(values)) == sanitized(values),
{
    reveal_strlit("host");
    reveal_strlit("cookie");
    assert("host"@.len() != "cookie"@.len());
    let once = sanitized(values);
    assert(once.remove("host"@) =~= once);
    if once.contains_key("cookie"@) {
        let folded = joined(cookie_separator(), values.remove("host"@)["cookie"@]);
        assert(once["cookie"@] == seq![folded]);
        assert(joined(cookie_separator(), seq![folded]) == folded);
        assert(once.insert("cookie"@, seq![folded]) =~= once);
    }
}

impl HttpClient {
    /// The TLS configuration the client holds, if any.
    pub closed spec fn tls_view(&self) -> Option<ClientConfig> {
        self.tls_config
    }

    /// Whether the client holds a TLS configuration.
    pub open spec fn secure(&self) -> bool {
        self.tls_view() is Some
    }

    /// Creates a client. A secure client needs the TLS configuration built
    /// from the platform's trusted roots, handed in as `native_roots`; without
    /// it the setup fails. A client that is not secure ignores it.
    pub fn new(secure: bool, native_roots: Option<ClientConfig>) -> (client: Result<
        Self,
        BackendError,
    >)
        ensures
            secure && native_roots is None ==> client == Err::<Self, BackendError>(
                BackendError::TlsSetupError,
            ),
            secure && native_roots is Some ==> (client matches Ok(built) && built.tls_view()
                == native_roots),
            !secure ==> (client matches Ok(built) && built.tls_view() is None),
    {
        if secure {
            match native_roots {
                Some(config) => Ok(HttpClient { tls_config: Some(config) }),
                None => Err(BackendError::TlsSetupError),
            }
        } else {
            Ok(HttpClient { tls_config: None })
        }
    }

    /// The client's TLS configuration, if HTTPS is enabled.
    pub fn tls_config(&self) -> (config: Option<&ClientConfig>)
        ensures
            match config {
                Some(held) => self.tls_view() == Some(*held),
                None => self.tls_view() is None,
            },
    {
        self.tls_config.as_ref()
    }

    /// Which transport a request is sent over: HTTPS when the client holds a
    /// TLS configuration, HTTP otherwise.
    pub fn transport(&self) -> (transport: Transport)
        ensures
            transport == (if self.secure() {
                Transport::Https
            } else {
                Transport::Http
            }),
    {
        match self.tls_config {
            Some(_) => Transport::Https,
            None => Transport::Http,
        }
    }

    /// The wire options every upstream request is sent with: received header
    /// case is kept and other header names are written in title case.
    pub fn wire_options(&self) -> (options: WireOptions)
        ensures
            options == (WireOptions { preserve_header_case: true, title_case_headers: true }),
    {
        WireOptions { preserve_header_case: true, title_case_headers: true }
    }

    /// Sanitizes the head of a request for sending, see [`sanitize_headers`].
    /// Method, target and version are not touched.
    pub fn sanitize_request(&self, head: RequestHead) -> (sanitized_head: (RequestHead, bool))
        ensures
            sanitized_head.0.method == head.method,
            sanitized_head.0.uri == head.uri,
            sanitized_head.0.version == head.version,
            is_sanitized(
                header_values(head.headers),
                header_values(sanitized_head.0.headers),
                sanitized_head.1,
            ),
    {
        let mut head = head;
        let folded = sanitize_headers(&mut head.headers);
        (head, folded)
    }

    /// Takes a request apart and sanitizes it for sending. Identifier and body
    /// pass through unchanged.
    pub fn send_with_client<B>(&self, req: RoxyRequest<B>) -> (outbound: Outbound<B>)
        ensures
            outbound.request_id == req@.request_id,
            outbound.body == req@.body,
            outbound.head.method == req@.head.method,
            outbound.head.uri == req@.head.uri,
            outbound.head.version == req@.head.version,
            is_sanitized(
                header_values(req@.head.headers),
                header_values(outbound.head.headers),
                outbound.folded,
            ),
    {
        let (request_id, head, body) = req.deconstruct();
        let (head, folded) = self.sanitize_request(head);
        Outbound { request_id, head, body, folded }
    }

    /// What the client hands back for the outcome of sending a request: the
    /// upstream response when there is one, and otherwise a synthesized error
    /// response. Either carries the identifier of the request.
    pub fn response_for<B>(outcome: Option<(ResponseHead, B)>, request_id: u64) -> (response:
        RoxyResponse<B>)
        ensures
            response@.request_id == request_id,
            match outcome {
                Some((head, body)) => response@ == (ResponseView {
                    head,
                    body: BodyView::Streaming(body),
                    request_id,
                }),
                None => is_error_response(response@, request_id),
            },
    {
        match outcome {
            Some((head, body)) => RoxyResponse::new(head, body, request_id),
            None => RoxyResponse::error(request_id),
        }
    }
}

} // verus!
