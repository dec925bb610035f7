//! Response envelopes: a response in flight together with the identifier of
//! the request it answers, and the handling of its body.

use crate::error::BackendError;
use crate::headers::{empty_headers, header_values, no_headers};
use crate::message::{ResponseHead, Version};
use vstd::prelude::*;
use vstd::slice::slice_to_vec;
use vstd::string::{StrSliceExecFns, StringSliceAdditionalSpecFns};
use vstd::utf8::{decode_utf8, valid_utf8};

verus! {

/// Status of a response synthesised after a failure.
pub const ERROR_STATUS: u16 = 500;

/// Status of a response synthesised to acknowledge a request.
pub const EMPTY_STATUS: u16 = 200;

/// Body of a response synthesised after a failure.
pub const ERROR_BODY: &'static str = "Error rendering response. See Debug logs for more information";

/// Text handed to a body sink in place of a chunk that is not UTF-8.
pub const INVALID_CHUNK: &'static str = "Invalid Utf-8 Sequence.";

/// The body of a response.
#[derive(Debug)]
pub enum Body<B> {
    /// Still being read from upstream.
    Streaming(B),
    /// Fully read.
    Buffered(Vec<u8>),
    /// The response has no body.
    Empty,
}

/// What a [`Body`] holds.
pub enum BodyView<B> {
    Streaming(B),
    Buffered(Seq<u8>),
    Empty,
}

impl<B> View for Body<B> {
    type V = BodyView<B>;

    open spec fn view(&self) -> BodyView<B> {
        match self {
            Body::Streaming(stream) => BodyView::Streaming(*stream),
            Body::Buffered(bytes) => BodyView::Buffered(bytes@),
            Body::Empty => BodyView::Empty,
        }
    }
}

impl<B> Body<B> {
    /// The stream, when the body is still streaming.
    pub fn as_incoming_mut(&mut self) -> (stream: Option<&mut B>)
        ensures
            match stream {
                Some(inner) => old(self)@ == BodyView::Streaming(*inner) && final(self)@
                    == BodyView::Streaming(*final(inner)),
                None => !(old(self)@ is Streaming) && *final(self) == *old(self),
            },
    {
        match self {
            Body::Streaming(stream) => Some(stream),
            _ => None,
        }
    }

    /// The bytes, when the body is fully read.
    pub fn as_full_mut(&mut self) -> (bytes: Option<&mut Vec<u8>>)
        ensures
            match bytes {
                Some(inner) => old(self)@ == BodyView::<B>::Buffered(inner@) && final(self)@
                    == BodyView::<B>::Buffered(final(inner)@),
                None => !(old(self)@ is Buffered) && *final(self) == *old(self),
            },
    {
        match self {
            Body::Buffered(bytes) => Some(bytes),
            _ => None,
        }
    }
}

/// A response on its way back to the client.
#[derive(Debug)]
pub struct RoxyResponse<B> {
    head: ResponseHead,
    body: Body<B>,
    request_id: u64,
}

/// What a [`RoxyResponse`] holds.
pub struct ResponseView<B> {
    pub head: ResponseHead,
    pub body: BodyView<B>,
    pub request_id: u64,
}

impl<B> View for RoxyResponse<B> {
    type V = ResponseView<B>;

    closed spec fn view(&self) -> ResponseView<B> {
        ResponseView { head: self.head, body: self.body@, request_id: self.request_id }
    }
}

/// The text a body sink receives for one chunk: the chunk decoded as UTF-8,
/// or a fixed notice when it is not UTF-8.
pub open spec fn chunk_text(chunk: Seq<u8>) -> Seq<char> {
    if valid_utf8(chunk) {
        decode_utf8(chunk)
    } else {
        INVALID_CHUNK@
    }
}

/// The texts a body sink receives for a sequence of chunks, one per chunk.
pub open spec fn chunk_texts(chunks: Seq<Seq<u8>>) -> Seq<Seq<char>> {
    chunks.map_values(|chunk: Seq<u8>| chunk_text(chunk))
}

/// All chunks written one after another.
pub open spec fn concatenated(chunks: Seq<Seq<u8>>) -> Seq<u8>
    decreases chunks.len(),
{
    if chunks.len() == 0 {
        Seq::empty()
    } else {
        concatenated(chunks.drop_last()) + chunks.last()
    }
}

/// The texts a body sink receives when a buffered body is replayed: the whole
/// body as one chunk, or nothing when it has no bytes.
pub open spec fn replayed_texts(bytes: Seq<u8>) -> Seq<Seq<char>> {
    if bytes.len() == 0 {
        Seq::empty()
    } else {
        seq![chunk_text(bytes)]
    }
}

/// Whether `response` is the synthesized error response for `request_id`:
/// status 500, HTTP/1.1, no headers, and the fixed explanatory body.
pub open spec fn is_error_response<B>(response: ResponseView<B>, request_id: u64) -> bool {
    &&& response.request_id == request_id
    &&& response.head.status == ERROR_STATUS
    &&& response.head.version == Version::Http11
    &&& header_values(response.head.headers) == no_headers()
    &&& response.body == BodyView::<B>::Buffered(ERROR_BODY.spec_bytes())
}

/// Whether `response` is the synthesized empty response for `request_id`:
/// status 200, HTTP/1.1, no headers, no body.
pub open spec fn is_empty_response<B>(response: ResponseView<B>, request_id: u64) -> bool {
    &&& response.request_id == request_id
    &&& response.head.status == EMPTY_STATUS
    &&& response.head.version == Version::Http11
    &&& header_values(response.head.headers) == no_headers()
    &&& response.body == BodyView::<B>::Empty
}

/// Trusted: `String::from_utf8`. Succeeds exactly on valid UTF-8 and then
/// yields the decoded text.
#[verifier::external_body]
pub(crate) fn string_from_utf8(bytes: Vec<u8>) -> (text: Option<String>)
    ensures
        text is Some <==> valid_utf8(bytes@),
        text matches Some(decoded) ==> decoded@ == decode_utf8(bytes@),
{
    match String::from_utf8(bytes) {
        Ok(text) => Some(text),
        Err(_) => None,
    }
}

/// The text to hand to a body sink for one chunk of a body.
pub fn decode_chunk(chunk: &[u8]) -> (text: String)
    ensures
        text@ == chunk_text(chunk@),
{
    match string_from_utf8(slice_to_vec(chunk)) {
        Some(text) => text,
        None => INVALID_CHUNK.to_owned(),
    }
}

/// One frame read from a body stream.
#[derive(Debug)]
pub enum Frame {
    /// A chunk of body bytes.
    Data(Vec<u8>),
    /// A frame that carries no body bytes, such as trailers.
    Other,
}

/// The data chunks among `frames`, in order.
pub open spec fn data_chunks(frames: Seq<Frame>) -> Seq<Seq<u8>>
    decreases frames.len(),
{
    if frames.len() == 0 {
        Seq::empty()
    } else {
        match frames.last() {
            Frame::Data(bytes) => data_chunks(frames.drop_last()).push(bytes@),
            Frame::Other => data_chunks(frames.drop_last()),
        }
    }
}

/// The views of a list of texts.
pub open spec fn text_views(texts: Seq<String>) -> Seq<Seq<char>> {
    texts.map_values(|text: String| text@)
}

impl<B> RoxyResponse<B> {
    /// Wraps a response that is still streaming in from upstream.
    pub fn new(head: ResponseHead, body: B, request_id: u64) -> (response: Self)
        ensures
            response@ == (ResponseView { head, body: BodyView::Streaming(body), request_id }),
    {
        RoxyResponse { head, body: Body::Streaming(body), request_id }
    }

    /// The response a client receives when its request could not be served:
    /// status 500 with a fixed explanatory body and no headers.
    pub fn error(request_id: u64) -> (response: Self)
        ensures
            is_error_response(response@, request_id),
    {
        let head = ResponseHead {
            status: ERROR_STATUS,
            version: Version::Http11,
            headers: empty_headers(),
        };
        RoxyResponse { head, body: Body::Buffered(ERROR_BODY.as_bytes_vec()), request_id }
    }

    /// The response that acknowledges a request without content: status 200,
    /// no headers, no body.
    pub fn empty(request_id: u64) -> (response: Self)
        ensures
            is_empty_response(response@, request_id),
    {
        let head = ResponseHead {
            status: EMPTY_STATUS,
            version: Version::Http11,
            headers: empty_headers(),
        };
        RoxyResponse { head, body: Body::Empty, request_id }
    }

    /// Wraps the outcome of forwarding a request: the response when there is
    /// one, otherwise the failure to report.
    pub fn forwarded(outcome: Option<(ResponseHead, B)>, request_id: u64) -> (result: Result<
        Self,
        BackendError,
    >)
        ensures
            match outcome {
                Some((head, body)) => result matches Ok(response) && response@ == (ResponseView {
                    head,
                    body: BodyView::Streaming(body),
                    request_id,
                }),
                None => result == Err::<Self, BackendError>(BackendError::ProxyRequest),
            },
    {
        match outcome {
            Some((head, body)) => Ok(RoxyResponse::new(head, body, request_id)),
            None => Err(BackendError::ProxyRequest),
        }
    }

    /// The status code of the response.
    pub fn status_code(&self) -> (status: u16)
        ensures
            status == self@.head.status,
    {
        self.head.status
    }

    /// The status code of the response, for hosts that read it under this
    /// name; the same as [`RoxyResponse::status_code`].
    pub fn method(&self) -> (status: u16)
        ensures
            status == self@.head.status,
    {
        self.status_code()
    }

    /// The identifier of the request this response answers.
    pub fn request_id(&self) -> (id: u64)
        ensures
            id == self@.request_id,
    {
        self.request_id
    }

    /// The head of the response.
    pub fn head(&self) -> (head: &ResponseHead)
        ensures
            *head == self@.head,
    {
        &self.head
    }

    /// The stream of the body, while the body is still streaming. The stream
    /// may be read through the reference; head and identifier stay as they
    /// are.
    pub fn incoming_mut(&mut self) -> (stream: Option<&mut B>)
        ensures
            final(self)@.head == old(self)@.head,
            final(self)@.request_id == old(self)@.request_id,
            match stream {
                Some(inner) => old(self)@.body == BodyView::Streaming(*inner) && final(self)@.body
                    == BodyView::Streaming(*final(inner)),
                None => !(old(self)@.body is Streaming) && final(self)@ == old(self)@,
            },
    {
        self.body.as_incoming_mut()
    }

    /// Takes the envelope apart for delivery to the client.
    pub fn into_response(self) -> (parts: (ResponseHead, Body<B>))
        ensures
            parts.0 == self@.head,
            parts.1@ == self@.body,
    {
        (self.head, self.body)
    }

    /// Drains a streaming body. `frames` are the frames the stream produced
    /// and `failed` tells whether it broke off with an error after them.
    ///
    /// Every data frame yields one text for the body sink. When the stream
    /// ended normally the body becomes buffered and holds all data bytes;
    /// when it failed the response is left as it was and the failure is
    /// reported.
    pub fn process_incoming_body(&mut self, frames: &Vec<Frame>, failed: bool) -> (report: (
        Vec<String>,
        Result<(), BackendError>,
    ))
        requires
            old(self)@.body is Streaming,
        ensures
            text_views(report.0@) == chunk_texts(data_chunks(frames@)),
            final(self)@.head == old(self)@.head,
            final(self)@.request_id == old(self)@.request_id,
            failed ==> report.1 == Err::<(), BackendError>(BackendError::BodyProcessing)
                && final(self)@ == old(self)@,
            !failed ==> report.1 == Ok::<(), BackendError>(()) && final(self)@.body
                == BodyView::<B>::Buffered(concatenated(data_chunks(frames@))),
    {
        let mut bytes: Vec<u8> = Vec::new();
        let mut texts: Vec<String> = Vec::new();
        let mut i: usize = 0;
        while i < frames.len()
            invariant
                i <= frames.len(),
                bytes@ == concatenated(data_chunks(frames@.take(i as int))),
                text_views(texts@) == chunk_texts(data_chunks(frames@.take(i as int))),
            decreases frames.len() - i,
        {
            assert(frames@.take(i + 1).drop_last() == frames@.take(i as int));
            assert(frames@.take(i + 1).last() == frames@[i as int]);
            match &frames[i] {
                Frame::Data(chunk) => {
                    let ghost before = data_chunks(frames@.take(i as int));
                    assert(before.push(chunk@).drop_last() == before);
                    let ghost earlier = texts@;
                    bytes.extend_from_slice(chunk.as_slice());
                    texts.push(decode_chunk(chunk.as_slice()));
                    assert(text_views(earlier).len() == chunk_texts(before).len());
                    assert forall|k: int| 0 <= k < texts@.len() implies text_views(texts@)[k]
                        == chunk_texts(before.push(chunk@))[k] by {
                        if k < earlier.len() {
                            assert(text_views(earlier)[k] == chunk_texts(before)[k]);
                        }
                    }
                    assert(text_views(texts@) =~= chunk_texts(before.push(chunk@)));
                },
                Frame::Other => {},
            }
            i += 1;
        }
        assert(frames@.take(i as int) == frames@);
        if failed {
            (texts, Err(BackendError::BodyProcessing))
        } else {
            self.body = Body::Buffered(bytes);
            (texts, Ok(()))
        }
    }

    /// Replays a buffered body: the whole body goes to the sink as one text,
    /// or nothing when the body has no bytes. The response is not changed.
    pub fn process_full_body(&self) -> (texts: Vec<String>)
        requires
            self@.body is Buffered,
        ensures
            text_views(texts@) == replayed_texts(self@.body->Buffered_0),
    {
        let mut texts: Vec<String> = Vec::new();
        match &self.body {
            Body::Buffered(bytes) => {
                if bytes.len() > 0 {
                    texts.push(decode_chunk(bytes.as_slice()));
                }
            },
            _ => {},
        }
        assert(text_views(texts@) == replayed_texts(self@.body->Buffered_0));
        texts
    }

    /// Produces the texts for the body sink and buffers the body.
    ///
    /// A streaming body is drained from `frames` and `failed`, which say what
    /// its stream produced; a buffered body is replayed and `frames` are
    /// ignored; an absent body yields nothing.
    pub fn body(&mut self, frames: &Vec<Frame>, failed: bool) -> (report: (
        Vec<String>,
        Result<(), BackendError>,
    ))
        ensures
            final(self)@.head == old(self)@.head,
            final(self)@.request_id == old(self)@.request_id,
            match old(self)@.body {
                BodyView::Streaming(_) => {
                    &&& text_views(report.0@) == chunk_texts(data_chunks(frames@))
                    &&& failed ==> report.1 == Err::<(), BackendError>(
                        BackendError::BodyProcessing,
                    ) && final(self)@ == old(self)@
                    &&& !failed ==> report.1 == Ok::<(), BackendError>(()) && final(self)@.body
                        == BodyView::<B>::Buffered(concatenated(data_chunks(frames@)))
                },
                BodyView::Buffered(bytes) => {
                    &&& text_views(report.0@) == replayed_texts(bytes)
                    &&& report.1 == Ok::<(), BackendError>(())
                    &&& final(self)@ == old(self)@
                },
                BodyView::Empty => {
                    &&& report.0@.len() == 0
                    &&& report.1 == Ok::<(), BackendError>(())
                    &&& final(self)@ == old(self)@
                },
            },
    {
        match &self.body {
            Body::Streaming(_) => self.process_incoming_body(frames, failed),
            Body::Buffered(_) => (self.process_full_body(), Ok(())),
            Body::Empty => (Vec::new(), Ok(())),
        }
    }
}

} // verus!
