//! Protocol detection on the first bytes of a tunnelled connection.

use vstd::prelude::*;

verus! {

/// First byte of a TLS record that carries a handshake message.
pub const TLS_HANDSHAKE: u8 = 0x16;

/// Major version byte shared by every TLS record header.
pub const TLS_MAJOR_VERSION: u8 = 0x03;

/// What the bytes read so far from a tunnelled connection say about it.
#[derive(Clone, Copy, Debug, PartialEq, Eq, Structural)]
pub enum Sniffed {
    /// Too few bytes to tell: more have to be read.
    NeedMore,
    /// The client opened with a TLS record: the tunnel is intercepted.
    Tls,
    /// Anything else: the bytes are relayed untouched.
    Unknown,
}

/// Whether two bytes are the start of a TLS handshake record.
pub open spec fn is_tls_prefix(first: u8, second: u8) -> bool {
    first == TLS_HANDSHAKE && second == TLS_MAJOR_VERSION
}

/// What the bytes read so far say. Only the first two bytes of the stream
/// count. A first byte that does not open a TLS record settles the matter at
/// once; otherwise the second byte has to be there.
pub open spec fn sniffed(bytes: Seq<u8>) -> Sniffed {
    if bytes.len() == 0 {
        Sniffed::NeedMore
    } else if bytes[0] != TLS_HANDSHAKE {
        Sniffed::Unknown
    } else if bytes.len() == 1 {
        Sniffed::NeedMore
    } else if bytes[1] == TLS_MAJOR_VERSION {
        Sniffed::Tls
    } else {
        Sniffed::Unknown
    }
}

/// Classifies a tunnel by the bytes read from it so far, however many reads
/// it took to get them.
pub fn sniff(bytes: &[u8]) -> (verdict: Sniffed)
    ensures
        verdict == sniffed(bytes@),
{
    if bytes.len() == 0 {
        Sniffed::NeedMore
    } else if bytes[0] != TLS_HANDSHAKE {
        Sniffed::Unknown
    } else if bytes.len() == 1 {
        Sniffed::NeedMore
    } else if bytes[1] == TLS_MAJOR_VERSION {
        Sniffed::Tls
    } else {
        Sniffed::Unknown
    }
}

/// Two bytes always decide, and they decide for TLS exactly when they are a
/// TLS record header; bytes after the second play no part.
pub proof fn lemma_two_bytes_decide(bytes: Seq<u8>)
    requires
        bytes.len() >= 2,
    ensures
        sniffed(bytes) != Sniffed::NeedMore,
        sniffed(bytes) == Sniffed::Tls <==> is_tls_prefix(bytes[0], bytes[1]),
        sniffed(bytes) == sniffed(bytes.take(2)),
{
}

/// A verdict stands: once the bytes read so far have decided, further bytes
/// do not change the decision. So it does not matter how the first bytes are
/// spread over reads.
pub proof fn lemma_verdict_stands(bytes: Seq<u8>, more: Seq<u8>)
    ensures
        sniffed(bytes) != Sniffed::NeedMore ==> sniffed(bytes + more) == sniffed(bytes),
        bytes.len() + more.len() >= 2 ==> (sniffed(bytes + more) == Sniffed::Tls <==> is_tls_prefix(
            (bytes + more)[0],
            (bytes + more)[1],
        )),
{
    let all = bytes + more;
    if bytes.len() >= 1 {
        assert(all[0] == bytes[0]);
    }
    if bytes.len() >= 2 {
        assert(all[1] == bytes[1]);
    }
}

} // verus!
