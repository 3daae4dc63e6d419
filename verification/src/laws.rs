//! Properties of the codec that hold of all inputs, proved once for all.
//!
//! `ArrowMessage::encode` promises that it appends exactly
//! `message_wire_bytes(service, session, payload)` to the output buffer, and
//! `ArrowMessage::decode` promises what it returns for every shape the front
//! of the receive buffer can take, in terms of `parse_header` and the buffer
//! contents.  The lemmas here connect the two sides: what decoding makes of a
//! buffer that holds encoded envelopes.

use vstd::prelude::*;
use crate::msg::ARROW_PROTOCOL_VERSION;
use crate::msg::ArrowMessageHeader;
use crate::msg::HEADER_SIZE;
use crate::msg::be32_bytes;
use crate::msg::header_bytes;
use crate::msg::lemma_parse_header_bytes;
use crate::msg::mask24;
use crate::msg::message_wire_bytes;
use crate::msg::parse_header;

verus! {

/// Round trip: the wire image of an envelope built from any service id, any
/// session id and any payload starts with a header that parses back to the
/// same service id, the session id masked to its meaningful 24 bits, and the
/// exact payload length; the payload follows byte-identical.  Together with
/// the contract of `ArrowMessage::decode`, decoding such an image yields the
/// envelope back.
pub proof fn lemma_round_trip(service: u16, session: u32, payload: Seq<u8>)
    requires
        payload.len() <= 0xFFFF_FFFF,
    ensures
        ({
            let wire = message_wire_bytes(service, session, payload);
            &&& wire.len() == HEADER_SIZE + payload.len()
            &&& wire[0] == ARROW_PROTOCOL_VERSION
            &&& parse_header(wire.take(HEADER_SIZE as int)) == (ArrowMessageHeader {
                version: ARROW_PROTOCOL_VERSION,
                service,
                session: mask24(session),
                size: payload.len() as u32,
            })
            &&& parse_header(wire.take(HEADER_SIZE as int)).size == payload.len()
            &&& wire.subrange(HEADER_SIZE as int, wire.len() as int) == payload
        }),
{
    let h = ArrowMessageHeader {
        version: ARROW_PROTOCOL_VERSION,
        service,
        session,
        size: payload.len() as u32,
    };
    lemma_parse_header_bytes(h);
    let wire = message_wire_bytes(service, session, payload);
    assert(wire.take(HEADER_SIZE as int) =~= header_bytes(h));
    assert(wire.subrange(HEADER_SIZE as int, wire.len() as int) =~= payload);
}

/// Session masking symmetry: whatever the high 8 bits of a stored session id,
/// the reserved byte of the wire header is zero and parsing the header back
/// yields the low 24 bits only.
pub proof fn lemma_session_masking(h: ArrowMessageHeader)
    ensures
        header_bytes(h)[3] == 0,
        parse_header(header_bytes(h)).session == mask24(h.session),
        mask24(h.session) < 0x100_0000,
{
    lemma_parse_header_bytes(h);
    let s: u32 = h.session;
    assert(mask24(s) < 0x100_0000) by (bit_vector);
}

/// A partial frame stays a partial frame's prefix: appending newly received
/// bytes to a buffer that already holds a full header leaves those header
/// bytes, and what parses from them, unchanged.  So a decode that reported
/// insufficient data returns the same header fields once the missing payload
/// bytes arrive.
pub proof fn lemma_header_stable_under_append(b: Seq<u8>, extra: Seq<u8>)
    requires
        b.len() >= HEADER_SIZE,
    ensures
        (b + extra).take(HEADER_SIZE as int) == b.take(HEADER_SIZE as int),
        parse_header((b + extra).take(HEADER_SIZE as int)) == parse_header(
            b.take(HEADER_SIZE as int),
        ),
{
    assert((b + extra).take(HEADER_SIZE as int) =~= b.take(HEADER_SIZE as int));
}

/// Multi-frame extraction: a buffer that begins with the wire image of one
/// envelope, whatever follows it, satisfies the complete-frame case of
/// `ArrowMessage::decode`: the decoded header and payload are those of that
/// first envelope, and exactly the bytes after its frame remain.  Applied
/// repeatedly, a buffer holding several encoded envelopes and a trailing
/// partial frame yields the envelopes in order and leaves the partial bytes.
pub proof fn lemma_frame_extraction(service: u16, session: u32, payload: Seq<u8>, rest: Seq<u8>)
    requires
        payload.len() <= 0xFFFF_FFFF,
    ensures
        ({
            let wire = message_wire_bytes(service, session, payload);
            let b = wire + rest;
            let hdr = parse_header(b.take(HEADER_SIZE as int));
            &&& b.len() >= HEADER_SIZE
            &&& b[0] == ARROW_PROTOCOL_VERSION
            &&& hdr == (ArrowMessageHeader {
                version: ARROW_PROTOCOL_VERSION,
                service,
                session: mask24(session),
                size: payload.len() as u32,
            })
            &&& b.len() >= HEADER_SIZE + hdr.size
            &&& b.subrange(HEADER_SIZE as int, HEADER_SIZE + hdr.size as int) == payload
            &&& b.skip(HEADER_SIZE + hdr.size as int) == rest
        }),
{
    lemma_round_trip(service, session, payload);
    let wire = message_wire_bytes(service, session, payload);
    let b = wire + rest;
    assert(b.take(HEADER_SIZE as int) =~= wire.take(HEADER_SIZE as int));
    let hdr = parse_header(b.take(HEADER_SIZE as int));
    assert(b.subrange(HEADER_SIZE as int, HEADER_SIZE + hdr.size as int) =~= payload);
    assert(b.skip(HEADER_SIZE + hdr.size as int) =~= rest);
}

/// Size field correctness: in the wire image of an envelope, the four bytes
/// at the size field's offset are the big-endian encoding of the actual
/// payload length.  `message_wire_bytes` takes no stored size at all, and
/// `ArrowMessage::encode` promises to append exactly this image, so whatever
/// size the envelope's in-memory header held never reaches the wire.
pub proof fn lemma_size_field(service: u16, session: u32, payload: Seq<u8>)
    requires
        payload.len() <= 0xFFFF_FFFF,
    ensures
        message_wire_bytes(service, session, payload).subrange(7, 11) == be32_bytes(
            payload.len() as u32,
        ),
{
    let wire = message_wire_bytes(service, session, payload);
    assert(wire.subrange(7, 11) =~= be32_bytes(payload.len() as u32));
}

} // verus!
