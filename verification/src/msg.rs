//! The envelope codec: header layout, encoding, and streaming decode.

use vstd::prelude::*;
use bytes::Bytes;
use bytes::BytesMut;
use crate::buffer::buf_as_slice;
use crate::buffer::buf_contents;
use crate::buffer::buf_extend_from_slice;
use crate::buffer::buf_freeze;
use crate::buffer::buf_len;
use crate::buffer::buf_split_to;
use crate::buffer::buf_with_capacity;
use crate::buffer::bytes_as_slice;
use crate::buffer::bytes_contents;
use crate::buffer::bytes_len;
use crate::buffer::bytes_split_off;

verus! {

/// The single protocol version this build supports.
pub const ARROW_PROTOCOL_VERSION: u8 = 1;

/// Width of the fixed envelope header on the wire: one version byte, two
/// service bytes, four session bytes, four size bytes.
pub const HEADER_SIZE: usize = 11;

/// The low 24 bits of a session id; the high 8 bits are reserved and never
/// reach the wire.
pub open spec fn mask24(session: u32) -> u32 {
    session & 0xFF_FFFF
}

/// A 16-bit value read big-endian from two bytes.
pub open spec fn be16_val(b1: u8, b0: u8) -> u16 {
    (((b1 as u16) << 8) | (b0 as u16))
}

/// A 32-bit value read big-endian from four bytes.
pub open spec fn be32_val(b3: u8, b2: u8, b1: u8, b0: u8) -> u32 {
    (((b3 as u32) << 24) | ((b2 as u32) << 16) | ((b1 as u32) << 8) | (b0 as u32))
}

/// The four bytes of a 32-bit value, big-endian.
pub open spec fn be32_bytes(v: u32) -> Seq<u8> {
    seq![
        ((v >> 24) & 0xFF) as u8,
        ((v >> 16) & 0xFF) as u8,
        ((v >> 8) & 0xFF) as u8,
        (v & 0xFF) as u8,
    ]
}

/// Decode failure: the stream cannot be trusted beyond this point and the
/// caller must tear the connection down.
#[derive(Debug, Clone, Copy, PartialEq, Eq, Structural)]
pub enum DecodeError {
    /// The version byte of a header does not equal the supported version.
    UnsupportedVersion,
}

/// Fixed-size envelope header.
#[derive(Debug, Clone, Copy, PartialEq, Eq, Structural)]
pub struct ArrowMessageHeader {
    /// Protocol major version.
    pub version: u8,
    /// Service id: which logical multiplexed channel the message belongs to.
    pub service: u16,
    /// Session id; only the low 24 bits are meaningful, the high 8 bits are
    /// reserved and are masked off on the wire.
    pub session: u32,
    /// Number of payload bytes following the header.
    pub size: u32,
}

/// The canonical eleven wire bytes of a header: version, service big-endian,
/// session masked to 24 bits and written big-endian in a 32-bit slot, size
/// big-endian.
pub open spec fn header_bytes(h: ArrowMessageHeader) -> Seq<u8> {
    let m = mask24(h.session);
    seq![
        h.version,
        ((h.service >> 8) & 0xFF) as u8,
        (h.service & 0xFF) as u8,
        ((m >> 24) & 0xFF) as u8,
        ((m >> 16) & 0xFF) as u8,
        ((m >> 8) & 0xFF) as u8,
        (m & 0xFF) as u8,
        ((h.size >> 24) & 0xFF) as u8,
        ((h.size >> 16) & 0xFF) as u8,
        ((h.size >> 8) & 0xFF) as u8,
        (h.size & 0xFF) as u8,
    ]
}

/// The header described by the first eleven bytes of a sequence: fields read
/// big-endian from their fixed offsets, session masked to its low 24 bits.
pub open spec fn parse_header(b: Seq<u8>) -> ArrowMessageHeader
    recommends
        b.len() >= HEADER_SIZE,
{
    ArrowMessageHeader {
        version: b[0],
        service: be16_val(b[1], b[2]),
        session: mask24(be32_val(b[3], b[4], b[5], b[6])),
        size: be32_val(b[7], b[8], b[9], b[10]),
    }
}

proof fn lemma_be16_round(v: u16)
    by (bit_vector)
    ensures
        be16_val(((v >> 8) & 0xFF) as u8, (v & 0xFF) as u8) == v,
{
}

proof fn lemma_be32_round(v: u32)
    by (bit_vector)
    ensures
        be32_val(
            ((v >> 24) & 0xFF) as u8,
            ((v >> 16) & 0xFF) as u8,
            ((v >> 8) & 0xFF) as u8,
            (v & 0xFF) as u8,
        ) == v,
{
}

proof fn lemma_mask24_bounds(s: u32)
    by (bit_vector)
    ensures
        mask24(s) < 0x100_0000,
        mask24(mask24(s)) == mask24(s),
        ((mask24(s) >> 24) & 0xFF) as u8 == 0,
{
}

proof fn lemma_session_parse(s: u32)
    by (bit_vector)
    ensures
        mask24(
            be32_val(
                ((mask24(s) >> 24) & 0xFF) as u8,
                ((mask24(s) >> 16) & 0xFF) as u8,
                ((mask24(s) >> 8) & 0xFF) as u8,
                (mask24(s) & 0xFF) as u8,
            ),
        ) == mask24(s),
{
}

/// Writing a header and reading the written bytes back restores the fields,
/// with the session reduced to its meaningful 24 bits; the reserved byte on
/// the wire is zero.
pub proof fn lemma_parse_header_bytes(h: ArrowMessageHeader)
    ensures
        header_bytes(h).len() == HEADER_SIZE,
        parse_header(header_bytes(h)) == (ArrowMessageHeader {
            version: h.version,
            service: h.service,
            session: mask24(h.session),
            size: h.size,
        }),
        header_bytes(h)[3] == 0,
{
    lemma_be16_round(h.service);
    lemma_be32_round(h.size);
    lemma_mask24_bounds(h.session);
    lemma_session_parse(h.session);
}

impl ArrowMessageHeader {
    /// A header for this build's protocol version, with the session id masked
    /// to its meaningful 24 bits.
    pub fn new(service: u16, session: u32, size: u32) -> (r: ArrowMessageHeader)
        ensures
            r == (ArrowMessageHeader {
                version: ARROW_PROTOCOL_VERSION,
                service,
                session: mask24(session),
                size,
            }),
    {
        ArrowMessageHeader {
            version: ARROW_PROTOCOL_VERSION,
            service,
            session: session & 0xFF_FFFF,
            size,
        }
    }

    /// Parses a header out of a slice of exactly the fixed header width.
    ///
    /// Handing this a slice of any other length is a length-bookkeeping bug
    /// in the caller, not a data error, and is excluded by contract.  The
    /// parse itself cannot fail; only an unsupported version byte is rejected.
    pub fn from_bytes(bytes: &[u8]) -> (r: Result<Option<ArrowMessageHeader>, DecodeError>)
        requires
            bytes@.len() == HEADER_SIZE,
        ensures
            bytes@[0] == ARROW_PROTOCOL_VERSION ==> r == Ok::<
                Option<ArrowMessageHeader>,
                DecodeError,
            >(Some(parse_header(bytes@))),
            bytes@[0] != ARROW_PROTOCOL_VERSION ==> r == Err::<
                Option<ArrowMessageHeader>,
                DecodeError,
            >(DecodeError::UnsupportedVersion),
    {
        let version: u8 = *vstd::slice::slice_index_get(bytes, 0);
        let service: u16 = ((*vstd::slice::slice_index_get(bytes, 1) as u16) << 8u16) | (
        *vstd::slice::slice_index_get(bytes, 2) as u16);
        let session: u32 = (((*vstd::slice::slice_index_get(bytes, 3) as u32) << 24u32) | ((
        *vstd::slice::slice_index_get(bytes, 4) as u32) << 16u32) | ((*vstd::slice::slice_index_get(
            bytes,
            5,
        ) as u32) << 8u32) | (*vstd::slice::slice_index_get(bytes, 6) as u32)) & 0xFF_FFFF;
        let size: u32 = ((*vstd::slice::slice_index_get(bytes, 7) as u32) << 24u32) | ((
        *vstd::slice::slice_index_get(bytes, 8) as u32) << 16u32) | ((*vstd::slice::slice_index_get(
            bytes,
            9,
        ) as u32) << 8u32) | (*vstd::slice::slice_index_get(bytes, 10) as u32);

        if version == ARROW_PROTOCOL_VERSION {
            Ok(Some(ArrowMessageHeader { version, service, session, size }))
        } else {
            Err(DecodeError::UnsupportedVersion)
        }
    }
}

/// Serialization contract: a type that can append its canonical bytes to an
/// output buffer headed for the transport.
pub trait Encode {
    /// The canonical byte sequence this value encodes to.
    spec fn encoding(&self) -> Seq<u8>;

    /// When the value can be encoded at all; only an envelope whose payload
    /// length does not fit the 32-bit size field refuses.
    spec fn encodable(&self) -> bool;

    /// Appends the canonical bytes of this value to the end of `buf`.
    fn encode(&self, buf: &mut BytesMut)
        requires
            self.encodable(),
        ensures
            buf_contents(*final(buf)) == buf_contents(*old(buf)) + self.encoding(),
    ;
}

/// Capability contract for envelope payloads: a body knows its exact encoded
/// byte length in addition to encoding itself.
pub trait MessageBody: Encode {
    /// The exact byte length of this body's encoding.
    fn len(&self) -> (r: usize)
        ensures
            r == self.encoding().len(),
    ;
}

/// A payload that may be framed into an envelope; bodies can be queued for
/// asynchronous transmission, hence the `Send` bound.
pub trait ArrowMessageBody: MessageBody + Send {

}

impl Encode for Vec<u8> {
    open spec fn encoding(&self) -> Seq<u8> {
        self@
    }

    open spec fn encodable(&self) -> bool {
        true
    }

    fn encode(&self, buf: &mut BytesMut) {
        buf_extend_from_slice(buf, self.as_slice());
    }
}

impl MessageBody for Vec<u8> {
    fn len(&self) -> (r: usize) {
        self.len()
    }
}

impl ArrowMessageBody for Vec<u8> {

}

impl Encode for Bytes {
    open spec fn encoding(&self) -> Seq<u8> {
        bytes_contents(*self)
    }

    open spec fn encodable(&self) -> bool {
        true
    }

    fn encode(&self, buf: &mut BytesMut) {
        buf_extend_from_slice(buf, bytes_as_slice(self));
    }
}

impl MessageBody for Bytes {
    fn len(&self) -> (r: usize) {
        bytes_len(self)
    }
}

impl ArrowMessageBody for Bytes {

}

/// The full wire image of one envelope: the header that encoding rebuilds
/// from the service id, session id and the actual payload length, followed by
/// the payload itself.  The size the in-memory header held does not enter.
pub open spec fn message_wire_bytes(service: u16, session: u32, payload: Seq<u8>) -> Seq<u8> {
    header_bytes(
        ArrowMessageHeader {
            version: ARROW_PROTOCOL_VERSION,
            service,
            session,
            size: payload.len() as u32,
        },
    ) + payload
}

/// The eleven header bytes as a plain vector, ready to append to an output
/// buffer.
fn header_to_vec(h: &ArrowMessageHeader) -> (v: Vec<u8>)
    ensures
        v@ == header_bytes(*h),
{
    let m: u32 = h.session & 0xFF_FFFF;
    proof {
        let s: u16 = h.service;
        let z: u32 = h.size;
        assert((s >> 8) & 0xFF < 256 && s & 0xFF < 256) by (bit_vector);
        assert((m >> 24) & 0xFF < 256 && (m >> 16) & 0xFF < 256 && (m >> 8) & 0xFF < 256 && m
            & 0xFF < 256) by (bit_vector);
        assert((z >> 24) & 0xFF < 256 && (z >> 16) & 0xFF < 256 && (z >> 8) & 0xFF < 256 && z & 0xFF
            < 256) by (bit_vector);
    }
    let mut v: Vec<u8> = Vec::new();
    v.push(h.version);
    v.push(((h.service >> 8u16) & 0xFF) as u8);
    v.push((h.service & 0xFF) as u8);
    v.push(((m >> 24u32) & 0xFF) as u8);
    v.push(((m >> 16u32) & 0xFF) as u8);
    v.push(((m >> 8u32) & 0xFF) as u8);
    v.push((m & 0xFF) as u8);
    v.push(((h.size >> 24u32) & 0xFF) as u8);
    v.push(((h.size >> 16u32) & 0xFF) as u8);
    v.push(((h.size >> 8u32) & 0xFF) as u8);
    v.push((h.size & 0xFF) as u8);
    proof {
        assert(v@ =~= header_bytes(*h));
    }
    v
}

impl Encode for ArrowMessageHeader {
    open spec fn encoding(&self) -> Seq<u8> {
        header_bytes(*self)
    }

    open spec fn encodable(&self) -> bool {
        true
    }

    fn encode(&self, buf: &mut BytesMut) {
        let v = header_to_vec(self);
        buf_extend_from_slice(buf, v.as_slice());
    }
}

/// One complete envelope: a header plus the already-encoded payload, which
/// shares storage with the buffer it was sliced from.
pub struct ArrowMessage {
    header: ArrowMessageHeader,
    payload: Bytes,
}

impl ArrowMessage {
    /// The stored header.  Its `size` field is a placeholder until encode
    /// time for an envelope built by `new`; encoding recomputes it from the
    /// actual payload length.
    pub closed spec fn header_spec(&self) -> ArrowMessageHeader {
        self.header
    }

    /// The payload bytes of this envelope.
    pub closed spec fn payload_spec(&self) -> Seq<u8> {
        bytes_contents(self.payload)
    }

    /// Builds an envelope from a service id, a session id and any body: the
    /// body is encoded once into a fresh buffer, and the header carries this
    /// build's protocol version, the session masked to 24 bits, and a
    /// placeholder size of zero that encoding replaces.
    pub fn new<B: ArrowMessageBody + 'static>(service: u16, session: u32, body: B) -> (r:
        ArrowMessage)
        requires
            body.encodable(),
        ensures
            r.header_spec() == (ArrowMessageHeader {
                version: ARROW_PROTOCOL_VERSION,
                service,
                session: mask24(session),
                size: 0,
            }),
            r.payload_spec() == body.encoding(),
    {
        let mut payload = buf_with_capacity(body.len());
        body.encode(&mut payload);
        ArrowMessage { header: ArrowMessageHeader::new(service, session, 0), payload: buf_freeze(
            payload,
        ) }
    }

    /// A copy of the message header, for collaborators that dispatch by
    /// service or session without re-parsing.
    pub fn header(&self) -> (r: ArrowMessageHeader)
        ensures
            r == self.header_spec(),
    {
        self.header
    }

    /// A read-only view of the encoded message body.
    pub fn payload(&self) -> (r: &[u8])
        ensures
            r@ == self.payload_spec(),
    {
        bytes_as_slice(&self.payload)
    }

    /// Attempts to extract one complete envelope from the front of the
    /// receive buffer.  `Ok(None)` means insufficient data: the buffer is
    /// left untouched and the caller retries once more bytes arrive.  An
    /// unsupported version byte is a hard failure, and the buffer is likewise
    /// left untouched.  On success, exactly one frame is removed from the
    /// front of the buffer and the bytes beyond it remain for the next call.
    pub fn decode(buf: &mut BytesMut) -> (r: Result<Option<ArrowMessage>, DecodeError>)
        ensures
            ({
                let b = buf_contents(*old(buf));
                let hdr = parse_header(b.take(HEADER_SIZE as int));
                let total = HEADER_SIZE as int + hdr.size as int;
                &&& (b.len() < HEADER_SIZE ==> r == Ok::<Option<ArrowMessage>, DecodeError>(None)
                    && buf_contents(*final(buf)) == b)
                &&& (b.len() >= HEADER_SIZE && b[0] != ARROW_PROTOCOL_VERSION ==> r == Err::<
                    Option<ArrowMessage>,
                    DecodeError,
                >(DecodeError::UnsupportedVersion) && buf_contents(*final(buf)) == b)
                &&& (b.len() >= HEADER_SIZE && b[0] == ARROW_PROTOCOL_VERSION && b.len() < total
                    ==> r == Ok::<Option<ArrowMessage>, DecodeError>(None) && buf_contents(
                    *final(buf),
                ) == b)
                &&& (b.len() >= HEADER_SIZE && b[0] == ARROW_PROTOCOL_VERSION && b.len() >= total
                    ==> ({
                    &&& r matches Ok(Some(m))
                    &&& m.header_spec() == hdr
                    &&& m.payload_spec() == b.subrange(HEADER_SIZE as int, total)
                    &&& buf_contents(*final(buf)) == b.skip(total)
                }))
            }),
    {
        let ghost b = buf_contents(*buf);
        let hsize: usize = HEADER_SIZE;
        let blen: usize = buf_len(buf);
        if blen < hsize {
            return Ok(None);
        }
        let header_res = {
            let s = buf_as_slice(buf);
            let head = vstd::slice::slice_subrange(s, 0, hsize);
            proof {
                assert(head@ =~= b.take(HEADER_SIZE as int));
            }
            ArrowMessageHeader::from_bytes(head)
        };
        let header = match header_res {
            Ok(Some(h)) => h,
            Ok(None) => {
                proof {
                    assert(false);
                }
                vstd::pervasive::unreached()
            },
            Err(e) => {
                return Err(e);
            },
        };
        let need: u64 = header.size as u64 + hsize as u64;
        if (blen as u64) < need {
            return Ok(None);
        }
        let msize: usize = header.size as usize + hsize;
        let frame = buf_split_to(buf, msize);
        let mut whole = buf_freeze(frame);
        let payload = bytes_split_off(&mut whole, hsize);
        proof {
            assert(bytes_contents(payload) =~= b.subrange(
                HEADER_SIZE as int,
                HEADER_SIZE as int + header.size as int,
            ));
            assert(buf_contents(*buf) =~= b.skip(HEADER_SIZE as int + header.size as int));
        }
        Ok(Some(ArrowMessage { header, payload }))
    }
}

impl Encode for ArrowMessage {
    open spec fn encoding(&self) -> Seq<u8> {
        message_wire_bytes(self.header_spec().service, self.header_spec().session,
            self.payload_spec())
    }

    open spec fn encodable(&self) -> bool {
        self.payload_spec().len() <= 0xFFFF_FFFF
    }

    fn encode(&self, buf: &mut BytesMut) {
        let len32: u32 = bytes_len(&self.payload) as u32;
        let header = ArrowMessageHeader::new(self.header.service, self.header.session, len32);
        proof {
            let s: u32 = self.header.session;
            assert(mask24(mask24(s)) == mask24(s)) by (bit_vector);
            assert(header_bytes(header) =~= header_bytes(
                ArrowMessageHeader {
                    version: ARROW_PROTOCOL_VERSION,
                    service: self.header.service,
                    session: self.header.session,
                    size: len32,
                },
            ));
        }
        header.encode(buf);
        buf_extend_from_slice(buf, bytes_as_slice(&self.payload));
    }
}

} // verus!
