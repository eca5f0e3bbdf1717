//! The line-oriented console framing protocol.
//!
//! A frame's payload, followed by a 2-byte CRC-16 (XMODEM) of the
//! payload, forms the frame's *content stream*. The encoder splits the
//! stream into bounded chunks and emits one line per chunk:
//! a 2-byte marker (`0x06 0x09` on the first line, `0x04 0x14` on
//! continuation lines), the base64 encoding of the chunk, and a newline.
//! The first line's chunk is prefixed with the big-endian 16-bit length
//! of the whole content stream. A raw chunk (prefix included) never
//! exceeds 93 bytes, so an encoded line never exceeds 127 bytes.
//!
//! The decoder accumulates the decoded chunks until their total length
//! reaches the declared content length, then verifies and strips the
//! trailing checksum.

use base64::Engine;
use vstd::prelude::*;

verus! {

/// Failures of the console framing protocol.
#[derive(Debug)]
pub enum SMPTransportError {
    /// A start line arrived while a frame was in progress, or a
    /// continuation line arrived before any start line.
    UnexpectedFrame,
    /// A line began with a marker pair that is neither the start nor the
    /// continuation marker.
    UnknownFrameStart([u8; 2]),
    /// The accumulated content does not fit the declared length
    /// (declared, actual).
    PacketLength(u16, usize),
    /// The recomputed checksum differs from the transmitted one.
    CRCError,
    /// A line's body is not canonical base64.
    Base64DecodeError,
    /// Kept for completeness: encoding into a caller buffer cannot fail
    /// here, since lines are built in an owned buffer.
    Base64EncodeError,
}

/// The CRC-16/XMODEM checksum of a byte sequence, as the crc crate
/// computes it. The checksum is a function of the bytes alone; its
/// definition is left to the outside implementation.
pub uninterp spec fn crc16_of(data: Seq<u8>) -> u16;

/// The canonical padded base64 encoding of a byte sequence (the STANDARD
/// alphabet), as the base64 crate computes it.
pub uninterp spec fn base64_of(raw: Seq<u8>) -> Seq<u8>;

/// The big-endian bytes of a 16-bit value.
pub open spec fn be16_bytes(v: u16) -> Seq<u8> {
    seq![(v / 256) as u8, (v % 256) as u8]
}

/// The 16-bit value two big-endian bytes denote.
pub open spec fn be16_value(hi: u8, lo: u8) -> u16 {
    (hi * 256 + lo) as u16
}

/// The content stream of one console frame: the payload followed by the
/// big-endian CRC-16 of the payload.
pub open spec fn spec_content(payload: Seq<u8>) -> Seq<u8> {
    payload + be16_bytes(crc16_of(payload))
}

/// The raw-chunk budget of the line that starts at stream position `w`:
/// 93 bytes, less the 2-byte length prefix on the first line.
pub open spec fn spec_budget(w: int) -> int {
    if w == 0 {
        91
    } else {
        93
    }
}

/// How many stream bytes the line starting at position `w` carries, out
/// of `content_len` stream bytes in total.
pub open spec fn spec_take(content_len: int, w: int) -> int {
    if spec_budget(w) < content_len - w {
        spec_budget(w)
    } else {
        content_len - w
    }
}

/// The marker bytes of the line starting at position `w`.
pub open spec fn spec_marker(w: int) -> Seq<u8> {
    if w == 0 {
        seq![0x06u8, 0x09u8]
    } else {
        seq![0x04u8, 0x14u8]
    }
}

/// The raw (pre-base64) body of the line starting at position `w`.
pub open spec fn spec_raw_body(payload: Seq<u8>, w: int) -> Seq<u8> {
    let content = spec_content(payload);
    let prefix = if w == 0 {
        be16_bytes((payload.len() + 2) as u16)
    } else {
        Seq::<u8>::empty()
    };
    prefix + content.subrange(w, w + spec_take(content.len() as int, w))
}

/// The full line (marker, base64 body, newline) starting at position `w`.
pub open spec fn spec_line(payload: Seq<u8>, w: int) -> Seq<u8> {
    spec_marker(w) + base64_of(spec_raw_body(payload, w)) + seq![0x0au8]
}

/// Relies on the crc crate's `Crc::<u16>::checksum` with the
/// `CRC_16_XMODEM` algorithm: the checksum depends on the input bytes
/// alone.
#[verifier::external_body]
fn crc16_xmodem(data: &[u8]) -> (r: u16)
    ensures
        r == crc16_of(data@),
{
    crc::Crc::<u16>::new(&crc::CRC_16_XMODEM).checksum(data)
}

/// Relies on base64's `Engine::encode` with the STANDARD engine: the
/// output depends on the input bytes alone, and every 3 input bytes
/// (rounded up, with padding) become 4 output characters.
#[verifier::external_body]
fn b64_encode(raw: &[u8]) -> (r: Vec<u8>)
    ensures
        r@ == base64_of(raw@),
        r@.len() == 4 * ((raw@.len() + 2) / 3),
{
    base64::engine::general_purpose::STANDARD.encode(raw).into_bytes()
}

/// Relies on base64's `Engine::decode` with the STANDARD engine: it
/// accepts the canonical encoding of any byte sequence and returns that
/// sequence (inverting `encode`), and it decodes at most 3 bytes from
/// every 4 input characters.
#[verifier::external_body]
fn b64_decode(text: &[u8]) -> (r: Result<Vec<u8>, SMPTransportError>)
    ensures
        r matches Err(e) ==> (e matches SMPTransportError::Base64DecodeError && forall|
            raw: Seq<u8>,
        | text@ != base64_of(raw)),
        r matches Ok(v) ==> (4 * v@.len() <= 3 * text@.len() && forall|raw: Seq<u8>|
            text@ == base64_of(raw) ==> v@ == raw),
{
    match base64::engine::general_purpose::STANDARD.decode(text) {
        Ok(v) => Ok(v),
        Err(_) => Err(SMPTransportError::Base64DecodeError),
    }
}

/// Splits one frame's payload into checksummed, base64-encoded lines.
/// Single use: construct one encoder per outgoing frame and drive it
/// with `write_line` until `is_complete`.
pub struct SMPTransportEncoder {
    payload: Vec<u8>,
    written_len: usize,
}

impl SMPTransportEncoder {
    /// The payload this encoder was built for.
    pub closed spec fn payload_view(&self) -> Seq<u8> {
        self.payload@
    }

    /// How many bytes of the content stream (payload plus checksum) have
    /// been written so far.
    pub closed spec fn written(&self) -> int {
        self.written_len as int
    }

    /// Well-formedness: the position lies within the content stream, and
    /// the payload leaves room for the checksum in the 16-bit declared
    /// length.
    pub open spec fn wf(&self) -> bool {
        &&& self.payload_view().len() <= 65533
        &&& 0 <= self.written() <= self.payload_view().len() + 2
    }

    /// Whether every content byte, the checksum included, has been
    /// written.
    pub open spec fn spec_is_complete(&self) -> bool {
        self.written() >= self.payload_view().len() + 2
    }

    /// Create an encoder for one frame's payload. The payload must leave
    /// room for the 2-byte checksum in the 16-bit declared length.
    pub fn new(payload: &[u8]) -> (r: SMPTransportEncoder)
        requires
            payload@.len() <= 65533,
        ensures
            r.wf(),
            r.payload_view() == payload@,
            r.written() == 0,
    {
        SMPTransportEncoder { payload: vstd::slice::slice_to_vec(payload), written_len: 0 }
    }

    /// Whether every content byte has been written; check before each
    /// `write_line` call.
    pub fn is_complete(&self) -> (r: bool)
        requires
            self.wf(),
        ensures
            r == self.spec_is_complete(),
    {
        self.written_len >= self.payload.len() + 2
    }

    /// Write the next line into `out_buf` (replacing its contents) and
    /// return the number of bytes written. A line never exceeds 127
    /// bytes.
    pub fn write_line(&mut self, out_buf: &mut Vec<u8>) -> (r: usize)
        requires
            old(self).wf(),
            !old(self).spec_is_complete(),
        ensures
            final(self).wf(),
            final(self).payload_view() == old(self).payload_view(),
            final(self).written() == old(self).written() + spec_take(
                old(self).payload_view().len() + 2 as int,
                old(self).written(),
            ),
            final(out_buf)@ == spec_line(old(self).payload_view(), old(self).written()),
            r == final(out_buf)@.len(),
            r <= 127,
    {
        let ghost content = spec_content(self.payload@);
        let ghost w = self.written_len as int;

        let payload_len = self.payload.len();
        let content_total = payload_len + 2;
        let is_first = self.written_len == 0;

        let mut raw: Vec<u8> = Vec::new();
        if is_first {
            let declared: u16 = (payload_len as u16) + 2;
            raw.push((declared / 256) as u8);
            raw.push((declared % 256) as u8);
        }
        let ghost prefix = raw@;
        proof {
            assert(prefix =~= if w == 0 {
                be16_bytes((self.payload@.len() + 2) as u16)
            } else {
                Seq::<u8>::empty()
            });
        }

        let budget: usize = if is_first {
            91
        } else {
            93
        };
        let remaining = content_total - self.written_len;
        let take = if budget < remaining {
            budget
        } else {
            remaining
        };

        let crc = crc16_xmodem(self.payload.as_slice());
        let end = self.written_len + take;
        let mut i = self.written_len;
        while i < end
            invariant
                self.written_len as int == w,
                w <= i <= end,
                end == w + spec_take(content.len() as int, w),
                end <= content.len(),
                payload_len == self.payload@.len(),
                content == spec_content(self.payload@),
                crc == crc16_of(self.payload@),
                raw@ == prefix + content.subrange(w, i as int),
            decreases end - i,
        {
            if i < payload_len {
                raw.push(self.payload[i]);
            } else if i == payload_len {
                raw.push((crc / 256) as u8);
            } else {
                raw.push((crc % 256) as u8);
            }
            proof {
                assert(raw@ =~= prefix + content.subrange(w, i + 1));
            }
            i += 1;
        }
        proof {
            assert(raw@ == spec_raw_body(self.payload@, w));
        }

        let b64 = b64_encode(raw.as_slice());

        out_buf.clear();
        if is_first {
            out_buf.push(0x06);
            out_buf.push(0x09);
        } else {
            out_buf.push(0x04);
            out_buf.push(0x14);
        }
        out_buf.extend_from_slice(b64.as_slice());
        out_buf.push(0x0a);

        self.written_len = end;
        proof {
            assert(out_buf@ =~= spec_line(self.payload@, w));
        }
        b64.len() + 3
    }
}

/// Whether a decoder with declared length `cl` and accumulated content
/// `buf` has received a complete frame.
pub open spec fn spec_frame_complete(cl: u16, buf: Seq<u8>) -> bool {
    cl != 0 && buf.len() >= cl
}

/// What one line does to a decoder in state (`cl`, `buf`), given the
/// line's marker bytes and its base64-decoded body `raw`.
pub open spec fn spec_step(cl: u16, buf: Seq<u8>, m0: u8, m1: u8, raw: Seq<u8>) -> Result<
    (u16, Seq<u8>),
    SMPTransportError,
> {
    if m0 == 0x06 && m1 == 0x09 {
        if cl != 0 {
            Err(SMPTransportError::UnexpectedFrame)
        } else if raw.len() < 2 {
            Err(SMPTransportError::PacketLength(2, raw.len() as usize))
        } else {
            let new_cl = be16_value(raw[0], raw[1]);
            let chunk = raw.skip(2);
            if buf.len() + chunk.len() > new_cl {
                Err(SMPTransportError::PacketLength(new_cl, (buf.len() + chunk.len()) as usize))
            } else {
                Ok((new_cl, buf + chunk))
            }
        }
    } else if m0 == 0x04 && m1 == 0x14 {
        if cl == 0 {
            Err(SMPTransportError::UnexpectedFrame)
        } else if buf.len() + raw.len() > cl {
            Err(SMPTransportError::PacketLength(cl, (buf.len() + raw.len()) as usize))
        } else {
            Ok((cl, buf + raw))
        }
    } else {
        Err(SMPTransportError::UnknownFrameStart([m0, m1]))
    }
}

/// Extraction of the verified payload from a completed decoder state:
/// the accumulated content must match the declared length, and its last
/// two bytes must be the big-endian CRC-16 of the rest.
pub open spec fn spec_extract(cl: u16, buf: Seq<u8>) -> Result<Seq<u8>, SMPTransportError> {
    if buf.len() < 2 || buf.len() != cl {
        Err(SMPTransportError::PacketLength(cl, buf.len() as usize))
    } else {
        let body = buf.take(buf.len() - 2);
        let stored = be16_value(buf[buf.len() - 2], buf[buf.len() - 1]);
        if stored != crc16_of(body) {
            Err(SMPTransportError::CRCError)
        } else {
            Ok(body)
        }
    }
}

/// Reassembles one frame's content from its console lines. Single use:
/// construct one decoder per incoming frame, feed it lines with
/// `input_line` until `is_complete`, then consume it with
/// `into_frame_payload`.
pub struct SMPTransportDecoder {
    /// The declared content length: payload plus 2 checksum bytes.
    /// Zero until a start line establishes it.
    content_length: u16,
    buf: Vec<u8>,
}

/// Relates a decoder transition to `spec_step`: on a successful step the
/// new state and the completion flag match; on an error the decoder is
/// unchanged and the error matches.
pub open spec fn spec_step_outcome(
    pre: SMPTransportDecoder,
    post: SMPTransportDecoder,
    m0: u8,
    m1: u8,
    raw: Seq<u8>,
    r: Result<bool, SMPTransportError>,
) -> bool {
    match spec_step(pre.content_len(), pre.buffered(), m0, m1, raw) {
        Ok((cl, b)) => {
            &&& post.content_len() == cl
            &&& post.buffered() == b
            &&& r == Ok::<bool, SMPTransportError>(spec_frame_complete(cl, b))
        },
        Err(e) => post == pre && r == Err::<bool, SMPTransportError>(e),
    }
}

impl SMPTransportDecoder {
    /// The declared content length; zero until established.
    pub closed spec fn content_len(&self) -> u16 {
        self.content_length
    }

    /// The content accumulated so far.
    pub closed spec fn buffered(&self) -> Seq<u8> {
        self.buf@
    }

    /// Well-formedness: the accumulated content never exceeds the
    /// declared length (and is empty while no length is established).
    pub open spec fn wf(&self) -> bool {
        self.buffered().len() <= self.content_len()
    }

    /// Create a decoder for one incoming frame.
    pub fn new() -> (r: SMPTransportDecoder)
        ensures
            r.wf(),
            r.content_len() == 0,
            r.buffered() == Seq::<u8>::empty(),
    {
        SMPTransportDecoder { content_length: 0, buf: Vec::new() }
    }

    /// Whether the accumulated content has reached the declared length.
    pub fn is_complete(&self) -> (r: bool)
        ensures
            r == spec_frame_complete(self.content_len(), self.buffered()),
    {
        self.content_length != 0 && self.buf.len() >= self.content_length as usize
    }

    /// Consume one line (marker, base64 body, trailing newline) and
    /// return whether the frame is now complete.
    ///
    /// For a line whose body is canonical base64 the outcome is exactly
    /// `spec_step` on the decoded body: a start line must come first and
    /// establishes the declared length from its 2-byte prefix (a start
    /// line too short for the prefix is a length error), a continuation
    /// line must not, and content beyond the declared length is a length
    /// error. On any error the decoder is left unchanged.
    pub fn input_line(&mut self, input: &[u8]) -> (r: Result<bool, SMPTransportError>)
        requires
            old(self).wf(),
            input@.len() >= 3,
        ensures
            final(self).wf(),
            forall|raw: Seq<u8>|
                input@.subrange(2, input@.len() - 1) == base64_of(raw) ==> spec_step_outcome(
                    *old(self),
                    *final(self),
                    input@[0],
                    input@[1],
                    raw,
                    r,
                ),
            r matches Err(_) ==> *final(self) == *old(self),
            (exists|raw: Seq<u8>|
                spec_step_outcome(*old(self), *final(self), input@[0], input@[1], raw, r)) || (
            r matches Err(e) && e matches SMPTransportError::Base64DecodeError && *final(self)
                == *old(self)),
    {
        let m0 = input[0];
        let m1 = input[1];
        let text: &[u8] = &input[2..input.len() - 1];
        let raw = match b64_decode(text) {
            Ok(v) => v,
            Err(e) => {
                return Err(e);
            },
        };

        if m0 == 0x06 && m1 == 0x09 {
            if self.content_length != 0 {
                proof {
                    assert(spec_step_outcome(
                        *old(self),
                        *self,
                        m0,
                        m1,
                        raw@,
                        Err(SMPTransportError::UnexpectedFrame),
                    ));
                }
                return Err(SMPTransportError::UnexpectedFrame);
            }
            if raw.len() < 2 {
                proof {
                    assert(spec_step_outcome(
                        *old(self),
                        *self,
                        m0,
                        m1,
                        raw@,
                        Err(SMPTransportError::PacketLength(2, raw@.len() as usize)),
                    ));
                }
                return Err(SMPTransportError::PacketLength(2, raw.len()));
            }
            let new_cl: u16 = (raw[0] as u16) * 256 + (raw[1] as u16);
            let chunk_len = raw.len() - 2;
            if self.buf.len() + chunk_len > new_cl as usize {
                let actual = self.buf.len() + chunk_len;
                proof {
                    assert(raw@.skip(2).len() == chunk_len);
                    assert(spec_step_outcome(
                        *old(self),
                        *self,
                        m0,
                        m1,
                        raw@,
                        Err(SMPTransportError::PacketLength(new_cl, actual)),
                    ));
                }
                return Err(SMPTransportError::PacketLength(new_cl, actual));
            }
            self.content_length = new_cl;
            self.buf.extend_from_slice(&raw.as_slice()[2..raw.len()]);
            let complete = self.is_complete();
            proof {
                assert(self.buffered() =~= old(self).buffered() + raw@.skip(2));
                assert(spec_step_outcome(
                    *old(self),
                    *self,
                    m0,
                    m1,
                    raw@,
                    Ok(complete),
                ));
            }
            Ok(complete)
        } else if m0 == 0x04 && m1 == 0x14 {
            if self.content_length == 0 {
                proof {
                    assert(spec_step_outcome(
                        *old(self),
                        *self,
                        m0,
                        m1,
                        raw@,
                        Err(SMPTransportError::UnexpectedFrame),
                    ));
                }
                return Err(SMPTransportError::UnexpectedFrame);
            }
            if self.buf.len() + raw.len() > self.content_length as usize {
                let actual = self.buf.len() + raw.len();
                proof {
                    assert(spec_step_outcome(
                        *old(self),
                        *self,
                        m0,
                        m1,
                        raw@,
                        Err(SMPTransportError::PacketLength(self.content_length, actual)),
                    ));
                }
                return Err(SMPTransportError::PacketLength(self.content_length, actual));
            }
            self.buf.extend_from_slice(raw.as_slice());
            let complete = self.is_complete();
            proof {
                assert(self.buffered() =~= old(self).buffered() + raw@);
                assert(spec_step_outcome(
                    *old(self),
                    *self,
                    m0,
                    m1,
                    raw@,
                    Ok(complete),
                ));
            }
            Ok(complete)
        } else {
            proof {
                assert(spec_step_outcome(
                    *old(self),
                    *self,
                    m0,
                    m1,
                    raw@,
                    Err(SMPTransportError::UnknownFrameStart([m0, m1])),
                ));
            }
            Err(SMPTransportError::UnknownFrameStart([m0, m1]))
        }
    }

    /// Consume the decoder and return the verified payload: valid only
    /// when the accumulated content matches the declared length and is
    /// long enough for the checksum; the transmitted checksum must equal
    /// the CRC-16 recomputed over the rest.
    pub fn into_frame_payload(self) -> (r: Result<Vec<u8>, SMPTransportError>)
        ensures
            match (r, spec_extract(self.content_len(), self.buffered())) {
                (Ok(v), Ok(s)) => v@ == s,
                (Err(e1), Err(e2)) => e1 == e2,
                _ => false,
            },
    {
        let len = self.buf.len();
        if len < 2 || len != self.content_length as usize {
            return Err(SMPTransportError::PacketLength(self.content_length, len));
        }

        let mut body = self.buf;
        let crc_hi = body[len - 2];
        let crc_lo = body[len - 1];
        body.truncate(len - 2);

        let stored: u16 = (crc_hi as u16) * 256 + (crc_lo as u16);
        let computed = crc16_xmodem(body.as_slice());
        if stored != computed {
            return Err(SMPTransportError::CRCError);
        }
        Ok(body)
    }
}

impl Default for SMPTransportDecoder {
    /// A fresh decoder, as `new` returns it.
    fn default() -> (r: SMPTransportDecoder)
        ensures
            r.wf(),
            r.content_len() == 0,
            r.buffered() == Seq::<u8>::empty(),
    {
        SMPTransportDecoder::new()
    }
}

/// Folding `spec_step` over every line the encoder produces from stream
/// position `w` on, starting in decoder state (`cl`, `buf`).
pub open spec fn spec_feed_from(payload: Seq<u8>, w: int, cl: u16, buf: Seq<u8>) -> Result<
    (u16, Seq<u8>),
    SMPTransportError,
>
    decreases payload.len() + 2 - w,
    when 0 <= w < payload.len() + 2
{
    let m = spec_marker(w);
    let raw = spec_raw_body(payload, w);
    let w2 = w + spec_take(payload.len() + 2 as int, w);
    match spec_step(cl, buf, m[0], m[1], raw) {
        Err(e) => Err(e),
        Ok((cl2, buf2)) => if w2 >= payload.len() + 2 {
            Ok((cl2, buf2))
        } else {
            spec_feed_from(payload, w2, cl2, buf2)
        },
    }
}

/// Feeding every produced line from stream position `w` into a decoder
/// that has already accumulated the first `w` stream bytes accumulates
/// the rest and nothing else.
proof fn lemma_feed_rest(payload: Seq<u8>, w: int)
    requires
        payload.len() <= 65533,
        0 < w < payload.len() + 2,
    ensures
        spec_feed_from(payload, w, (payload.len() + 2) as u16, spec_content(payload).take(w))
            == Ok::<(u16, Seq<u8>), SMPTransportError>(
            ((payload.len() + 2) as u16, spec_content(payload)),
        ),
    decreases payload.len() + 2 - w,
{
    let content = spec_content(payload);
    let cl = (payload.len() + 2) as u16;
    let buf = content.take(w);
    let raw = spec_raw_body(payload, w);
    let t = spec_take(payload.len() + 2 as int, w);
    let w2 = w + t;
    assert(raw == content.subrange(w, w + t));
    assert(buf.len() + raw.len() <= cl);
    let stepped = spec_step(cl, buf, 0x04u8, 0x14u8, raw);
    assert(buf + raw =~= content.take(w2));
    assert(stepped == Ok::<(u16, Seq<u8>), SMPTransportError>((cl, content.take(w2))));
    if w2 >= payload.len() + 2 {
        assert(content.take(w2) =~= content);
    } else {
        lemma_feed_rest(payload, w2);
    }
}

/// Law: console framing round trip. For any payload that fits the
/// declared-length field, feeding every line the encoder produces into a
/// fresh decoder succeeds, completes the frame with exactly the payload
/// followed by its checksum, and extracting the verified payload
/// returns the payload itself.
pub proof fn lemma_console_round_trip(payload: Seq<u8>)
    requires
        payload.len() <= 65533,
    ensures
        spec_feed_from(payload, 0, 0, Seq::<u8>::empty()) == Ok::<
            (u16, Seq<u8>),
            SMPTransportError,
        >(((payload.len() + 2) as u16, spec_content(payload))),
        spec_frame_complete((payload.len() + 2) as u16, spec_content(payload)),
        spec_extract((payload.len() + 2) as u16, spec_content(payload)) == Ok::<
            Seq<u8>,
            SMPTransportError,
        >(payload),
{
    let content = spec_content(payload);
    let cl = (payload.len() + 2) as u16;
    let raw = spec_raw_body(payload, 0);
    let t = spec_take(payload.len() + 2 as int, 0);
    let prefix = be16_bytes(cl);

    // The first line establishes the declared length and accumulates the
    // first chunk.
    assert(raw == prefix + content.subrange(0, t));
    assert(raw.len() >= 2);
    assert(raw[0] == prefix[0] && raw[1] == prefix[1]);
    assert(be16_value(prefix[0], prefix[1]) == cl);
    assert(raw.skip(2) =~= content.subrange(0, t));
    let stepped = spec_step(0, Seq::<u8>::empty(), 0x06u8, 0x09u8, raw);
    assert(Seq::<u8>::empty() + raw.skip(2) =~= content.take(t));
    assert(stepped == Ok::<(u16, Seq<u8>), SMPTransportError>((cl, content.take(t))));

    if t >= payload.len() + 2 {
        assert(content.take(t) =~= content);
    } else {
        lemma_feed_rest(payload, t);
    }

    // Extraction validates the checksum and strips it.
    assert(content.len() == cl >= 2);
    assert(content.take(content.len() - 2) =~= payload);
    assert(content[content.len() - 2] == be16_bytes(crc16_of(payload))[0]);
    assert(content[content.len() - 1] == be16_bytes(crc16_of(payload))[1]);
    assert(be16_value(content[content.len() - 2], content[content.len() - 1]) == crc16_of(payload));
}

} // verus!
