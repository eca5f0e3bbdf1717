//! The transport capability and the typed session.
//!
//! A transport sends and receives one opaque byte frame at a time;
//! concrete drivers (a console-framing adapter over a byte stream, or a
//! message-bounded link passing frames through unchanged) implement the
//! `SmpTransport` trait outside this library. The session layers the
//! frame codec on top: it is strictly half-duplex request/response, with
//! optional sequence-number correlation on receive.

use vstd::prelude::*;

use crate::smp::{SMPError, SMPFrame};
use crate::smp_framing::SMPTransportError;

verus! {

/// Relies on std::io::Error being an ordinary (opaque) error type; the
/// library only carries it through.
#[verifier::external_type_specification]
#[verifier::external_body]
pub struct ExIoError(std::io::Error);

/// Transport-layer failures.
#[derive(Debug)]
pub enum Error {
    /// The underlying device failed or timed out.
    Io(std::io::Error),
    /// The frame codec rejected a frame, or a response's sequence number
    /// did not match the request's.
    Smp(SMPError),
    /// The console framing sublayer rejected a line.
    SmpTransport(SMPTransportError),
}

/// The transport capability: send one opaque byte frame, receive one
/// opaque byte frame. Implementations may block or suspend until I/O
/// completes or a configured deadline elapses; a timeout surfaces as an
/// error. Nothing is assumed of what a transport returns: callers
/// validate every received frame through the codec.
pub trait SmpTransport {
    /// Send a single frame.
    fn send(&mut self, frame: Vec<u8>) -> Result<(), Error>;

    /// Receive a single frame.
    fn receive(&mut self) -> Result<Vec<u8>, Error>;
}

/// A session over a transport, pairing raw byte frames with the frame
/// codec. The payload-level (CBOR) encoding is layered on top by the
/// caller; the session works on frames whose payload is already encoded.
pub struct CborSmpTransport<T: SmpTransport> {
    pub transport: T,
}

impl<T: SmpTransport> CborSmpTransport<T> {
    /// Send one already-encoded frame.
    pub fn send(&mut self, frame: Vec<u8>) -> (r: Result<(), Error>) {
        self.transport.send(frame)
    }

    /// Receive one frame's bytes, unvalidated.
    pub fn receive(&mut self) -> (r: Result<Vec<u8>, Error>) {
        self.transport.receive()
    }

    /// Send a frame, then receive the response's bytes. The protocol is
    /// strictly half-duplex: one outstanding request at a time.
    pub fn transceive(&mut self, frame: Vec<u8>) -> (r: Result<Vec<u8>, Error>) {
        match self.transport.send(frame) {
            Ok(()) => self.transport.receive(),
            Err(e) => Err(e),
        }
    }

    /// Encode and send one frame with a raw byte payload.
    pub fn send_frame(&mut self, frame: &SMPFrame<Vec<u8>>) -> (r: Result<(), Error>)
        requires
            frame.data@.len() <= 0xFFFF,
    {
        let pass_through = |d: &Vec<u8>| -> (r: Result<Vec<u8>, Error>)
            ensures
                (r matches Ok(v) && v@ == d@),
            { Ok(clone_bytes(d)) };
        let bytes = match frame.encode(pass_through) {
            Ok(b) => b,
            Err(e) => {
                return Err(e);
            },
        };
        self.transport.send(bytes)
    }

    /// Receive one frame and decode it with a raw byte payload. When
    /// `expected` carries a sequence number, a decoded response whose
    /// sequence differs is rejected as a sequence mismatch.
    pub fn receive_frame(&mut self, expected: Option<u8>) -> (r: Result<SMPFrame<Vec<u8>>, Error>)
        ensures
            r matches Ok(f) ==> (f.flags == 0 && f.group.is_canonical() && (expected matches Some(s)
                ==> f.sequence == s)),
    {
        let bytes = match self.transport.receive() {
            Ok(b) => b,
            Err(e) => {
                return Err(e);
            },
        };
        let pass_through = |s: &[u8]| -> (r: Result<Vec<u8>, SMPError>)
            ensures
                (r matches Ok(v) && v@ == s@),
            { Ok(vstd::slice::slice_to_vec(s)) };
        let frame = match SMPFrame::<Vec<u8>>::decode(bytes.as_slice(), pass_through) {
            Ok(f) => f,
            Err(e) => {
                return Err(Error::Smp(e));
            },
        };
        if let Some(s) = expected {
            if frame.sequence != s {
                return Err(Error::Smp(SMPError::UnexpectedSeq));
            }
        }
        Ok(frame)
    }

    /// Send a request frame, then receive and decode the response. With
    /// `check_sequence`, a response whose sequence number differs from
    /// the request's is rejected as a sequence mismatch.
    pub fn transceive_frame(&mut self, frame: &SMPFrame<Vec<u8>>, check_sequence: bool) -> (r:
        Result<SMPFrame<Vec<u8>>, Error>)
        requires
            frame.data@.len() <= 0xFFFF,
        ensures
            r matches Ok(f) ==> (f.flags == 0 && f.group.is_canonical() && (check_sequence
                ==> f.sequence == frame.sequence)),
    {
        if let Err(e) = self.send_frame(frame) {
            return Err(e);
        }
        let expected = if check_sequence {
            Some(frame.sequence)
        } else {
            None
        };
        self.receive_frame(expected)
    }
}

/// Copy a byte vector.
fn clone_bytes(v: &Vec<u8>) -> (r: Vec<u8>)
    ensures
        r@ == v@,
{
    let r = v.clone();
    proof {
        assert(r@ =~= v@);
    }
    r
}

} // verus!
