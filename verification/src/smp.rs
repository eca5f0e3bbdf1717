//! Definition of a single SMP message and its byte-level codec.
//!
//! An `SMPFrame` carries an 8-byte big-endian header (operation, flags,
//! payload length, group, sequence, command) followed by the payload
//! bytes produced by a caller-supplied payload encoder.

use vstd::prelude::*;

verus! {

/// Frame decoding failures.
#[derive(Debug, Clone, Copy)]
pub enum SMPError {
    /// The caller-supplied payload decoder failed.
    PayloadDecodingError,
    /// The buffer is too short for the header or the declared payload
    /// length, or the operation code is outside the defined range.
    InvalidFrame,
    /// A response's sequence number differs from the request's.
    UnexpectedSeq,
}

/// The operation kind of a frame, stored in the low 3 bits of the first
/// header byte. Values outside the defined range are rejected on decode.
#[derive(Debug, Clone, Copy, PartialEq, Eq, Structural)]
pub enum OpCode {
    ReadRequest,
    ReadResponse,
    WriteRequest,
    WriteResponse,
}

impl OpCode {
    /// The wire value of this operation code.
    pub open spec fn spec_as_u8(self) -> u8 {
        match self {
            OpCode::ReadRequest => 0,
            OpCode::ReadResponse => 1,
            OpCode::WriteRequest => 2,
            OpCode::WriteResponse => 3,
        }
    }

    /// The operation code denoted by a wire value, if any.
    pub open spec fn spec_from_u8(num: u8) -> Option<OpCode> {
        match num {
            0u8 => Some(OpCode::ReadRequest),
            1u8 => Some(OpCode::ReadResponse),
            2u8 => Some(OpCode::WriteRequest),
            3u8 => Some(OpCode::WriteResponse),
            _ => None,
        }
    }

    /// Convert this operation code to its wire value.
    pub fn as_u8(self) -> (r: u8)
        ensures
            r == self.spec_as_u8(),
            r <= 3,
    {
        match self {
            OpCode::ReadRequest => 0,
            OpCode::ReadResponse => 1,
            OpCode::WriteRequest => 2,
            OpCode::WriteResponse => 3,
        }
    }

    /// Parse a wire value; values above 3 denote no operation code.
    pub fn from_u8(num: u8) -> (r: Option<OpCode>)
        ensures
            r == OpCode::spec_from_u8(num),
    {
        match num {
            0 => Some(OpCode::ReadRequest),
            1 => Some(OpCode::ReadResponse),
            2 => Some(OpCode::WriteRequest),
            3 => Some(OpCode::WriteResponse),
            _ => None,
        }
    }
}

/// The command family of a frame. Known 16-bit group numbers map to the
/// named variants; any other number is preserved verbatim as `Custom`.
#[derive(Debug, Clone, Copy, PartialEq, Eq, Structural)]
pub enum Group {
    Default,
    ApplicationManagement,
    Statistics,
    FileManagement,
    ShellManagement,
    ZephyrCommand,
    Custom(u16),
}

impl Group {
    /// The wire value of this group.
    pub open spec fn spec_as_u16(self) -> u16 {
        match self {
            Group::Default => 0,
            Group::ApplicationManagement => 1,
            Group::Statistics => 2,
            Group::FileManagement => 8,
            Group::ShellManagement => 9,
            Group::ZephyrCommand => 63,
            Group::Custom(num) => num,
        }
    }

    /// The group denoted by a wire value; never fails.
    pub open spec fn spec_from_u16(num: u16) -> Group {
        match num {
            0u16 => Group::Default,
            1u16 => Group::ApplicationManagement,
            2u16 => Group::Statistics,
            8u16 => Group::FileManagement,
            9u16 => Group::ShellManagement,
            63u16 => Group::ZephyrCommand,
            _ => Group::Custom(num),
        }
    }

    /// A group is canonical when it is what decoding its own wire value
    /// yields: a `Custom` number must not shadow a named variant.
    pub open spec fn is_canonical(self) -> bool {
        match self {
            Group::Custom(num) => Group::spec_from_u16(num) == Group::Custom(num),
            _ => true,
        }
    }

    /// Convert this group to its wire value.
    pub fn as_u16(self) -> (r: u16)
        ensures
            r == self.spec_as_u16(),
    {
        match self {
            Group::Default => 0,
            Group::ApplicationManagement => 1,
            Group::Statistics => 2,
            Group::FileManagement => 8,
            Group::ShellManagement => 9,
            Group::ZephyrCommand => 63,
            Group::Custom(num) => num,
        }
    }

    /// Parse a wire value. Unknown group numbers are preserved as
    /// `Custom`, never rejected.
    pub fn from_u16(num: u16) -> (r: Group)
        ensures
            r == Group::spec_from_u16(num),
            r.is_canonical(),
    {
        match num {
            0 => Group::Default,
            1 => Group::ApplicationManagement,
            2 => Group::Statistics,
            8 => Group::FileManagement,
            9 => Group::ShellManagement,
            63 => Group::ZephyrCommand,
            _ => Group::Custom(num),
        }
    }
}

/// Status codes a device reports in management responses.
#[derive(Debug, Clone, Copy)]
pub enum ReturnCode {
    Success,
    Unknown,
    OutOfMemory,
    UserDefined,
}

impl ReturnCode {
    /// The numeric value of this return code.
    pub open spec fn spec_code(self) -> u16 {
        match self {
            ReturnCode::Success => 0,
            ReturnCode::Unknown => 1,
            ReturnCode::OutOfMemory => 2,
            ReturnCode::UserDefined => 256,
        }
    }

    /// Convert this return code to its numeric value.
    pub fn code(self) -> (r: u16)
        ensures
            r == self.spec_code(),
    {
        match self {
            ReturnCode::Success => 0,
            ReturnCode::Unknown => 1,
            ReturnCode::OutOfMemory => 2,
            ReturnCode::UserDefined => 256,
        }
    }
}

/// Definition of a single SMP message. SMP requests and responses always
/// have this format.
#[derive(Debug, Clone)]
pub struct SMPFrame<T> {
    pub operation: OpCode,
    pub flags: u8,
    pub group: Group,
    pub sequence: u8,
    pub command: u8,
    pub data: T,
}

/// The bytes of an encoded frame: the 8-byte big-endian header followed
/// by the payload bytes.
pub open spec fn spec_frame_bytes(
    operation: OpCode,
    flags: u8,
    group: Group,
    sequence: u8,
    command: u8,
    payload: Seq<u8>,
) -> Seq<u8> {
    seq![
        operation.spec_as_u8(),
        flags,
        (payload.len() / 256) as u8,
        (payload.len() % 256) as u8,
        (group.spec_as_u16() / 256) as u8,
        (group.spec_as_u16() % 256) as u8,
        sequence,
        command,
    ] + payload
}

/// The payload length a frame header declares.
pub open spec fn spec_data_len(buf: Seq<u8>) -> int
    recommends
        buf.len() >= 8,
{
    buf[2] * 256 + buf[3]
}

/// Whether a buffer holds a decodable frame: a full header, a defined
/// operation code, and at least as many bytes as the header declares.
pub open spec fn spec_header_ok(buf: Seq<u8>) -> bool {
    &&& buf.len() >= 8
    &&& OpCode::spec_from_u8(buf[0] & 0x07) is Some
    &&& buf.len() >= 8 + spec_data_len(buf)
}

/// The payload region of an encoded frame.
pub open spec fn spec_payload_bytes(buf: Seq<u8>) -> Seq<u8>
    recommends
        spec_header_ok(buf),
{
    buf.subrange(8, 8 + spec_data_len(buf))
}

impl<T> SMPFrame<T> {
    /// Create a new frame with default (zero) flags.
    pub fn new(operation: OpCode, sequence: u8, group: Group, command: u8, payload: T) -> (r:
        SMPFrame<T>)
        ensures
            r.operation == operation,
            r.flags == 0,
            r.group == group,
            r.sequence == sequence,
            r.command == command,
            r.data == payload,
    {
        SMPFrame { operation, flags: 0, group, sequence, command, data: payload }
    }

    /// Encode the frame to bytes using the given `encode_payload` handler.
    /// The handler must only produce payloads whose length fits in the
    /// 16-bit length field; a longer payload cannot be represented.
    pub fn encode<E, F: FnOnce(&T) -> Result<Vec<u8>, E>>(&self, encode_payload: F) -> (r: Result<
        Vec<u8>,
        E,
    >)
        requires
            call_requires(encode_payload, (&self.data,)),
            forall|res: Result<Vec<u8>, E>|
                #[trigger] call_ensures(encode_payload, (&self.data,), res) ==> (res matches Ok(p)
                    ==> p@.len() <= 0xFFFF),
        ensures
            match r {
                Ok(bytes) => exists|res: Result<Vec<u8>, E>|
                    #[trigger] call_ensures(encode_payload, (&self.data,), res) && (res matches Ok(
                        p,
                    ) && bytes@ == spec_frame_bytes(
                        self.operation,
                        self.flags,
                        self.group,
                        self.sequence,
                        self.command,
                        p@,
                    )),
                Err(e) => call_ensures(encode_payload, (&self.data,), Err(e)),
            },
    {
        let encoded = match encode_payload(&self.data) {
            Ok(d) => d,
            Err(e) => {
                return Err(e);
            },
        };
        let data_len: u16 = encoded.len() as u16;
        let group: u16 = self.group.as_u16();

        let mut buf: Vec<u8> = Vec::new();
        buf.push(self.operation.as_u8());
        buf.push(self.flags);
        buf.push((data_len / 256) as u8);
        buf.push((data_len % 256) as u8);
        buf.push((group / 256) as u8);
        buf.push((group % 256) as u8);
        buf.push(self.sequence);
        buf.push(self.command);
        buf.extend_from_slice(encoded.as_slice());

        Ok(buf)
    }

    /// Decode a frame from bytes using the given `decode_payload` handler.
    ///
    /// Fails with `InvalidFrame` when the buffer is shorter than the
    /// 8-byte header, declares more payload bytes than it holds, or
    /// carries an operation code outside the defined range; the flags
    /// byte is ignored. Fails with `PayloadDecodingError` when the
    /// handler rejects the payload region.
    pub fn decode<E, F: FnOnce(&[u8]) -> Result<T, E>>(buf: &[u8], decode_payload: F) -> (r: Result<
        SMPFrame<T>,
        SMPError,
    >)
        requires
            forall|s: &[u8]| call_requires(decode_payload, (s,)),
        ensures
            match r {
                Ok(frame) => {
                    &&& spec_header_ok(buf@)
                    &&& OpCode::spec_from_u8(buf@[0] & 0x07) == Some(frame.operation)
                    &&& frame.flags == 0
                    &&& frame.group == Group::spec_from_u16((buf@[4] * 256 + buf@[5]) as u16)
                    &&& frame.group.is_canonical()
                    &&& frame.sequence == buf@[6]
                    &&& frame.command == buf@[7]
                    &&& exists|s: &[u8]|
                        s@ == spec_payload_bytes(buf@) && #[trigger] call_ensures(
                            decode_payload,
                            (s,),
                            Ok(frame.data),
                        )
                },
                Err(e) => match e {
                    SMPError::InvalidFrame => !spec_header_ok(buf@),
                    SMPError::PayloadDecodingError => spec_header_ok(buf@) && exists|
                        s: &[u8],
                        e2: E,
                    |
                        s@ == spec_payload_bytes(buf@) && #[trigger] call_ensures(
                            decode_payload,
                            (s,),
                            Err(e2),
                        ),
                    _ => false,
                },
            },
    {
        if buf.len() < 8 {
            return Err(SMPError::InvalidFrame);
        }
        let operation = match OpCode::from_u8(buf[0] & 0x07) {
            Some(op) => op,
            None => {
                return Err(SMPError::InvalidFrame);
            },
        };
        let data_len: usize = (buf[2] as usize) * 256 + (buf[3] as usize);
        if buf.len() < 8 + data_len {
            return Err(SMPError::InvalidFrame);
        }
        let group = Group::from_u16((buf[4] as u16) * 256 + (buf[5] as u16));
        let sequence = buf[6];
        let command = buf[7];

        let data_buf: &[u8] = &buf[8..8 + data_len];
        proof {
            assert(data_buf@ == spec_payload_bytes(buf@));
        }
        match decode_payload(data_buf) {
            Ok(data) => Ok(SMPFrame::new(operation, sequence, group, command, data)),
            Err(_) => Err(SMPError::PayloadDecodingError),
        }
    }
}

/// Law: decoding an encoded frame reproduces the frame. For any header
/// with zero flags and a canonical group, and any payload of at most
/// 65535 bytes, the encoded bytes parse back to the same header fields
/// and the same payload region.
pub proof fn lemma_frame_round_trip(
    operation: OpCode,
    flags: u8,
    group: Group,
    sequence: u8,
    command: u8,
    payload: Seq<u8>,
)
    requires
        flags == 0,
        group.is_canonical(),
        payload.len() <= 0xFFFF,
    ensures
        ({
            let bytes = spec_frame_bytes(operation, flags, group, sequence, command, payload);
            &&& spec_header_ok(bytes)
            &&& OpCode::spec_from_u8(bytes[0] & 0x07) == Some(operation)
            &&& bytes[1] == flags
            &&& Group::spec_from_u16((bytes[4] * 256 + bytes[5]) as u16) == group
            &&& bytes[6] == sequence
            &&& bytes[7] == command
            &&& spec_payload_bytes(bytes) == payload
        }),
{
    let bytes = spec_frame_bytes(operation, flags, group, sequence, command, payload);
    let op = operation.spec_as_u8();
    assert(op & 0x07 == op) by (bit_vector)
        requires
            op <= 3,
    ;
    assert(spec_data_len(bytes) == payload.len());
    assert((bytes[4] * 256 + bytes[5]) as u16 == group.spec_as_u16());
    assert(spec_payload_bytes(bytes) =~= payload);
}

} // verus!
