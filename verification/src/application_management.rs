//! Application-management commands: image state queries and the
//! resumable chunked image-upload protocol.

use vstd::prelude::*;

use crate::smp::{Group, OpCode, SMPFrame};

verus! {

/// Commands of the application-management group.
pub enum ApplicationManagementCommand {
    State,
    Upload,
    Erase,
    Unknown(u8),
}

impl ApplicationManagementCommand {
    /// The wire value of this command.
    pub open spec fn spec_as_u8(self) -> u8 {
        match self {
            ApplicationManagementCommand::State => 0,
            ApplicationManagementCommand::Upload => 1,
            ApplicationManagementCommand::Erase => 5,
            ApplicationManagementCommand::Unknown(n) => n,
        }
    }

    /// Convert this command to its wire value.
    pub fn as_u8(self) -> (r: u8)
        ensures
            r == self.spec_as_u8(),
    {
        match self {
            ApplicationManagementCommand::State => 0,
            ApplicationManagementCommand::Upload => 1,
            ApplicationManagementCommand::Erase => 5,
            ApplicationManagementCommand::Unknown(n) => n,
        }
    }
}

/// One image slot's reported state.
#[derive(Debug)]
pub struct ImageState {
    pub image: Option<i32>,
    pub slot: i32,
    pub version: String,
    pub hash: Vec<u8>,
    pub bootable: bool,
    pub pending: bool,
    pub confirmed: bool,
    pub active: bool,
    pub permanent: bool,
}

/// The device's answer to an image state query.
#[derive(Debug)]
pub struct GetImageStatePayload {
    pub images: Vec<ImageState>,
    pub split_status: Option<i32>,
}

/// An image state query the device rejected.
#[derive(Debug)]
pub struct GetImageStateError {
    pub rc: i32,
}

/// The result of an image state query.
#[derive(Debug)]
pub enum GetImageStateResult {
    Success(GetImageStatePayload),
    Failure(GetImageStateError),
}

/// The (empty) request payload of an image state query.
#[derive(Debug)]
pub struct GetStatePayload {}

/// Build an image state query.
pub fn get_state(sequence: u8) -> (r: SMPFrame<GetStatePayload>)
    ensures
        r.operation == OpCode::ReadRequest,
        r.flags == 0,
        r.group == Group::ApplicationManagement,
        r.sequence == sequence,
        r.command == 0,
{
    SMPFrame {
        operation: OpCode::ReadRequest,
        flags: 0,
        group: Group::ApplicationManagement,
        sequence,
        command: ApplicationManagementCommand::State.as_u8(),
        data: GetStatePayload {  },
    }
}

/// The request payload that marks an image as pending or confirmed.
#[derive(Debug)]
pub struct SetStatePayload {
    pub hash: Vec<u8>,
    pub confirm: bool,
}

/// Build a request that marks the image with the given hash as pending,
/// or confirms it.
pub fn set_state(hash: Vec<u8>, confirm: bool, sequence: u8) -> (r: SMPFrame<SetStatePayload>)
    ensures
        r.operation == OpCode::WriteRequest,
        r.flags == 0,
        r.group == Group::ApplicationManagement,
        r.sequence == sequence,
        r.command == 0,
        r.data.hash == hash,
        r.data.confirm == confirm,
{
    let data = SetStatePayload { hash, confirm };
    SMPFrame {
        operation: OpCode::WriteRequest,
        flags: 0,
        group: Group::ApplicationManagement,
        sequence,
        command: ApplicationManagementCommand::State.as_u8(),
        data,
    }
}

/// One chunk of an image upload. Only the first chunk of an upload
/// (device write offset zero) carries the image id, total length,
/// content hash and upgrade flag.
#[derive(Debug)]
pub struct ImageChunk {
    pub data: Vec<u8>,
    pub off: usize,
    pub image: Option<u8>,
    pub len: Option<usize>,
    pub sha: Option<Vec<u8>>,
    pub upgrade: Option<bool>,
}

/// The upload cursor: per-upload state that produces successive
/// write-request frames for a firmware image.
///
/// After each acknowledged chunk the caller must overwrite `offset` with
/// the offset the device reported: the device may request retransmission
/// from an earlier point or accept fewer bytes than sent.
pub struct ImageWriter {
    pub image: Option<u8>,
    pub hash: Option<Vec<u8>>,
    pub offset: usize,
    pub len: usize,
    pub sequence: u8,
    pub upgrade: bool,
}

impl ImageWriter {
    /// Create an upload cursor for an image of `len` bytes.
    pub fn new(image: Option<u8>, len: usize, hash: Option<Vec<u8>>, upgrade: bool) -> (r:
        ImageWriter)
        ensures
            r.image == image,
            r.hash == hash,
            r.offset == 0,
            r.len == len,
            r.sequence == 0,
            r.upgrade == upgrade,
    {
        ImageWriter { image, hash, offset: 0, len, sequence: 0, upgrade }
    }

    /// Build the write-request frame for the next chunk, placed at the
    /// current offset. The image id, total length, content hash and
    /// upgrade flag are attached exactly when the chunk starts at offset
    /// zero; the internal sequence counter advances, wrapping modulo 256,
    /// and the local offset advances by the chunk's length.
    pub fn write_chunk(&mut self, data: &[u8]) -> (r: SMPFrame<ImageChunk>)
        requires
            old(self).offset + data@.len() <= usize::MAX,
        ensures
            final(self).image == old(self).image,
            final(self).hash == old(self).hash,
            final(self).len == old(self).len,
            final(self).upgrade == old(self).upgrade,
            final(self).offset == old(self).offset + data@.len(),
            final(self).sequence == (if old(self).sequence == 255 {
                0u8
            } else {
                (old(self).sequence + 1) as u8
            }),
            r.operation == OpCode::WriteRequest,
            r.flags == 0,
            r.group == Group::ApplicationManagement,
            r.command == 1,
            r.sequence == final(self).sequence,
            r.data.data@ == data@,
            r.data.off == old(self).offset,
            r.data.len == (if old(self).offset == 0 {
                Some(old(self).len)
            } else {
                None::<usize>
            }),
            r.data.image == (if old(self).offset == 0 {
                old(self).image
            } else {
                None::<u8>
            }),
            (match (r.data.sha, old(self).hash) {
                (Some(s), Some(h)) => old(self).offset == 0 && s@ == h@,
                (None, _) => old(self).offset != 0 || old(self).hash is None,
                _ => false,
            }),
            r.data.upgrade == (if old(self).offset == 0 && old(self).upgrade {
                Some(true)
            } else {
                None::<bool>
            }),
    {
        let data_len = data.len();

        let mut chunk_data = ImageChunk {
            data: vstd::slice::slice_to_vec(data),
            off: self.offset,
            image: None,
            len: None,
            sha: None,
            upgrade: None,
        };

        if self.offset == 0 {
            chunk_data.len = Some(self.len);

            if let Some(image) = &self.image {
                chunk_data.image = Some(*image);
            }

            if let Some(hash) = &self.hash {
                let h = hash.clone();
                proof {
                    assert(h@ =~= hash@);
                }
                chunk_data.sha = Some(h);
            }

            if self.upgrade {
                chunk_data.upgrade = Some(true);
            }
        }

        self.offset = self.offset + data_len;

        self.sequence = if self.sequence == 255 {
            0
        } else {
            self.sequence + 1
        };

        SMPFrame::new(
            OpCode::WriteRequest,
            self.sequence,
            Group::ApplicationManagement,
            ApplicationManagementCommand::Upload.as_u8(),
            chunk_data,
        )
    }
}

/// The device's acknowledgment of one uploaded chunk: the authoritative
/// offset from which the next chunk must start.
#[derive(Debug)]
pub struct WriteImageChunkPayload {
    pub off: u32,
}

/// A chunk the device rejected; terminal for the upload.
#[derive(Debug)]
pub struct WriteImageChunkError {
    pub rc: i32,
}

/// The result of one uploaded chunk.
#[derive(Debug)]
pub enum WriteImageChunkResult {
    Success(WriteImageChunkPayload),
    Failure(WriteImageChunkError),
}

} // verus!
