//! The upload of one provider artifact: a start with the declared length, then
//! chunks that add up to it.
use crate::control::{grpc_invalid, ControlError};
use vstd::prelude::*;

verus! {

/// One item of an upload stream.
#[derive(Debug)]
pub enum UploadItem {
    Start { file_name: String, digest: Vec<u8>, total_length: u64 },
    Chunk(Vec<u8>),
    Empty,
}

/// An upload that has started.
#[derive(Clone, Copy, Debug, PartialEq, Eq, Structural)]
pub struct ProviderUpload {
    pub total_length: u64,
    pub received: u64,
}

/// What an upload starts with.
#[derive(Debug)]
pub struct UploadStart {
    pub file_name: String,
    pub digest: [u8; 32],
    pub upload: ProviderUpload,
}

/// Why an upload cannot start with an item, if it cannot.
pub open spec fn start_failure(first: Option<UploadItem>) -> Option<Seq<char>> {
    match first {
        None => Some("provider upload is missing start"@),
        Some(UploadItem::Chunk(_)) => Some("provider upload chunk arrived before start"@),
        Some(UploadItem::Empty) => Some("provider upload item is empty"@),
        Some(UploadItem::Start { digest, .. }) => if digest@.len() == 32 {
            None
        } else {
            Some("invalid "@ + "provider digest"@ + " length"@)
        },
    }
}

/// Why an upload does not go on with an item, if it does not.
pub open spec fn item_failure(upload: ProviderUpload, item: UploadItem) -> Option<Seq<char>> {
    match item {
        UploadItem::Start { .. } => Some("provider upload contains duplicate start"@),
        UploadItem::Empty => Some("provider upload item is empty"@),
        UploadItem::Chunk(chunk) => if chunk@.len() == 0 {
            Some("provider upload chunk is empty"@)
        } else if upload.received + chunk@.len() > u64::MAX {
            Some("provider upload length overflow"@)
        } else if upload.received + chunk@.len() > upload.total_length {
            Some("provider upload exceeds declared length"@)
        } else {
            None
        },
    }
}

impl ProviderUpload {
    /// Starts an upload with the first item of its stream.
    pub fn begin(first: Option<UploadItem>) -> (start: Result<UploadStart, ControlError>)
        ensures
            match start {
                Ok(start) => start_failure(first) is None && (first matches Some(
                    UploadItem::Start { file_name, digest, total_length },
                ) && start.file_name == file_name && start.digest@ == digest@ && start.upload
                    == (ProviderUpload { total_length, received: 0 })),
                Err(error) => start_failure(first) matches Some(message) && error@
                    == crate::control::invalid(message),
            },
    {
        match first {
            None => Err(grpc_invalid("provider upload is missing start")),
            Some(UploadItem::Chunk(_)) => Err(
                grpc_invalid("provider upload chunk arrived before start"),
            ),
            Some(UploadItem::Empty) => Err(grpc_invalid("provider upload item is empty")),
            Some(UploadItem::Start { file_name, digest, total_length }) => {
                match crate::control::exact_bytes::<32>(digest.as_slice(), "provider digest") {
                    Ok(digest) => Ok(
                        UploadStart {
                            file_name,
                            digest,
                            upload: ProviderUpload { total_length, received: 0 },
                        },
                    ),
                    Err(error) => Err(error),
                }
            },
        }
    }

    /// Goes on with the next item: the chunk to write. A chunk is counted before
    /// it is written, and one too many is never written.
    pub fn go_on(&mut self, item: UploadItem) -> (chunk: Result<Vec<u8>, ControlError>)
        ensures
            match chunk {
                Ok(chunk) => item_failure(*old(self), item) is None && item == UploadItem::Chunk(
                    chunk,
                ) && final(self).total_length == old(self).total_length && final(self).received
                    == old(self).received + chunk@.len(),
                Err(error) => item_failure(*old(self), item) matches Some(message) && error@
                    == crate::control::invalid(message) && *final(self) == *old(self),
            },
    {
        match item {
            UploadItem::Start { .. } => Err(
                grpc_invalid("provider upload contains duplicate start"),
            ),
            UploadItem::Empty => Err(grpc_invalid("provider upload item is empty")),
            UploadItem::Chunk(chunk) => {
                let length: usize = chunk.len();
                if length == 0 {
                    return Err(grpc_invalid("provider upload chunk is empty"));
                }
                match self.received.checked_add(length as u64) {
                    None => Err(grpc_invalid("provider upload length overflow")),
                    Some(received) => {
                        if received > self.total_length {
                            return Err(grpc_invalid("provider upload exceeds declared length"));
                        }
                        self.received = received;
                        Ok(chunk)
                    },
                }
            },
        }
    }

    /// Ends an upload: everything that was declared has to have come.
    pub fn finish(&self) -> (finished: Result<(), ControlError>)
        ensures
            match finished {
                Ok(()) => self.received == self.total_length,
                Err(error) => self.received != self.total_length && error@
                    == crate::control::invalid("provider upload is shorter than declared length"@),
            },
    {
        if self.received != self.total_length {
            Err(grpc_invalid("provider upload is shorter than declared length"))
        } else {
            Ok(())
        }
    }
}

} // verus!
