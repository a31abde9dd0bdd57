//! What a control connection starts with: the preface is read before the
//! connection is handed on, and handed on with it.
use crate::credential_codec::copy_bytes;
use crate::text::{concat, same_bytes};
use vstd::prelude::*;

verus! {

/// The bytes that every HTTP/2 connection starts with.
pub open spec fn http2_preface() -> Seq<u8> {
    vstd::utf8::encode_utf8("PRI * HTTP/2.0\r\n\r\nSM\r\n\r\n"@)
}

/// What becomes of a peer that connects.
#[derive(Clone, Copy, Debug, PartialEq, Eq, Structural)]
pub enum Admission {
    /// The peer is someone else.
    Reject,
    /// There is no room for another connection.
    Drop,
    /// The preface is read next.
    Prepare,
}

/// What becomes of a peer that connects: only the daemon's own user is let in,
/// and only as long as there is room.
pub fn meet_peer(verified: bool, room: bool) -> (admission: Admission)
    ensures
        admission == (if !verified {
            Admission::Reject
        } else if !room {
            Admission::Drop
        } else {
            Admission::Prepare
        }),
{
    if !verified {
        Admission::Reject
    } else if !room {
        Admission::Drop
    } else {
        Admission::Prepare
    }
}

/// What the loop that takes connections in was told.
#[derive(Clone, Copy, Debug, PartialEq, Eq, Structural)]
pub enum AcceptEvent {
    /// The shutdown signal changed.
    Shutdown,
    /// A connection is prepared, or failed to be.
    Prepared,
    /// A peer connected; it is the daemon's own user or not, and there is room
    /// for it or not.
    Connected { verified: bool, room: bool },
    /// The socket can no longer be listened on.
    ListenerFailed,
}

/// What the loop that takes connections in does next.
#[derive(Clone, Copy, Debug, PartialEq, Eq, Structural)]
pub enum AcceptStep {
    Wait,
    Meet(Admission),
    /// Take in no more, and drop what is still being prepared.
    Stop,
}

/// What the loop that takes connections in does next.
pub fn accept_step(event: AcceptEvent) -> (step: AcceptStep)
    ensures
        step == (match event {
            AcceptEvent::Shutdown | AcceptEvent::ListenerFailed => AcceptStep::Stop,
            AcceptEvent::Prepared => AcceptStep::Wait,
            AcceptEvent::Connected { verified, room } => AcceptStep::Meet(
                if !verified {
                    Admission::Reject
                } else if !room {
                    Admission::Drop
                } else {
                    Admission::Prepare
                },
            ),
        }),
{
    match event {
        AcceptEvent::Shutdown | AcceptEvent::ListenerFailed => AcceptStep::Stop,
        AcceptEvent::Prepared => AcceptStep::Wait,
        AcceptEvent::Connected { verified, room } => AcceptStep::Meet(meet_peer(verified, room)),
    }
}

/// What serving control ends with: the failure of the server counts before that
/// of the listener.
pub fn serving_ended(server: Result<(), String>, listener: Option<String>) -> (ended: Result<
    (),
    String,
>)
    ensures
        match (server, listener) {
            (Err(error), _) => ended matches Err(text) && text@ == "serve control socket: "@
                + error@,
            (Ok(_), Some(error)) => ended matches Err(text) && text@
                == "control listener exited: "@ + error@,
            (Ok(_), None) => ended is Ok,
        },
{
    match server {
        Err(error) => Err(concat("serve control socket: ", error.as_str())),
        Ok(_) => match listener {
            Some(error) => Err(concat("control listener exited: ", error.as_str())),
            None => Ok(()),
        },
    }
}

/// How the reading of a preface ended.
#[derive(Debug)]
pub enum PrefaceRead {
    TimedOut,
    Failed(String),
    Bytes([u8; 24]),
}

/// A connection whose preface has been read, and is still to be read by whom
/// the connection is handed to.
#[derive(Debug)]
pub struct ControlConnection {
    pub preface: Vec<u8>,
    pub offset: usize,
}

impl ControlConnection {
    pub open spec fn wf(self) -> bool {
        self.offset <= self.preface@.len()
    }

    /// What is still to be read before the stream.
    pub open spec fn ahead(self) -> Seq<u8> {
        self.preface@.skip(self.offset as int)
    }

    /// Takes a connection whose preface is that of HTTP/2.
    pub fn prepare(read: PrefaceRead) -> (connection: Result<Self, String>)
        ensures
            match (connection, read) {
                (Ok(connection), PrefaceRead::Bytes(bytes)) => connection.wf() && bytes@
                    == http2_preface() && connection.ahead() == http2_preface(),
                (Err(error), PrefaceRead::TimedOut) => error@ == "control HTTP/2 preface timed out"@,
                (Err(error), PrefaceRead::Failed(failure)) => error@ == failure@,
                (Err(error), PrefaceRead::Bytes(bytes)) => bytes@ != http2_preface() && error@
                    == "control HTTP/2 preface was invalid"@,
                _ => false,
            },
    {
        match read {
            PrefaceRead::TimedOut => Err("control HTTP/2 preface timed out".to_owned()),
            PrefaceRead::Failed(failure) => Err(failure),
            PrefaceRead::Bytes(bytes) => {
                if same_bytes(
                    bytes.as_slice(),
                    "PRI * HTTP/2.0\r\n\r\nSM\r\n\r\n".as_bytes(),
                ) {
                    let preface = copy_bytes(bytes.as_slice());
                    assert(preface@.skip(0) =~= preface@);
                    Ok(ControlConnection { preface, offset: 0 })
                } else {
                    Err("control HTTP/2 preface was invalid".to_owned())
                }
            },
        }
    }

    /// What is read next before the stream, into a buffer with so much room;
    /// none once the stream itself is read.
    pub fn replay(&mut self, room: usize) -> (bytes: Option<Vec<u8>>)
        requires
            old(self).wf(),
        ensures
            final(self).wf(),
            match bytes {
                None => old(self).ahead().len() == 0 && *final(self) == *old(self),
                Some(bytes) => old(self).ahead().len() > 0 && bytes@ == old(self).ahead().take(
                    if room < old(self).ahead().len() {
                        room as int
                    } else {
                        old(self).ahead().len() as int
                    },
                ) && final(self).ahead() == old(self).ahead().skip(bytes@.len() as int),
            },
    {
        let ghost ahead = self.ahead();
        let left: usize = self.preface.len() - self.offset;
        if left == 0 {
            return None;
        }
        let count: usize = if room < left {
            room
        } else {
            left
        };
        let mut bytes: Vec<u8> = Vec::new();
        let mut i: usize = 0;
        assert(ahead.take(0) =~= Seq::empty());
        while i < count
            invariant
                i <= count <= left,
                left == self.preface.len() - self.offset,
                self.offset <= self.preface@.len(),
                ahead == self.preface@.skip(self.offset as int),
                bytes@ == ahead.take(i as int),
            decreases count - i,
        {
            bytes.push(self.preface[self.offset + i]);
            assert(bytes@ =~= ahead.take(i + 1));
            i = i + 1;
        }
        self.offset = self.offset + count;
        assert(self.ahead() =~= ahead.skip(count as int));
        Some(bytes)
    }
}

} // verus!
