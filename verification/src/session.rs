//! What a connection does after each read and write of its socket, and how
//! the listener tunes the sockets that it accepts.

use vstd::prelude::*;
use crate::config::Protocol;
use crate::{INITIAL_BUFFER_SIZE, MB};

verus! {

/// The size of the send and of the receive buffer of an accepted socket.
pub const SOCKET_BUFFER_BYTES: usize = 4 * MB;

/// What a read or a write of the socket returned.
#[derive(Clone, Copy, Debug, PartialEq, Eq, Structural)]
pub enum Transfer {
    /// This many bytes went through.
    Bytes(usize),
    /// The call failed.
    Failed,
}

/// What the connection does after a read.
#[derive(Clone, Copy, Debug, PartialEq, Eq, Structural)]
pub enum ReadStep {
    /// Nothing came: the client hung up.
    Hangup,
    /// Bytes came; the buffer is to grow where `grow` says so.
    Progress { bytes: usize, grow: bool },
    /// The socket failed.
    Failed,
}

/// What the connection does after a write.
#[derive(Clone, Copy, Debug, PartialEq, Eq, Structural)]
pub enum WriteStep {
    /// Nothing went: the client hung up.
    Hangup,
    /// This many bytes left the buffer.
    Progress { bytes: usize },
    /// The socket failed.
    Failed,
}

/// Whether a read buffer with `spare` free bytes is to grow: it is once
/// less than half of the initial size is free.
pub open spec fn low_on_space(spare: usize) -> bool {
    spare * 2 < INITIAL_BUFFER_SIZE
}

/// What the connection does after a read into a buffer that had `spare`
/// free bytes: a read of no bytes is a hangup, a read of some bytes moves
/// that many into the buffer, which then grows where it is low on space.
pub open spec fn read_step_of(read: Transfer, spare: usize) -> ReadStep {
    match read {
        Transfer::Bytes(n) => if n == 0 {
            ReadStep::Hangup
        } else if n > spare {
            ReadStep::Failed
        } else {
            ReadStep::Progress { bytes: n, grow: low_on_space((spare - n) as usize) }
        },
        Transfer::Failed => ReadStep::Failed,
    }
}

/// What the connection does after a read into a buffer that had `spare`
/// free bytes.
pub fn read_step(read: Transfer, spare: usize) -> (step: ReadStep)
    ensures
        step == read_step_of(read, spare),
{
    match read {
        Transfer::Bytes(n) => {
            if n == 0 {
                ReadStep::Hangup
            } else if n > spare {
                ReadStep::Failed
            } else {
                ReadStep::Progress { bytes: n, grow: spare - n < INITIAL_BUFFER_SIZE / 2 }
            }
        },
        Transfer::Failed => ReadStep::Failed,
    }
}

/// What the connection does after a write from a buffer that held
/// `pending` bytes: a write of no bytes is a hangup, a write of some bytes
/// takes that many from the buffer.
pub open spec fn write_step_of(written: Transfer, pending: usize) -> WriteStep {
    match written {
        Transfer::Bytes(n) => if n == 0 {
            WriteStep::Hangup
        } else if n > pending {
            WriteStep::Failed
        } else {
            WriteStep::Progress { bytes: n }
        },
        Transfer::Failed => WriteStep::Failed,
    }
}

/// What the connection does after a write from a buffer that held
/// `pending` bytes.
pub fn write_step(written: Transfer, pending: usize) -> (step: WriteStep)
    ensures
        step == write_step_of(written, pending),
{
    match written {
        Transfer::Bytes(n) => {
            if n == 0 {
                WriteStep::Hangup
            } else if n > pending {
                WriteStep::Failed
            } else {
                WriteStep::Progress { bytes: n }
            }
        },
        Transfer::Failed => WriteStep::Failed,
    }
}

/// Whether the listener in front of an exchangeable backend serves
/// `protocol`: it serves memcache only.
pub fn backend_listener_serves(protocol: Protocol) -> (yes: bool)
    ensures
        yes == (protocol == Protocol::Memcache),
{
    match protocol {
        Protocol::Memcache => true,
        Protocol::Resp => false,
    }
}

} // verus!
