//! The decisions of the self-pipe pattern: how a signal handler writes to the pipe, when a write
//! is torn, and how a structure's bytes are framed into one message.

use vstd::prelude::*;

verus! {

/// How the signal handler writes to the pipe.
#[derive(Copy, Clone, Debug, PartialEq, Eq, Structural)]
pub enum WakeMethod {
    /// `send` with `MSG_DONTWAIT` (the descriptor is a socket).
    Send,
    /// `write`, with the descriptor switched to non-blocking mode.
    Write,
}

/// Picks the wake method from the probe: sending zero bytes with `MSG_DONTWAIT`, which returned
/// `send_result`, with `would_block` telling whether the error was `EWOULDBLOCK`.
///
/// A socket accepts the probe (or is merely full); anything else is written to.
pub fn wake_method_for(send_result: isize, would_block: bool) -> (r: WakeMethod)
    ensures
        r == (if send_result == 0 || (send_result == -1 && would_block) {
            WakeMethod::Send
        } else {
            WakeMethod::Write
        }),
{
    if send_result == 0 || (send_result == -1 && would_block) {
        WakeMethod::Send
    } else {
        WakeMethod::Write
    }
}

/// Whether a write of `amount` bytes that returned `written` was torn: part of a message of
/// more than one byte got in. A failed write (`-1`) or nothing written is not torn (the reader
/// still gets woken by what is already in the pipe).
pub fn write_is_torn(written: isize, amount: usize) -> (r: bool)
    ensures
        r == (written > 0 && written != amount && amount > 1),
{
    written > 0 && (written as usize) != amount && amount > 1
}

/// The maximum number of bytes (maximum struct size) a structure message can carry.
pub const STRUCT_SIZE_MAX: usize = 63;

/// Frames a structure message in place: the payload already sits after the first byte, and
/// `size` is its length. Writes the size into the first byte and returns the length of the whole
/// message (size byte and payload).
pub fn frame_struct(message: &mut [u8; 64], size: u8) -> (r: usize)
    requires
        size <= STRUCT_SIZE_MAX,
    ensures
        r == size + 1,
        final(message)@ == old(message)@.update(0, size),
{
    message[0] = size;
    (size as usize) + 1
}

} // verus!
