//! The UART echo: bytes received on one side are handed to the writer through a pipe.
use vstd::prelude::*;

verus! {

/// Size of the receive and transmit buffers, and the receive FIFO's full threshold.
pub const READ_BUF_SIZE: usize = 64;

/// The AT command character the receiver listens for: carriage return.
pub const AT_CMD: u8 = 0x0D;

/// The bytes a completed read hands on to the writer: the first `len` bytes of the
/// receive buffer. A length beyond the buffer is left out.
pub fn received_chunk(buf: &[u8], len: usize) -> (chunk: &[u8])
    requires
        len <= buf@.len(),
    ensures
        chunk@ == buf@.subrange(0, len as int),
{
    &buf[0..len]
}

} // verus!
