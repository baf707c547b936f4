//! The caller's read buffer, `tokio::io::ReadBuf`, as the verified code sees it:
//! a byte sequence that has been filled so far and a fixed capacity.
use vstd::prelude::*;

verus! {

#[verifier::external_type_specification]
#[verifier::external_body]
pub struct ExReadBuf<'a>(tokio::io::ReadBuf<'a>);

/// The bytes in the filled region of a `tokio::io::ReadBuf` (what `ReadBuf::filled` returns).
pub uninterp spec fn read_buf_filled(buf: tokio::io::ReadBuf) -> Seq<u8>;

/// The capacity that a `tokio::io::ReadBuf` was made with (what `ReadBuf::capacity` returns).
pub uninterp spec fn read_buf_capacity(buf: tokio::io::ReadBuf) -> nat;

/// The room left in `buf`: its capacity less the bytes filled so far.
pub open spec fn read_buf_room(buf: tokio::io::ReadBuf) -> int {
    read_buf_capacity(buf) - read_buf_filled(buf).len()
}

/// Calls `tokio::io::ReadBuf::remaining`, which tokio computes as the capacity
/// less the length of the filled region; the filled region never exceeds the capacity.
#[verifier::external_body]
pub(crate) fn read_buf_remaining(buf: &tokio::io::ReadBuf) -> (n: usize)
    ensures
        n == read_buf_room(*buf),
{
    buf.remaining()
}

/// Calls `tokio::io::ReadBuf::put_slice`: it appends `data` to the filled region and
/// leaves the capacity as it was. It panics when `data` is longer than the room left,
/// which `requires` leaves out.
#[verifier::external_body]
pub(crate) fn read_buf_put_slice(buf: &mut tokio::io::ReadBuf, data: &[u8])
    requires
        data@.len() <= read_buf_room(*old(buf)),
    ensures
        read_buf_filled(*final(buf)) == read_buf_filled(*old(buf)) + data@,
        read_buf_capacity(*final(buf)) == read_buf_capacity(*old(buf)),
{
    buf.put_slice(data)
}

} // verus!
