//! The reader's buffer, `tokio::io::ReadBuf`, as far as the engine uses it.
//!
//! The buffer is tokio's; its contents are named here, and the two calls the
//! engine makes are given contracts over those names, taken on trust.
use tokio::io::ReadBuf;
use vstd::prelude::*;

verus! {

/// `tokio::io::ReadBuf`, opaque.
#[verifier::external_type_specification]
#[verifier::external_body]
pub struct ExReadBuf<'a>(tokio::io::ReadBuf<'a>);

/// The bytes of the filled region of `buf`, first to last: what
/// `ReadBuf::filled` returns.
pub uninterp spec fn filled(buf: ReadBuf<'_>) -> Seq<u8>;

/// The total number of bytes `buf` can hold, filled or not: what
/// `ReadBuf::capacity` returns.
pub uninterp spec fn capacity(buf: ReadBuf<'_>) -> nat;

/// The room left in `buf` after its filled region.
pub open spec fn room(buf: ReadBuf<'_>) -> int {
    capacity(buf) - filled(buf).len()
}

/// `ReadBuf::remaining`: the capacity less the length of the filled region,
/// which never exceeds the capacity.
#[verifier::external_body]
pub(crate) fn remaining(buf: &ReadBuf<'_>) -> (n: usize)
    ensures
        n == room(*buf),
{
    buf.remaining()
}

/// `ReadBuf::put_slice`: appends `bytes` to the filled region and leaves the
/// capacity as it was. It panics when the bytes do not fit, so that case is
/// ruled out.
#[verifier::external_body]
pub(crate) fn put_slice(buf: &mut ReadBuf<'_>, bytes: &[u8])
    requires
        bytes@.len() <= room(*old(buf)),
    ensures
        filled(*final(buf)) == filled(*old(buf)) + bytes@,
        capacity(*final(buf)) == capacity(*old(buf)),
{
    buf.put_slice(bytes)
}

} // verus!
