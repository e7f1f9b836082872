//! Fixed-capacity byte frames, held in `heapless::Vec<u8, 32>`.
use vstd::prelude::*;

verus! {

/// Capacity of a frame: the size of the UART service's characteristic value.
pub const FRAME_CAPACITY: usize = 32;

#[verifier::external_type_specification]
#[verifier::external_body]
#[verifier::reject_recursive_types(T)]
pub struct ExHeaplessVec<T, const N: usize>(heapless::Vec<T, N>);

/// The bytes that a frame holds, in order.
pub uninterp spec fn frame_bytes(frame: heapless::Vec<u8, FRAME_CAPACITY>) -> Seq<u8>;

/// Calls `heapless::Vec::new`: the result holds no byte.
#[verifier::external_body]
pub(crate) fn frame_new() -> (r: heapless::Vec<u8, FRAME_CAPACITY>)
    ensures
        frame_bytes(r) == Seq::<u8>::empty(),
{
    heapless::Vec::new()
}

/// Calls `heapless::Vec::push`: below capacity the byte is appended and `Ok`
/// comes back; at capacity nothing changes and the byte comes back in `Err`.
#[verifier::external_body]
pub(crate) fn frame_push(frame: &mut heapless::Vec<u8, FRAME_CAPACITY>, byte: u8) -> (r: Result<(), u8>)
    ensures
        r is Ok <==> frame_bytes(*old(frame)).len() < FRAME_CAPACITY,
        r matches Err(returned) ==> returned == byte,
        frame_bytes(*final(frame)) == if frame_bytes(*old(frame)).len() < FRAME_CAPACITY {
            frame_bytes(*old(frame)).push(byte)
        } else {
            frame_bytes(*old(frame))
        },
{
    frame.push(byte)
}

/// Calls `heapless::Vec::is_full`: whether the frame holds as many bytes as
/// its capacity.
#[verifier::external_body]
pub(crate) fn frame_is_full(frame: &heapless::Vec<u8, FRAME_CAPACITY>) -> (r: bool)
    ensures
        r == (frame_bytes(*frame).len() == FRAME_CAPACITY),
{
    frame.is_full()
}

/// Calls `len` on the frame's slice (`heapless::Vec` dereferences to the
/// slice of the bytes it holds): how many bytes the frame holds.
#[verifier::external_body]
pub(crate) fn frame_len(frame: &heapless::Vec<u8, FRAME_CAPACITY>) -> (r: usize)
    ensures
        r == frame_bytes(*frame).len(),
{
    frame.len()
}

/// Calls `heapless::Vec::clone`: the copy holds the same bytes.
#[verifier::external_body]
pub(crate) fn frame_clone(frame: &heapless::Vec<u8, FRAME_CAPACITY>) -> (r: heapless::Vec<u8, FRAME_CAPACITY>)
    ensures
        frame_bytes(r) == frame_bytes(*frame),
{
    frame.clone()
}

/// Calls `heapless::Vec::clear`: afterwards the frame holds no byte.
#[verifier::external_body]
pub(crate) fn frame_clear(frame: &mut heapless::Vec<u8, FRAME_CAPACITY>)
    ensures
        frame_bytes(*final(frame)) == Seq::<u8>::empty(),
{
    frame.clear()
}

} // verus!
