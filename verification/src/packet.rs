use vstd::prelude::*;

verus! {

/// The fixed-capacity vector of `heapless`.
#[verifier::external_type_specification]
#[verifier::external_body]
#[verifier::reject_recursive_types(T)]
pub struct ExHeaplessVec<T, const N: usize>(heapless::Vec<T, N>);

/// Number of DAC samples that one packet holds.
pub const PACKET_SAMPLES: usize = 8000;

/// The samples that a packet buffer holds, in order.
pub uninterp spec fn buffer_samples(buffer: heapless::Vec<u8, 8000>) -> Seq<u8>;

/// Calls `heapless::Vec::new`: the buffer is empty.
#[verifier::external_body]
pub fn new_buffer() -> (buffer: heapless::Vec<u8, PACKET_SAMPLES>)
    ensures
        buffer_samples(buffer) == Seq::<u8>::empty(),
{
    heapless::Vec::new()
}

/// Calls `heapless::Vec::push`: below capacity the sample is appended and
/// `Ok` comes back; at capacity the buffer is unchanged and the sample comes
/// back in `Err`. A buffer never holds more than its capacity.
#[verifier::external_body]
pub fn buffer_push(buffer: &mut heapless::Vec<u8, PACKET_SAMPLES>, sample: u8) -> (result: Result<(), u8>)
    ensures
        buffer_samples(*final(buffer)).len() <= PACKET_SAMPLES,
        buffer_samples(*old(buffer)).len() < PACKET_SAMPLES ==> {
            &&& result is Ok
            &&& buffer_samples(*final(buffer)) == buffer_samples(*old(buffer)).push(sample)
        },
        buffer_samples(*old(buffer)).len() >= PACKET_SAMPLES ==> {
            &&& result == Err::<(), u8>(sample)
            &&& buffer_samples(*final(buffer)) == buffer_samples(*old(buffer))
        },
{
    buffer.push(sample)
}

/// Calls `heapless::Vec::len`, which never exceeds the capacity.
#[verifier::external_body]
pub fn buffer_len(buffer: &heapless::Vec<u8, PACKET_SAMPLES>) -> (len: usize)
    ensures
        len == buffer_samples(*buffer).len(),
        len <= PACKET_SAMPLES,
{
    buffer.len()
}

/// Calls `heapless::Vec::is_full`: whether the length equals the capacity.
#[verifier::external_body]
pub fn buffer_is_full(buffer: &heapless::Vec<u8, PACKET_SAMPLES>) -> (full: bool)
    ensures
        full == (buffer_samples(*buffer).len() == PACKET_SAMPLES),
{
    buffer.is_full()
}

/// Calls `heapless::Vec::clear`: the buffer becomes empty.
#[verifier::external_body]
pub fn buffer_clear(buffer: &mut heapless::Vec<u8, PACKET_SAMPLES>)
    ensures
        buffer_samples(*final(buffer)) == Seq::<u8>::empty(),
{
    buffer.clear()
}

/// Calls `heapless::Vec::as_slice`: the samples, in order.
#[verifier::external_body]
pub fn buffer_as_slice(buffer: &heapless::Vec<u8, PACKET_SAMPLES>) -> (samples: &[u8])
    ensures
        samples@ == buffer_samples(*buffer),
{
    buffer.as_slice()
}

} // verus!
