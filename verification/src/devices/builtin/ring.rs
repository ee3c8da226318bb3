//! The ring buffer between the thread that submits frames and the
//! playback callback. The buffer itself is the `rb` crate's; this module
//! states what the library relies on.
//!
//! The two ends of a ring buffer live on different threads, so nothing
//! here says what a buffer holds at a given moment: each contract states
//! what is true of a call whatever the other end does meanwhile.

use rb::{Consumer, Producer, RbConsumer, RbError, RbProducer, SpscRb, RB};
use vstd::layout::size_of;
use vstd::prelude::*;

verus! {

/// `rb::SpscRb`: a ring buffer for one producer and one consumer.
#[verifier::external_type_specification]
#[verifier::external_body]
#[verifier::reject_recursive_types(T)]
pub struct ExSpscRb<T>(SpscRb<T>);

/// `rb::Producer`: the writing end of a ring buffer.
#[verifier::external_type_specification]
#[verifier::external_body]
#[verifier::reject_recursive_types(T)]
pub struct ExProducer<T>(Producer<T>);

/// `rb::Consumer`: the reading end of a ring buffer.
#[verifier::external_type_specification]
#[verifier::external_body]
#[verifier::reject_recursive_types(T)]
pub struct ExConsumer<T>(Consumer<T>);

/// `rb::RbError`: why a ring buffer did not do what it was asked.
#[verifier::external_type_specification]
#[verifier::external_body]
pub struct ExRbError(RbError);

/// Whether a ring buffer for `capacity` samples of type `T` can be laid
/// out in memory: it keeps one slot more than it can hold, and no
/// allocation is larger than `isize::MAX` bytes.
pub open spec fn ring_fits<T>(capacity: int) -> bool {
    &&& 0 <= capacity < usize::MAX
    &&& (capacity + 1) * size_of::<T>() <= isize::MAX
}

/// `SpscRb::new`: allocates an empty ring buffer that holds up to
/// `capacity` samples. Nothing is claimed of the buffer; the limit on
/// `capacity` keeps the allocation of `capacity + 1` slots from
/// overflowing.
#[verifier::external_body]
pub(crate) fn ring_with_capacity<T: Copy + Default>(capacity: usize) -> (ring: SpscRb<T>)
    requires
        ring_fits::<T>(capacity as int),
{
    SpscRb::new(capacity)
}

/// `RB::producer`: the writing end of `ring`.
#[verifier::external_body]
pub(crate) fn producer_of<T: Copy + Default>(ring: &SpscRb<T>) -> (producer: Producer<T>) {
    ring.producer()
}

/// `RB::consumer`: the reading end of `ring`.
#[verifier::external_body]
pub(crate) fn consumer_of<T: Copy + Default>(ring: &SpscRb<T>) -> (consumer: Consumer<T>) {
    ring.consumer()
}

/// `RbProducer::write_blocking`: waits while the buffer is full, then
/// stores a prefix of `data` and returns its length. It returns `None` for
/// empty `data` and for nothing else. The length may be zero: the wait can
/// end while the buffer is still full.
#[verifier::external_body]
pub(crate) fn write_blocking<T: Copy>(producer: &Producer<T>, data: &[T]) -> (written: Option<
    usize,
>)
    ensures
        written is None <==> data@.len() == 0,
        written matches Some(count) ==> count <= data@.len(),
{
    producer.write_blocking(data)
}

/// `RbConsumer::read`: moves buffered samples to the front of `data`
/// without waiting and returns how many. It returns an error, and leaves
/// `data` as it was, when `data` has room and the buffer is empty. What
/// lies behind the samples read is left as it was.
#[verifier::external_body]
pub(crate) fn read<T: Copy>(consumer: &Consumer<T>, data: &mut [T]) -> (read: Result<
    usize,
    RbError,
>)
    ensures
        final(data)@.len() == old(data)@.len(),
        read matches Ok(count) ==> count <= old(data)@.len() && final(data)@.skip(count as int)
            == old(data)@.skip(count as int),
        read is Err ==> final(data)@ == old(data)@,
{
    consumer.read(data)
}

} // verus!
