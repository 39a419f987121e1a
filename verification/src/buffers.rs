//! The fixed-capacity vectors in which messages and CSI samples are held.
//!
//! Both are `heapless::Vec`, a vector that never grows past the capacity in its type.

use heapless::Vec;
use vstd::prelude::*;

verus! {

/// The most bytes a raw CSI message can have on reception.
pub const MESSAGE_CAPACITY: usize = 625;

/// The most CSI samples a packet can have.
pub const SAMPLE_CAPACITY: usize = 612;

/// A CSI message as it travels over UDP.
pub type RawMessage = Vec<u8, 625>;

/// The CSI samples of one packet.
pub type Samples = Vec<i8, 612>;

/// `heapless::Vec`, of which nothing is known but what the functions below state.
#[verifier::external_type_specification]
#[verifier::external_body]
#[verifier::reject_recursive_types(T)]
pub struct ExVec<T, const N: usize>(heapless::Vec<T, N>);

/// The bytes that a raw message holds, first to last.
pub uninterp spec fn message_bytes(message: Vec<u8, 625>) -> Seq<u8>;

/// The samples that a packet's buffer holds, first to last.
pub uninterp spec fn sample_values(samples: Vec<i8, 612>) -> Seq<i8>;

/// `heapless::Vec::from_slice`: the vector with the items of the slice, or an error if
/// they are more than the capacity.
#[verifier::external_body]
pub(crate) fn message_from_slice(bytes: &[u8]) -> (result: Result<Vec<u8, 625>, ()>)
    ensures
        result is Ok <==> bytes@.len() <= MESSAGE_CAPACITY,
        result matches Ok(message) ==> message_bytes(message) == bytes@,
{
    Vec::from_slice(bytes)
}

/// `heapless::Vec::clear`: removes every item.
#[verifier::external_body]
pub(crate) fn message_clear(message: &mut Vec<u8, 625>)
    ensures
        message_bytes(*final(message)) == Seq::<u8>::empty(),
{
    message.clear()
}

/// `heapless::Vec::push`: appends the item, or hands it back and changes nothing if the
/// vector is at its capacity.
#[verifier::external_body]
pub(crate) fn message_push(message: &mut Vec<u8, 625>, byte: u8) -> (result: Result<(), u8>)
    ensures
        result == (if message_bytes(*old(message)).len() < MESSAGE_CAPACITY {
            Ok::<(), u8>(())
        } else {
            Err::<(), u8>(byte)
        }),
        message_bytes(*final(message)) == (if result is Ok {
            message_bytes(*old(message)).push(byte)
        } else {
            message_bytes(*old(message))
        }),
{
    message.push(byte)
}

/// `heapless::Vec::extend_from_slice`: appends the items of the slice in order, or
/// changes nothing and reports an error if they do not all fit.
#[verifier::external_body]
pub(crate) fn message_extend(message: &mut Vec<u8, 625>, bytes: &[u8]) -> (result: Result<(), ()>)
    ensures
        result is Ok <==> message_bytes(*old(message)).len() + bytes@.len() <= MESSAGE_CAPACITY,
        message_bytes(*final(message)) == (if result is Ok {
            message_bytes(*old(message)) + bytes@
        } else {
            message_bytes(*old(message))
        }),
{
    message.extend_from_slice(bytes)
}

/// `heapless::Vec::as_slice` on a message: every item, in order. There are never more
/// than the capacity.
#[verifier::external_body]
pub(crate) fn message_as_slice(message: &Vec<u8, 625>) -> (bytes: &[u8])
    ensures
        bytes@ == message_bytes(*message),
        bytes@.len() <= MESSAGE_CAPACITY,
{
    message.as_slice()
}

/// `heapless::Vec::new` for samples: no items.
#[verifier::external_body]
pub(crate) fn samples_new() -> (samples: Vec<i8, 612>)
    ensures
        sample_values(samples) == Seq::<i8>::empty(),
{
    Vec::new()
}

/// `heapless::Vec::push` on samples: appends the item, or hands it back and changes
/// nothing if the vector is at its capacity.
#[verifier::external_body]
pub(crate) fn samples_push(samples: &mut Vec<i8, 612>, value: i8) -> (result: Result<(), i8>)
    ensures
        result == (if sample_values(*old(samples)).len() < SAMPLE_CAPACITY {
            Ok::<(), i8>(())
        } else {
            Err::<(), i8>(value)
        }),
        sample_values(*final(samples)) == (if result is Ok {
            sample_values(*old(samples)).push(value)
        } else {
            sample_values(*old(samples))
        }),
{
    samples.push(value)
}

/// `heapless::Vec::as_slice` on samples: every item, in order. There are never more
/// than the capacity.
#[verifier::external_body]
pub(crate) fn samples_as_slice(samples: &Vec<i8, 612>) -> (values: &[i8])
    ensures
        values@ == sample_values(*samples),
        values@.len() <= SAMPLE_CAPACITY,
{
    samples.as_slice()
}

/// The `Clone` of `heapless::Vec` on samples: the same items in the same order.
#[verifier::external_body]
pub(crate) fn samples_clone(samples: &Vec<i8, 612>) -> (copy: Vec<i8, 612>)
    ensures
        sample_values(copy) == sample_values(*samples),
{
    samples.clone()
}

} // verus!
