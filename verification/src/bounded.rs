//! The fixed-capacity vectors of the `heapless` crate that the packet format,
//! the report parser and the driver state are built on, with what each of
//! their methods used here does to the vector's contents.
//!
//! Each capacity in use gets a name for the sequence its vector holds; the
//! wrappers state, over that name, the effect that `heapless` 0.8's source
//! shows for the method they call.

use vstd::prelude::*;
use crate::parsing::DataVals;

verus! {

#[verifier::external_type_specification]
#[verifier::external_body]
#[verifier::reject_recursive_types(T)]
pub struct ExHeaplessVec<T, const N: usize>(heapless::Vec<T, N>);

/// The bytes held by a packet header vector (capacity 4).
pub uninterp spec fn header_bytes(v: heapless::Vec<u8, 4>) -> Seq<u8>;

/// The bytes held by a packet payload vector (capacity 32763).
pub uninterp spec fn payload_bytes(v: heapless::Vec<u8, 32763>) -> Seq<u8>;

/// The bytes held by a whole-packet vector (capacity 32767).
pub uninterp spec fn frame_bytes(v: heapless::Vec<u8, 32767>) -> Seq<u8>;

/// The values held by a parsed-report vector (capacity 20).
pub uninterp spec fn value_list(v: heapless::Vec<DataVals, 20>) -> Seq<DataVals>;

/// The report codes held by the enabled-feature vector (capacity 42).
pub uninterp spec fn feature_codes(v: heapless::Vec<u8, 42>) -> Seq<u8>;

/// `heapless::Vec::<u8, 4>::from_slice`: succeeds exactly when the slice fits
/// the capacity, and then holds the slice's bytes.
#[verifier::external_body]
pub(crate) fn header_from_slice(s: &[u8]) -> (r: Result<heapless::Vec<u8, 4>, ()>)
    ensures
        r is Ok <==> s@.len() <= 4,
        r matches Ok(v) ==> header_bytes(v) == s@,
{
    heapless::Vec::from_slice(s)
}

/// `heapless::Vec::<u8, 4>::as_slice`: the slice of the held bytes.
#[verifier::external_body]
pub(crate) fn header_as_slice(v: &heapless::Vec<u8, 4>) -> (r: &[u8])
    ensures
        r@ == header_bytes(*v),
{
    v.as_slice()
}

/// `heapless::Vec::<u8, 4>::as_mut_slice`: a mutable slice over the held
/// bytes; what is written through it is what the vector then holds.
#[verifier::external_body]
pub(crate) fn header_as_mut_slice(v: &mut heapless::Vec<u8, 4>) -> (r: &mut [u8])
    ensures
        r@ == header_bytes(*old(v)),
        final(r)@.len() == r@.len(),
        header_bytes(*final(v)) == final(r)@,
{
    v.as_mut_slice()
}

/// `heapless::Vec::<u8, 32763>::new`: an empty vector.
#[verifier::external_body]
pub(crate) fn payload_new() -> (r: heapless::Vec<u8, 32763>)
    ensures
        payload_bytes(r) == Seq::<u8>::empty(),
{
    heapless::Vec::new()
}

/// `heapless::Vec::<u8, 32763>::from_slice`: succeeds exactly when the slice
/// fits the capacity, and then holds the slice's bytes.
#[verifier::external_body]
pub(crate) fn payload_from_slice(s: &[u8]) -> (r: Result<heapless::Vec<u8, 32763>, ()>)
    ensures
        r is Ok <==> s@.len() <= 32763,
        r matches Ok(v) ==> payload_bytes(v) == s@,
{
    heapless::Vec::from_slice(s)
}

/// `heapless::Vec::<u8, 32763>::resize`: refuses a length over the capacity
/// and leaves the vector unchanged; otherwise truncates to `new_len` or pads
/// with copies of `value` up to it.
#[verifier::external_body]
pub(crate) fn payload_resize(v: &mut heapless::Vec<u8, 32763>, new_len: usize, value: u8) -> (r: Result<(), ()>)
    ensures
        r is Ok <==> new_len <= 32763,
        r is Err ==> payload_bytes(*final(v)) == payload_bytes(*old(v)),
        r is Ok ==> payload_bytes(*final(v)) == (if new_len <= payload_bytes(*old(v)).len() {
            payload_bytes(*old(v)).take(new_len as int)
        } else {
            payload_bytes(*old(v)) + Seq::new((new_len - payload_bytes(*old(v)).len()) as nat, |i: int| value)
        }),
{
    v.resize(new_len, value)
}

/// `heapless::Vec::<u8, 32763>::as_slice`: the slice of the held bytes.
#[verifier::external_body]
pub(crate) fn payload_as_slice(v: &heapless::Vec<u8, 32763>) -> (r: &[u8])
    ensures
        r@ == payload_bytes(*v),
{
    v.as_slice()
}

/// `heapless::Vec::<u8, 32763>::as_mut_slice`: a mutable slice over the held
/// bytes; what is written through it is what the vector then holds.
#[verifier::external_body]
pub(crate) fn payload_as_mut_slice(v: &mut heapless::Vec<u8, 32763>) -> (r: &mut [u8])
    ensures
        r@ == payload_bytes(*old(v)),
        final(r)@.len() == r@.len(),
        payload_bytes(*final(v)) == final(r)@,
{
    v.as_mut_slice()
}

/// `heapless::Vec::<u8, 32767>::from_slice`: succeeds exactly when the slice
/// fits the capacity, and then holds the slice's bytes.
#[verifier::external_body]
pub(crate) fn frame_from_slice(s: &[u8]) -> (r: Result<heapless::Vec<u8, 32767>, ()>)
    ensures
        r is Ok <==> s@.len() <= 32767,
        r matches Ok(v) ==> frame_bytes(v) == s@,
{
    heapless::Vec::from_slice(s)
}

/// `heapless::Vec::<u8, 32767>::extend_from_slice`: appends the slice when it
/// fits the remaining capacity; otherwise refuses and changes nothing.
#[verifier::external_body]
pub(crate) fn frame_extend_from_slice(v: &mut heapless::Vec<u8, 32767>, s: &[u8]) -> (r: Result<(), ()>)
    ensures
        r is Ok <==> frame_bytes(*old(v)).len() + s@.len() <= 32767,
        r is Ok ==> frame_bytes(*final(v)) == frame_bytes(*old(v)) + s@,
        r is Err ==> frame_bytes(*final(v)) == frame_bytes(*old(v)),
{
    v.extend_from_slice(s)
}

/// `heapless::Vec::<DataVals, 20>::new`: an empty vector.
#[verifier::external_body]
pub(crate) fn values_new() -> (r: heapless::Vec<DataVals, 20>)
    ensures
        value_list(r) == Seq::<DataVals>::empty(),
{
    heapless::Vec::new()
}

/// `heapless::Vec::<DataVals, 20>::push`: appends when the vector is not full;
/// otherwise hands the item back and changes nothing.
#[verifier::external_body]
pub(crate) fn values_push(v: &mut heapless::Vec<DataVals, 20>, item: DataVals) -> (r: Result<(), DataVals>)
    ensures
        r is Ok <==> value_list(*old(v)).len() <= 19,
        r is Ok ==> value_list(*final(v)) == value_list(*old(v)).push(item),
        r is Err ==> value_list(*final(v)) == value_list(*old(v)),
        r matches Err(back) ==> back == item,
{
    v.push(item)
}

/// `heapless::Vec::<DataVals, 20>::as_slice`: the slice of the held values.
#[verifier::external_body]
pub(crate) fn values_as_slice(v: &heapless::Vec<DataVals, 20>) -> (r: &[DataVals])
    ensures
        r@ == value_list(*v),
{
    v.as_slice()
}

/// `heapless::Vec::<u8, 42>::new`: an empty vector.
#[verifier::external_body]
pub(crate) fn features_new() -> (r: heapless::Vec<u8, 42>)
    ensures
        feature_codes(r) == Seq::<u8>::empty(),
{
    heapless::Vec::new()
}

/// `heapless::Vec::<u8, 42>::push`: appends when the vector is not full;
/// otherwise hands the item back and changes nothing.
#[verifier::external_body]
pub(crate) fn features_push(v: &mut heapless::Vec<u8, 42>, item: u8) -> (r: Result<(), u8>)
    ensures
        r is Ok <==> feature_codes(*old(v)).len() <= 41,
        r is Ok ==> feature_codes(*final(v)) == feature_codes(*old(v)).push(item),
        r is Err ==> feature_codes(*final(v)) == feature_codes(*old(v)),
        r matches Err(back) ==> back == item,
{
    v.push(item)
}

/// `heapless::Vec::<u8, 42>::as_slice`: the slice of the held codes.
#[verifier::external_body]
pub(crate) fn features_as_slice(v: &heapless::Vec<u8, 42>) -> (r: &[u8])
    ensures
        r@ == feature_codes(*v),
{
    v.as_slice()
}

} // verus!
