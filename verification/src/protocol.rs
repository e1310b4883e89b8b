//! Wire protocol: the `Command` values carried by the command queue and the
//! `Message` encoding used for outbound UART traffic.
//!
//! Byte storage is borrowed from `heapless`: the fixed-capacity `heapless::Vec`
//! keeps payloads bounded without dynamic allocation. Its contents are modelled
//! by the uninterpreted sequences below, and the few operations the protocol
//! needs are trusted wrappers whose contracts restate what the `heapless`
//! sources show.

use vstd::prelude::*;

verus! {

/// Capacity of a message payload, in bytes.
pub const PAYLOAD_CAPACITY: usize = 64;

#[verifier::external_type_specification]
#[verifier::external_body]
#[verifier::reject_recursive_types(T)]
pub struct ExHeaplessVec<T, const N: usize>(heapless::Vec<T, N>);

/// The bytes held by a `heapless::Vec<u8, 64>`, front to back.
pub uninterp spec fn bytes64(v: heapless::Vec<u8, 64>) -> Seq<u8>;

/// The bytes held by a `heapless::Vec<u8, 128>`, front to back.
pub uninterp spec fn bytes128(v: heapless::Vec<u8, 128>) -> Seq<u8>;

/// Relies on `heapless::Vec::new`: the new vector is empty.
#[verifier::external_body]
fn vec64_new() -> (r: heapless::Vec<u8, 64>)
    ensures
        bytes64(r) == Seq::<u8>::empty(),
{
    heapless::Vec::new()
}

/// Relies on `heapless::Vec::len`: the number of stored bytes, which the type
/// keeps at or below its capacity of 64.
#[verifier::external_body]
fn vec64_len(v: &heapless::Vec<u8, 64>) -> (r: usize)
    ensures
        r == bytes64(*v).len(),
        r <= 64,
{
    v.len()
}

/// Relies on `heapless::Vec::extend_from_slice`: appends the whole slice when
/// it fits under the capacity of 64, and otherwise fails without touching the
/// vector.
#[verifier::external_body]
fn vec64_extend(v: &mut heapless::Vec<u8, 64>, data: &[u8]) -> (r: Result<(), ()>)
    ensures
        bytes64(*old(v)).len() + data@.len() <= 64 ==> {
            &&& r == Ok::<(), ()>(())
            &&& bytes64(*final(v)) == bytes64(*old(v)) + data@
        },
        bytes64(*old(v)).len() + data@.len() > 64 ==> {
            &&& r == Err::<(), ()>(())
            &&& *final(v) == *old(v)
        },
{
    v.extend_from_slice(data)
}

/// Relies on `heapless::Vec::new`: the new vector is empty.
#[verifier::external_body]
fn vec128_new() -> (r: heapless::Vec<u8, 128>)
    ensures
        bytes128(r) == Seq::<u8>::empty(),
{
    heapless::Vec::new()
}

/// Relies on `heapless::Vec::push`: appends one byte when the vector is under
/// its capacity of 128, and otherwise returns the byte back unchanged.
#[verifier::external_body]
fn vec128_push(v: &mut heapless::Vec<u8, 128>, b: u8) -> (r: Result<(), u8>)
    ensures
        bytes128(*old(v)).len() < 128 ==> {
            &&& r == Ok::<(), u8>(())
            &&& bytes128(*final(v)) == bytes128(*old(v)).push(b)
        },
        bytes128(*old(v)).len() >= 128 ==> {
            &&& r == Err::<(), u8>(b)
            &&& *final(v) == *old(v)
        },
{
    v.push(b)
}

/// Relies on `heapless::Vec::extend_from_slice` (through the slice deref of the
/// source vector): appends the source bytes when they fit under the capacity of
/// 128, and otherwise fails without touching the destination.
#[verifier::external_body]
fn vec128_extend_from_64(
    v: &mut heapless::Vec<u8, 128>,
    src: &heapless::Vec<u8, 64>,
) -> (r: Result<(), ()>)
    ensures
        bytes128(*old(v)).len() + bytes64(*src).len() <= 128 ==> {
            &&& r == Ok::<(), ()>(())
            &&& bytes128(*final(v)) == bytes128(*old(v)) + bytes64(*src)
        },
        bytes128(*old(v)).len() + bytes64(*src).len() > 128 ==> {
            &&& r == Err::<(), ()>(())
            &&& *final(v) == *old(v)
        },
{
    v.extend_from_slice(src)
}

/// Appending past the payload capacity failed: the message was left unchanged.
#[derive(Debug, PartialEq, Eq)]
pub struct PayloadOverflow;

/// A command for the control loop, injected from outside (an interrupt handler
/// or a host-side initiator) through the command queue.
pub enum Command {
    /// Drive one GPIO output pin to the given level.
    SetGpio { pin: u8, state: bool },
    /// Transmit the given bytes over the UART.
    SendMessage { data: heapless::Vec<u8, 128> },
    /// Trigger a full system reset; the loop performs no further work.
    Reset,
}

/// An application message: a 16-bit identifier and at most 64 payload bytes.
pub struct Message {
    pub id: u16,
    pub payload: heapless::Vec<u8, 64>,
}

/// The fixed wire layout of a message: big-endian 16-bit id, one length byte
/// (the payload length, truncated to 8 bits), then the raw payload.
pub open spec fn wire_encoding(id: u16, payload: Seq<u8>) -> Seq<u8> {
    seq![(id >> 8) as u8, id as u8, payload.len() as u8] + payload
}

impl Message {
    /// The payload bytes, front to back.
    pub open spec fn payload_bytes(&self) -> Seq<u8> {
        bytes64(self.payload)
    }

    pub fn new(id: u16) -> (r: Message)
        ensures
            r.id == id,
            r.payload_bytes() == Seq::<u8>::empty(),
    {
        Message { id, payload: vec64_new() }
    }

    /// Appends `data` to the payload. The append is atomic: when the result
    /// would exceed the 64-byte cap, the error is returned and the message is
    /// left exactly as it was.
    pub fn add_data(&mut self, data: &[u8]) -> (r: Result<(), PayloadOverflow>)
        ensures
            old(self).payload_bytes().len() + data@.len() <= PAYLOAD_CAPACITY ==> {
                &&& r == Ok::<(), PayloadOverflow>(())
                &&& final(self).id == old(self).id
                &&& final(self).payload_bytes() == old(self).payload_bytes() + data@
            },
            old(self).payload_bytes().len() + data@.len() > PAYLOAD_CAPACITY ==> {
                &&& r == Err::<(), PayloadOverflow>(PayloadOverflow)
                &&& *final(self) == *old(self)
            },
    {
        match vec64_extend(&mut self.payload, data) {
            Ok(()) => Ok(()),
            Err(()) => Err(PayloadOverflow),
        }
    }

    /// The number of payload bytes currently held.
    pub fn payload_len(&self) -> (r: usize)
        ensures
            r == self.payload_bytes().len(),
            r <= PAYLOAD_CAPACITY,
    {
        vec64_len(&self.payload)
    }

    /// Encodes the message for the wire: id (big-endian), length byte, payload.
    /// The result always fits: 3 + 64 bytes at most, under the 128-byte bound.
    pub fn serialize(&self) -> (r: heapless::Vec<u8, 128>)
        ensures
            bytes128(r) == wire_encoding(self.id, self.payload_bytes()),
            bytes128(r).len() == 3 + self.payload_bytes().len(),
    {
        let mut buffer = vec128_new();
        let hi: u8 = #[verifier::truncate] ((self.id >> 8) as u8);
        let lo: u8 = #[verifier::truncate] (self.id as u8);
        let n: usize = vec64_len(&self.payload);
        let _ = vec128_push(&mut buffer, hi);
        let _ = vec128_push(&mut buffer, lo);
        let _ = vec128_push(&mut buffer, #[verifier::truncate] (n as u8));
        let _ = vec128_extend_from_64(&mut buffer, &self.payload);
        proof {
            assert(bytes128(buffer) =~= wire_encoding(self.id, self.payload_bytes()));
        }
        buffer
    }
}

} // verus!
