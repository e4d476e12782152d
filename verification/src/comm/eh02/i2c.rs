//! Blocking I2C interface to the MFRC522: its device and bus address, and the
//! frames it writes.

use vstd::prelude::*;

use crate::register::Register;

verus! {

#[verifier::external_type_specification]
#[verifier::external_body]
#[verifier::reject_recursive_types(T)]
pub struct ExHeaplessVec<T, const N: usize>(heapless::Vec<T, N>);

/// The bytes a heapless vector of at most 65 bytes holds, in order.
pub uninterp spec fn frame_bytes(v: heapless::Vec<u8, 65>) -> Seq<u8>;

/// `heapless::Vec::new`: an empty vector.
#[verifier::external_body]
fn frame_new() -> (v: heapless::Vec<u8, 65>)
    ensures
        frame_bytes(v) == Seq::<u8>::empty(),
{
    heapless::Vec::new()
}

/// `heapless::Vec::push`: appends `byte` when the vector holds fewer than 65
/// bytes; otherwise leaves it as it was and hands `byte` back (here as `Some`).
#[verifier::external_body]
fn frame_push(v: &mut heapless::Vec<u8, 65>, byte: u8) -> (rejected: Option<u8>)
    ensures
        rejected is None <==> frame_bytes(*old(v)).len() < 65,
        rejected is Some ==> rejected == Some(byte),
        frame_bytes(*final(v)) == if frame_bytes(*old(v)).len() < 65 { frame_bytes(*old(v)).push(byte) } else { frame_bytes(*old(v)) },
{
    v.push(byte).err()
}

/// `heapless::Vec::extend_from_slice`: appends `bytes` when they fit in the 65
/// bytes of the vector; otherwise leaves it as it was (here `true` for `Ok`).
#[verifier::external_body]
fn frame_extend(v: &mut heapless::Vec<u8, 65>, bytes: &[u8]) -> (extended: bool)
    ensures
        extended <==> frame_bytes(*old(v)).len() + bytes@.len() <= 65,
        frame_bytes(*final(v)) == if frame_bytes(*old(v)).len() + bytes@.len() <= 65 { frame_bytes(*old(v)) + bytes@ } else { frame_bytes(*old(v)) },
{
    v.extend_from_slice(bytes).is_ok()
}

/// `heapless::Vec::as_slice`: the bytes the vector holds.
#[verifier::external_body]
fn frame_as_slice(v: &heapless::Vec<u8, 65>) -> (s: &[u8])
    ensures
        s@ == frame_bytes(*v),
{
    v.as_slice()
}

/// Blocking I2C interface to the MFRC522
pub struct I2cInterface<I2C> {
    /// The actual I2C device
    i2c: I2C,
    /// The bus address of the MFRC522
    addr: u8,
}

impl<I2C> I2cInterface<I2C> {
    /// The I2C device.
    pub closed spec fn device(self) -> I2C {
        self.i2c
    }

    /// The bus address of the MFRC522.
    pub closed spec fn bus_address(self) -> u8 {
        self.addr
    }

    /// Create a new I2C interface.
    pub fn new(i2c: I2C, addr: u8) -> (itf: Self)
        ensures
            itf.device() == i2c,
            itf.bus_address() == addr,
    {
        Self { i2c, addr }
    }

    /// Release the underlying I2C device
    pub fn release(self) -> (i2c: I2C)
        ensures
            i2c == self.device(),
    {
        self.i2c
    }

    /// The I2C device and the bus address of the MFRC522, to perform a transfer on.
    pub fn parts(&mut self) -> (parts: (&mut I2C, u8))
        ensures
            *parts.0 == old(self).device(),
            parts.1 == old(self).bus_address(),
            final(self).device() == *final(parts.0),
            final(self).bus_address() == old(self).bus_address(),
    {
        (&mut self.i2c, self.addr)
    }
}

/// The bytes written to select register `reg` before a read over I2C: its address.
pub fn register_frame(reg: Register) -> (frame: [u8; 1])
    ensures
        frame@ == seq![reg.addr()],
{
    let frame = [reg.address()];
    assert(frame@ =~= seq![reg.addr()]);
    frame
}

/// The bytes written over I2C to write `val` to register `reg`: its address, then the value.
pub fn write_frame(reg: Register, val: u8) -> (frame: [u8; 2])
    ensures
        frame@ == seq![reg.addr(), val],
{
    let frame = [reg.address(), val];
    assert(frame@ =~= seq![reg.addr(), val]);
    frame
}

/// The bytes written over I2C to write `bytes` to register `reg` in one
/// transfer: its address, then the bytes, at most 64 of them.
pub fn write_many_frame(reg: Register, bytes: &[u8]) -> (frame: heapless::Vec<u8, 65>)
    requires
        bytes@.len() <= 64,
    ensures
        frame_bytes(frame) == seq![reg.addr()] + bytes@,
{
    let mut frame = frame_new();
    let rejected = frame_push(&mut frame, reg.address());
    assert(rejected is None);
    let extended = frame_extend(&mut frame, bytes);
    assert(extended);
    assert(frame_bytes(frame) =~= seq![reg.addr()] + bytes@);
    frame
}

/// The bytes of a frame built by [`write_many_frame`].
pub fn frame_slice(frame: &heapless::Vec<u8, 65>) -> (s: &[u8])
    ensures
        s@ == frame_bytes(*frame),
{
    frame_as_slice(frame)
}

} // verus!
