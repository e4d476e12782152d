//! What a PICC answers during activation: ATQA, UID, and the raw FIFO contents.

use vstd::prelude::*;

use crate::error::Error;
use crate::picc::{type_of_sak, Sak, Type};

verus! {

/// Answer To reQuest type A
#[derive(Debug, PartialEq)]
pub struct AtqA {
    bytes: [u8; 2],
}

impl View for AtqA {
    type V = Seq<u8>;

    open spec fn view(&self) -> Seq<u8> {
        self.value()
    }
}

impl AtqA {
    /// The two bytes of the answer.
    pub closed spec fn value(&self) -> Seq<u8> {
        self.bytes@
    }

    /// An ATQA made of the two bytes a PICC answered.
    pub fn new(bytes: [u8; 2]) -> (a: AtqA)
        ensures
            a.value() == bytes@,
    {
        AtqA { bytes }
    }

    /// The two bytes of the answer.
    pub fn bytes(&self) -> (b: [u8; 2])
        ensures
            b@ == self.value(),
    {
        self.bytes
    }
}

/// An identifier that is generic over the size.
#[derive(Debug)]
pub struct GenericUid<const T: usize> {
    bytes: [u8; T],
    sak: Sak,
}

impl<const T: usize> GenericUid<T> {
    /// The bytes of the UID.
    pub closed spec fn value(&self) -> Seq<u8> {
        self.bytes@
    }

    /// The SAK that completed the UID.
    pub closed spec fn sak(&self) -> Sak {
        self.sak
    }

    /// Create a GenericUid from a byte array and a SAK byte.
    pub fn new(bytes: [u8; T], sak_byte: u8) -> (u: Self)
        ensures
            u.value() == bytes@,
            u.sak().value() == sak_byte,
    {
        let sak = Sak::from(sak_byte);
        proof {
            crate::picc::lemma_sak_from_byte(sak_byte);
        }
        Self { bytes, sak }
    }

    /// A GenericUid from its bytes and the SAK that completed it.
    pub fn from_parts(bytes: [u8; T], sak: Sak) -> (u: Self)
        ensures
            u.value() == bytes@,
            u.sak() == sak,
    {
        Self { bytes, sak }
    }

    /// Get the underlying bytes of the UID
    pub fn as_bytes(&self) -> (b: &[u8])
        ensures
            b@ == self.value(),
            b@.len() == T,
    {
        self.bytes.as_slice()
    }

    /// Get the type of the PICC
    pub fn get_type(&self) -> (t: Type)
        ensures
            t == type_of_sak(self.sak().value()),
    {
        self.sak.get_type()
    }
}

/// The unique identifier returned by a PICC
#[derive(Debug)]
pub enum Uid {
    /// Single sized UID, 4 bytes long
    Single(GenericUid<4>),
    /// Double sized UID, 7 bytes long
    Double(GenericUid<7>),
    /// Triple sized UID, 10 bytes long
    Triple(GenericUid<10>),
}

/// What a [`Uid`] holds, as a value: its bytes and the SAK byte that completed it.
pub ghost struct UidView {
    /// The bytes of the UID
    pub bytes: Seq<u8>,
    /// The SAK byte
    pub sak: u8,
}

impl View for Uid {
    type V = UidView;

    open spec fn view(&self) -> UidView {
        UidView { bytes: self.value(), sak: self.sak().value() }
    }
}

impl Uid {
    /// The bytes of the UID, of whichever size.
    pub open spec fn value(&self) -> Seq<u8> {
        match self {
            Uid::Single(u) => u.value(),
            Uid::Double(u) => u.value(),
            Uid::Triple(u) => u.value(),
        }
    }

    /// The SAK that completed the UID.
    pub open spec fn sak(&self) -> Sak {
        match self {
            Uid::Single(u) => u.sak(),
            Uid::Double(u) => u.sak(),
            Uid::Triple(u) => u.sak(),
        }
    }

    /// Get the UID as a byte slice
    pub fn as_bytes(&self) -> (b: &[u8])
        ensures
            b@ == self.value(),
            b@.len() == match self {
                Uid::Single(_) => 4nat,
                Uid::Double(_) => 7nat,
                Uid::Triple(_) => 10nat,
            },
    {
        match self {
            Uid::Single(u) => u.as_bytes(),
            Uid::Double(u) => u.as_bytes(),
            Uid::Triple(u) => u.as_bytes(),
        }
    }

    /// Get the type of the PICC that returned the UID
    pub fn get_type(&self) -> (t: Type)
        ensures
            t == type_of_sak(self.sak().value()),
    {
        match self {
            Uid::Single(u) => u.get_type(),
            Uid::Double(u) => u.get_type(),
            Uid::Triple(u) => u.get_type(),
        }
    }
}

/// Data read from the internal FIFO buffer
#[derive(Debug, PartialEq)]
pub struct FifoData<const L: usize> {
    /// The contents of the FIFO buffer
    pub buffer: [u8; L],
    /// The number of valid bytes in the buffer
    pub valid_bytes: usize,
    /// The number of valid bits in the last byte
    pub valid_bits: usize,
}

/// What a [`FifoData`] holds, as a value.
pub ghost struct FifoView {
    /// The contents of the FIFO buffer
    pub buffer: Seq<u8>,
    /// The number of valid bytes in the buffer
    pub valid_bytes: usize,
    /// The number of valid bits in the last byte
    pub valid_bits: usize,
}

impl<const L: usize> View for FifoData<L> {
    type V = FifoView;

    open spec fn view(&self) -> FifoView {
        FifoView { buffer: self.buffer@, valid_bytes: self.valid_bytes, valid_bits: self.valid_bits }
    }
}

/// The mask of the bits of a byte at or above bit position `k` (`k < 8`).
pub open spec fn high_mask(k: u8) -> u8 {
    (0xFFu8 << k) as u8
}

/// `byte`'s bits at or above position `k`, with `old`'s bits below it.
pub open spec fn merge_bits(byte: u8, old: u8, k: u8) -> u8 {
    (byte & high_mask(k)) | (old & !high_mask(k))
}

/// `dst` after its byte `idx` took the bits of `first` from position `k` on.
pub open spec fn merge_at(dst: Seq<u8>, idx: int, first: u8, k: u8) -> Seq<u8> {
    dst.update(idx, merge_bits(first, dst[idx], k))
}

/// `dst` after bytes `1..n` of `src` were copied to positions `idx + 1 .. idx + n`.
pub open spec fn copy_after(dst: Seq<u8>, idx: int, src: Seq<u8>, n: int) -> Seq<u8> {
    Seq::new(dst.len(), |j: int| if idx < j < idx + n { src[j - idx] } else { dst[j] })
}

/// The bit count that `copy_bits_to` reports: the bits the destination held,
/// eight per valid byte and the valid bits, each added as a byte.
pub open spec fn copied_bit_count(dst_valid_bits: u8, valid_bytes: usize, valid_bits: usize) -> int {
    dst_valid_bits + ((valid_bytes * 8) as u8) + (valid_bits as u8)
}

/// What copying the FIFO data `fifo` to `dst`, whose first `dst_valid_bits`
/// bits are already known, leaves in `dst` and returns.
///
/// With no valid byte, nothing changes and the count is `dst_valid_bits`.
/// Otherwise the first FIFO byte is merged into the byte of `dst` that holds
/// bit `dst_valid_bits`, keeping that byte's bits below it; when the other
/// valid bytes do not fit after it the result is `NoRoom`, else they follow
/// it and the count is [`copied_bit_count`].
pub open spec fn copy_bits<S, G>(fifo: FifoView, dst: Seq<u8>, dst_valid_bits: u8) -> (Seq<u8>, Result<u8, Error<S, G>>) {
    if fifo.valid_bytes == 0 {
        (dst, Ok(dst_valid_bits))
    } else {
        let idx = dst_valid_bits / 8;
        let merged = merge_at(dst, idx as int, fifo.buffer[0], dst_valid_bits % 8);
        if fifo.valid_bytes + idx > dst.len() {
            (merged, Err(Error::NoRoom))
        } else {
            (
                copy_after(merged, idx as int, fifo.buffer, fifo.valid_bytes as int),
                Ok(copied_bit_count(dst_valid_bits, fifo.valid_bytes, fifo.valid_bits) as u8),
            )
        }
    }
}

impl<const L: usize> FifoData<L> {
    /// The inputs on which copying into a destination of `dst_len` bytes
    /// stays within the buffers and its bit count within a byte.
    pub open spec fn copy_fits(&self, dst_len: nat, dst_valid_bits: u8) -> bool {
        let idx = dst_valid_bits / 8;
        self.valid_bytes > 0 ==> {
            &&& L > 0
            &&& idx < dst_len
            &&& self.valid_bytes + idx <= usize::MAX
            &&& self.valid_bytes + idx <= dst_len ==> {
                &&& self.valid_bytes <= L
                &&& self.valid_bytes * 8 <= usize::MAX
                &&& copied_bit_count(dst_valid_bits, self.valid_bytes, self.valid_bits) <= u8::MAX
            }
        }
    }

    /// Copies FIFO data to destination buffer.
    ///
    /// The first FIFO byte is merged into `dst` at the byte that holds bit
    /// `dst_valid_bits`, keeping the `dst_valid_bits % 8` low bits already there;
    /// the other valid bytes follow it.
    pub fn copy_bits_to<SpiE, GpioE>(&self, dst: &mut [u8], dst_valid_bits: u8) -> (r: Result<
        u8,
        Error<SpiE, GpioE>,
    >)
        requires
            self.copy_fits(old(dst)@.len(), dst_valid_bits),
        ensures
            (final(dst)@, r) == copy_bits::<SpiE, GpioE>(self@, old(dst)@, dst_valid_bits),
    {
        if self.valid_bytes == 0 {
            return Ok(dst_valid_bits);
        }
        let dst_valid_bytes = dst_valid_bits / 8;
        let dst_valid_last_bits = dst_valid_bits % 8;
        let mask: u8 = 0xFFu8 << dst_valid_last_bits;
        let idx: usize = dst_valid_bytes as usize;
        let merged = (self.buffer[0] & mask) | (dst[idx] & !mask);
        dst[idx] = merged;
        let ghost after_first = dst@;
        assert(after_first == merge_at(old(dst)@, idx as int, self.buffer@[0], dst_valid_bits % 8));
        let idx = idx + 1;
        let len = self.valid_bytes - 1;
        if len + idx > dst.len() {
            return Err(Error::NoRoom);
        }
        let mut i: usize = 0;
        while i < len
            invariant
                len == self.valid_bytes - 1,
                len + idx <= dst.len(),
                self.valid_bytes <= L,
                idx == dst_valid_bits / 8 + 1,
                0 <= i <= len,
                dst@.len() == after_first.len(),
                forall|j: int|
                    0 <= j < dst@.len() ==> #[trigger] dst@[j] == if idx <= j < idx + i {
                        self.buffer@[j - idx + 1]
                    } else {
                        after_first[j]
                    },
            decreases len - i,
        {
            dst[idx + i] = self.buffer[i + 1];
            i = i + 1;
        }
        assert(dst@ =~= copy_after(after_first, idx - 1, self.buffer@, self.valid_bytes as int));
        Ok(dst_valid_bits + #[verifier::truncate] ((self.valid_bytes * 8) as u8)
            + #[verifier::truncate] (self.valid_bits as u8))
    }
}

} // verus!
