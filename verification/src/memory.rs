//! Byte-addressable memory with bounds-checked access.
//!
//! Every read and write of the memory image goes through [`Memory`]. An access at or
//! beyond the configured size is refused and leaves the image untouched; it is never
//! wrapped or clamped into range.

use vstd::prelude::*;

verus! {

/// The error of an access that falls outside the memory image.
#[derive(Clone, Copy, Debug, PartialEq, Eq, Structural)]
pub struct OutOfBounds;

/// A memory image of fixed size, addressed by 16-bit offsets.
#[derive(Clone, Debug)]
pub struct Memory {
    bytes: Vec<u8>,
}

impl View for Memory {
    type V = Seq<u8>;

    closed spec fn view(&self) -> Seq<u8> {
        self.bytes@
    }
}

/// Whether `addr` lies inside an image holding `image`.
pub open spec fn mapped(image: Seq<u8>, addr: int) -> bool {
    0 <= addr < image.len()
}

/// The 16-bit value whose high byte is `hi` and whose low byte is `lo`.
pub open spec fn word(hi: u8, lo: u8) -> u16 {
    (hi as int * 256 + lo as int) as u16
}

/// The high byte of `w`.
pub open spec fn hi_byte(w: u16) -> u8 {
    (w / 256) as u8
}

/// The low byte of `w`.
pub open spec fn lo_byte(w: u16) -> u8 {
    (w % 256) as u8
}

/// The little-endian word stored at `addr`: low byte at `addr`, high byte at `addr + 1`.
pub open spec fn word_at(image: Seq<u8>, addr: int) -> u16 {
    word(image[addr + 1], image[addr])
}

/// The image after storing `w` little-endian at `addr`.
pub open spec fn with_word_at(image: Seq<u8>, addr: int, w: u16) -> Seq<u8> {
    image.update(addr, lo_byte(w)).update(addr + 1, hi_byte(w))
}

/// The image after copying `bytes` to the addresses from `start` on.
pub open spec fn with_block_at(image: Seq<u8>, start: int, bytes: Seq<u8>) -> Seq<u8> {
    Seq::new(
        image.len(),
        |i: int|
            if start <= i < start + bytes.len() {
                bytes[i - start]
            } else {
                image[i]
            },
    )
}

/// Joins a high and a low byte into a word.
pub fn make_word(hi: u8, lo: u8) -> (w: u16)
    ensures
        w == word(hi, lo),
{
    let w: u16 = ((hi as u16) << 8) | (lo as u16);
    assert(w == hi as u16 * 256 + lo as u16) by (bit_vector)
        requires
            w == ((hi as u16) << 8) | (lo as u16),
    ;
    w
}

/// The upper eight bits of a word.
pub fn high_byte(w: u16) -> (b: u8)
    ensures
        b == hi_byte(w),
{
    let shifted: u16 = w >> 8;
    assert(shifted == w / 256) by (bit_vector)
        requires
            shifted == w >> 8,
    ;
    shifted as u8
}

/// The lower eight bits of a word.
pub fn low_byte(w: u16) -> (b: u8)
    ensures
        b == lo_byte(w),
{
    let masked: u16 = w & 0xff;
    assert(masked == w % 256) by (bit_vector)
        requires
            masked == w & 0xff,
    ;
    masked as u8
}

/// Joining the two halves of a word gives the word back, and splitting a joined
/// word gives the two bytes back.
pub proof fn lemma_word_halves(w: u16, hi: u8, lo: u8)
    ensures
        word(hi_byte(w), lo_byte(w)) == w,
        hi_byte(word(hi, lo)) == hi,
        lo_byte(word(hi, lo)) == lo,
{
}

impl Memory {
    /// A zero-filled image of `size` bytes.
    pub fn new(size: usize) -> (memory: Memory)
        ensures
            memory@ == Seq::new(size as nat, |i: int| 0u8),
    {
        let bytes: Vec<u8> = vec![0u8; size];
        assert(bytes@ =~= Seq::new(size as nat, |i: int| 0u8));
        Memory { bytes }
    }

    /// An image holding exactly `bytes`.
    pub fn from_bytes(bytes: Vec<u8>) -> (memory: Memory)
        ensures
            memory@ == bytes@,
    {
        Memory { bytes }
    }

    /// The configured size in bytes.
    pub fn size(&self) -> (n: usize)
        ensures
            n == self@.len(),
    {
        self.bytes.len()
    }

    /// Reads the byte at `addr`.
    pub fn read_byte(&self, addr: u16) -> (r: Result<u8, OutOfBounds>)
        ensures
            mapped(self@, addr as int) ==> r == Ok::<u8, OutOfBounds>(self@[addr as int]),
            !mapped(self@, addr as int) ==> r is Err,
    {
        let i: usize = addr as usize;
        if i < self.bytes.len() {
            Ok(self.bytes[i])
        } else {
            Err(OutOfBounds)
        }
    }

    /// Stores `value` at `addr`. A refused store changes nothing.
    pub fn write_byte(&mut self, addr: u16, value: u8) -> (r: Result<(), OutOfBounds>)
        ensures
            mapped(old(self)@, addr as int) ==> r is Ok && final(self)@ == old(self)@.update(
                addr as int,
                value,
            ),
            !mapped(old(self)@, addr as int) ==> r is Err && final(self)@ == old(self)@,
    {
        let i: usize = addr as usize;
        if i < self.bytes.len() {
            self.bytes[i] = value;
            Ok(())
        } else {
            Err(OutOfBounds)
        }
    }

    /// Reads the three bytes of an instruction slot: the byte at `addr` and the two
    /// bytes after it. All three must lie inside the image.
    pub fn read_triple(&self, addr: u16) -> (r: Result<(u8, u8, u8), OutOfBounds>)
        ensures
            mapped(self@, addr + 2) ==> r == Ok::<(u8, u8, u8), OutOfBounds>(
                (self@[addr as int], self@[addr + 1], self@[addr + 2]),
            ),
            !mapped(self@, addr + 2) ==> r is Err,
    {
        let i: usize = addr as usize;
        let size: usize = self.bytes.len();
        if size >= 3 && i <= size - 3 {
            Ok((self.bytes[i], self.bytes[i + 1], self.bytes[i + 2]))
        } else {
            Err(OutOfBounds)
        }
    }

    /// Reads the little-endian word at `addr`: low byte at `addr`, high byte at
    /// `addr + 1`. Both bytes must lie inside the image.
    pub fn read_word(&self, addr: u16) -> (r: Result<u16, OutOfBounds>)
        ensures
            mapped(self@, addr + 1) ==> r == Ok::<u16, OutOfBounds>(word_at(self@, addr as int)),
            !mapped(self@, addr + 1) ==> r is Err,
    {
        let i: usize = addr as usize;
        if i < self.bytes.len() && i + 1 < self.bytes.len() {
            Ok(make_word(self.bytes[i + 1], self.bytes[i]))
        } else {
            Err(OutOfBounds)
        }
    }

    /// Stores `value` little-endian at `addr`: low byte at `addr`, high byte at
    /// `addr + 1`. Unless both bytes lie inside the image, nothing is stored.
    pub fn write_word(&mut self, addr: u16, value: u16) -> (r: Result<(), OutOfBounds>)
        ensures
            mapped(old(self)@, addr + 1) ==> r is Ok && final(self)@ == with_word_at(
                old(self)@,
                addr as int,
                value,
            ),
            !mapped(old(self)@, addr + 1) ==> r is Err && final(self)@ == old(self)@,
    {
        let i: usize = addr as usize;
        if i < self.bytes.len() && i + 1 < self.bytes.len() {
            self.bytes[i] = low_byte(value);
            self.bytes[i + 1] = high_byte(value);
            Ok(())
        } else {
            Err(OutOfBounds)
        }
    }

    /// Copies `bytes` into the image from `start_address` on. Unless the whole block
    /// fits inside the image, nothing is copied.
    pub fn load(&mut self, bytes: &[u8], start_address: u16) -> (r: Result<(), OutOfBounds>)
        ensures
            start_address + bytes@.len() <= old(self)@.len() ==> r is Ok && final(self)@
                == with_block_at(old(self)@, start_address as int, bytes@),
            start_address + bytes@.len() > old(self)@.len() ==> r is Err && final(self)@ == old(
                self,
            )@,
    {
        let start: usize = start_address as usize;
        let size: usize = self.bytes.len();
        if start > size || bytes.len() > size - start {
            return Err(OutOfBounds);
        }
        let mut k: usize = 0;
        while k < bytes.len()
            invariant
                k <= bytes@.len(),
                start + bytes@.len() <= size,
                self.bytes@.len() == size,
                size == old(self)@.len(),
                forall|i: int|
                    0 <= i < size ==> self.bytes@[i] == if start <= i < start + k {
                        bytes@[i - start]
                    } else {
                        old(self)@[i]
                    },
            decreases bytes@.len() - k,
        {
            self.bytes[start + k] = bytes[k];
            k = k + 1;
        }
        assert(self.bytes@ =~= with_block_at(old(self)@, start_address as int, bytes@));
        Ok(())
    }
}

} // verus!
