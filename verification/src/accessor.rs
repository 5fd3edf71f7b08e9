//! The image of a song file in memory, read by offset.

use byteorder::{ByteOrder, LittleEndian};
use vstd::prelude::*;
use vstd::slice::slice_subrange;

verus! {

/// The 16-bit number that two bytes spell, the low byte first.
pub open spec fn short_of(low: u8, high: u8) -> u16 {
    (low + 256 * high) as u16
}

/// `LittleEndian::read_u16` of byteorder: the number that the first two bytes
/// of `bytes` spell, the low byte first. It panics on fewer than two bytes.
#[verifier::external_body]
fn le_u16(bytes: &[u8]) -> (value: u16)
    requires
        bytes@.len() >= 2,
    ensures
        value == short_of(bytes@[0], bytes@[1]),
{
    LittleEndian::read_u16(bytes)
}

/// The bytes of a song file.
pub struct FileDataAccessor(Vec<u8>);

impl View for FileDataAccessor {
    type V = Seq<u8>;

    /// The bytes of the file, in order.
    closed spec fn view(&self) -> Seq<u8> {
        self.0@
    }
}

impl FileDataAccessor {
    /// An accessor for the bytes of a file.
    pub fn new(bytes: Vec<u8>) -> (accessor: FileDataAccessor)
        ensures
            accessor@ == bytes@,
    {
        FileDataAccessor(bytes)
    }

    /// The number of bytes of the file.
    pub fn len(&self) -> (len: usize)
        ensures
            len == self@.len(),
    {
        self.0.len()
    }

    /// The byte at `index`.
    pub fn read_byte(&self, index: u16) -> (byte: u8)
        requires
            index < self@.len(),
        ensures
            byte == self@[index as int],
    {
        self.0[index as usize]
    }

    /// The 16-bit number at `index`, stored with its low byte first.
    pub fn read_short(&self, index: u16) -> (short: u16)
        requires
            index + 2 <= self@.len(),
        ensures
            short == short_of(self@[index as int], self@[index + 1]),
    {
        let bytes: &[u8] = self.0.as_slice();
        le_u16(slice_subrange(bytes, index as usize, bytes.len()))
    }
}

} // verus!
