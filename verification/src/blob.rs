//! Bounds-checked byte buffer and magic-based format classification.

use vstd::prelude::*;

verus! {

/// Errors raised by buffer accessors.
#[derive(Clone, Copy, Debug, PartialEq, Eq, Structural)]
pub enum BlobError {
    /// A read was requested past the end of the buffer.
    OutOfBounds,
    /// A buffer could not be loaded from the named source.
    FileNotFound,
}

/// Address class recorded in the fifth byte of an ELF identification prefix.
#[derive(Clone, Copy, Debug, PartialEq, Eq, Structural)]
pub enum ElfClass {
    Class32,
    Class64,
    Unrecognized,
}

/// Format tag derived once from the magic bytes at the start of a buffer.
#[derive(Clone, Copy, Debug, PartialEq, Eq, Structural)]
pub enum BinaryType {
    Elf(ElfClass),
    Pe,
    Unknown,
}

/// The ELF address class named by byte 4: 1 is 32-bit, 2 is 64-bit.
pub open spec fn spec_elf_class(s: Seq<u8>) -> ElfClass {
    if s.len() >= 5 && s[4] == 1 {
        ElfClass::Class32
    } else if s.len() >= 5 && s[4] == 2 {
        ElfClass::Class64
    } else {
        ElfClass::Unrecognized
    }
}

/// Classification of a buffer from its magic prefix: `0x7F 'E' 'L' 'F'`
/// marks ELF, `'M' 'Z'` marks PE, anything else (and any buffer shorter
/// than four bytes) is unknown.
pub open spec fn spec_classify(s: Seq<u8>) -> BinaryType {
    if s.len() < 4 {
        BinaryType::Unknown
    } else if s[0] == 0x7f && s[1] == 0x45 && s[2] == 0x4c && s[3] == 0x46 {
        BinaryType::Elf(spec_elf_class(s))
    } else if s[0] == 0x4d && s[1] == 0x5a {
        BinaryType::Pe
    } else {
        BinaryType::Unknown
    }
}

/// Little-endian integer encoded by the two bytes at `o`.
pub open spec fn le16(s: Seq<u8>, o: int) -> int {
    s[o] + 0x100 * s[o + 1]
}

/// Little-endian integer encoded by the four bytes at `o`.
pub open spec fn le32(s: Seq<u8>, o: int) -> int {
    s[o] + 0x100 * s[o + 1] + 0x1_0000 * s[o + 2] + 0x100_0000 * s[o + 3]
}

/// Little-endian integer encoded by the eight bytes at `o`.
pub open spec fn le64(s: Seq<u8>, o: int) -> int {
    s[o] + 0x100 * s[o + 1] + 0x1_0000 * s[o + 2] + 0x100_0000 * s[o + 3]
        + 0x1_0000_0000 * s[o + 4] + 0x100_0000_0000 * s[o + 5]
        + 0x1_0000_0000_0000 * s[o + 6] + 0x100_0000_0000_0000 * s[o + 7]
}

/// Whether a terminating zero byte follows position `o` (inclusive).
pub open spec fn has_nul(s: Seq<u8>, o: int) -> bool {
    exists|i: int| o <= i < s.len() && s[i] == 0
}

/// Position of the first zero byte at or after `o`; the buffer length when
/// there is none.
pub open spec fn nul_pos(s: Seq<u8>, o: int) -> int
    decreases s.len() - o,
{
    if o < 0 || o >= s.len() {
        s.len() as int
    } else if s[o] == 0 {
        o
    } else {
        nul_pos(s, o + 1)
    }
}

/// Text decoding of one byte: ASCII maps to itself, anything else to the
/// replacement character.
pub open spec fn decoded_char(b: u8) -> char {
    if b < 0x80 {
        b as char
    } else {
        '\u{FFFD}'
    }
}

/// The decoded text of the zero-terminated byte run starting at `o`.
pub open spec fn cstring_chars(s: Seq<u8>, o: int) -> Seq<char> {
    Seq::new((nul_pos(s, o) - o) as nat, |k: int| decoded_char(s[o + k]))
}

/// Pins `nul_pos` down from a scan: if every byte before `i` is non-zero and
/// the byte at `i` is zero, then `i` is the first zero position.
pub proof fn lemma_nul_pos_found(s: Seq<u8>, o: int, i: int)
    requires
        0 <= o <= i < s.len(),
        forall|j: int| o <= j < i ==> s[j] != 0,
        s[i] == 0,
    ensures
        nul_pos(s, o) == i,
        has_nul(s, o),
    decreases i - o,
{
    if o < i {
        lemma_nul_pos_found(s, o + 1, i);
    }
}

/// A buffer shorter than four bytes always classifies as unknown: format
/// detection never fails, and too few bytes for any magic is itself evidence
/// of an unknown format.
pub proof fn lemma_short_buffer_unknown(s: Seq<u8>)
    requires
        s.len() < 4,
    ensures
        spec_classify(s) == BinaryType::Unknown,
{
}

/// Immutable byte buffer with bounds-checked fixed-width reads. Created
/// whole from loaded or uploaded content and never mutated in place; a
/// replacement buffer is a fresh value.
pub struct Blob {
    data: Vec<u8>,
}

impl View for Blob {
    type V = Seq<u8>;

    closed spec fn view(&self) -> Seq<u8> {
        self.data@
    }
}

impl Blob {
    /// Wraps loaded content. Construction never fails: classification of a
    /// malformed prefix is `Unknown`, not an error.
    pub fn new(data: Vec<u8>) -> (b: Blob)
        ensures
            b@ == data@,
    {
        Blob { data }
    }

    /// Number of bytes held.
    pub fn len(&self) -> (n: usize)
        ensures
            n == self@.len(),
    {
        self.data.len()
    }

    /// Format tag of the held bytes, derived from the magic prefix alone.
    /// Never fails: a buffer too short for any magic is unknown.
    pub fn bin_type(&self) -> (t: BinaryType)
        ensures
            t == spec_classify(self@),
    {
        if self.data.len() < 4 {
            BinaryType::Unknown
        } else if self.data[0] == 0x7f && self.data[1] == 0x45 && self.data[2] == 0x4c
            && self.data[3] == 0x46 {
            if self.data.len() >= 5 && self.data[4] == 1 {
                BinaryType::Elf(ElfClass::Class32)
            } else if self.data.len() >= 5 && self.data[4] == 2 {
                BinaryType::Elf(ElfClass::Class64)
            } else {
                BinaryType::Elf(ElfClass::Unrecognized)
            }
        } else if self.data[0] == 0x4d && self.data[1] == 0x5a {
            BinaryType::Pe
        } else {
            BinaryType::Unknown
        }
    }

    /// Unchecked byte access for in-crate walks whose bounds are already
    /// established.
    pub(crate) fn byte_at(&self, i: usize) -> (b: u8)
        requires
            i < self@.len(),
        ensures
            b == self@[i as int],
    {
        self.data[i]
    }

    /// Direct 16-bit read for in-crate walks whose bounds are established.
    pub(crate) fn u16_at(&self, o: usize) -> (r: u16)
        requires
            o + 2 <= self@.len(),
        ensures
            r == le16(self@, o as int),
    {
        proof {
            assert(self.data@.len() == self.data.len());
        }
        let b0 = self.data[o] as u16;
        let b1 = self.data[o + 1] as u16;
        b0 + 0x100 * b1
    }

    /// Direct 32-bit read for in-crate walks whose bounds are established.
    pub(crate) fn u32_at(&self, o: usize) -> (r: u32)
        requires
            o + 4 <= self@.len(),
        ensures
            r == le32(self@, o as int),
    {
        proof {
            assert(self.data@.len() == self.data.len());
        }
        let b0 = self.data[o] as u32;
        let b1 = self.data[o + 1] as u32;
        let b2 = self.data[o + 2] as u32;
        let b3 = self.data[o + 3] as u32;
        b0 + 0x100 * b1 + 0x1_0000 * b2 + 0x100_0000 * b3
    }

    /// Direct 64-bit read for in-crate walks whose bounds are established.
    pub(crate) fn u64_at(&self, o: usize) -> (r: u64)
        requires
            o + 8 <= self@.len(),
        ensures
            r == le64(self@, o as int),
    {
        proof {
            assert(self.data@.len() == self.data.len());
        }
        let b0 = self.data[o] as u64;
        let b1 = self.data[o + 1] as u64;
        let b2 = self.data[o + 2] as u64;
        let b3 = self.data[o + 3] as u64;
        let b4 = self.data[o + 4] as u64;
        let b5 = self.data[o + 5] as u64;
        let b6 = self.data[o + 6] as u64;
        let b7 = self.data[o + 7] as u64;
        b0 + 0x100 * b1 + 0x1_0000 * b2 + 0x100_0000 * b3 + 0x1_0000_0000 * b4 + 0x100_0000_0000
            * b5 + 0x1_0000_0000_0000 * b6 + 0x100_0000_0000_0000 * b7
    }

    /// The byte at `o`, or `OutOfBounds` when `o` is past the end.
    pub fn get_u8(&self, o: usize) -> (r: Result<u8, BlobError>)
        ensures
            o + 1 <= self@.len() ==> r == Ok::<u8, BlobError>(self@[o as int]),
            o + 1 > self@.len() ==> r == Err::<u8, BlobError>(BlobError::OutOfBounds),
    {
        if o < self.data.len() {
            Ok(self.data[o])
        } else {
            Err(BlobError::OutOfBounds)
        }
    }

    /// The little-endian 16-bit integer at `o`, or `OutOfBounds` when the
    /// two bytes do not fit before the end.
    pub fn get_u16(&self, o: usize) -> (r: Result<u16, BlobError>)
        ensures
            o + 2 <= self@.len() ==> r is Ok && r->Ok_0 == le16(self@, o as int),
            o + 2 > self@.len() ==> r == Err::<u16, BlobError>(BlobError::OutOfBounds),
    {
        if self.data.len() >= 2 && o <= self.data.len() - 2 {
            let b0 = self.data[o] as u16;
            let b1 = self.data[o + 1] as u16;
            Ok(b0 + 0x100 * b1)
        } else {
            Err(BlobError::OutOfBounds)
        }
    }

    /// The little-endian 32-bit integer at `o`, or `OutOfBounds` when the
    /// four bytes do not fit before the end.
    pub fn get_u32(&self, o: usize) -> (r: Result<u32, BlobError>)
        ensures
            o + 4 <= self@.len() ==> r is Ok && r->Ok_0 == le32(self@, o as int),
            o + 4 > self@.len() ==> r == Err::<u32, BlobError>(BlobError::OutOfBounds),
    {
        if self.data.len() >= 4 && o <= self.data.len() - 4 {
            let b0 = self.data[o] as u32;
            let b1 = self.data[o + 1] as u32;
            let b2 = self.data[o + 2] as u32;
            let b3 = self.data[o + 3] as u32;
            Ok(b0 + 0x100 * b1 + 0x1_0000 * b2 + 0x100_0000 * b3)
        } else {
            Err(BlobError::OutOfBounds)
        }
    }

    /// The little-endian 64-bit integer at `o`, or `OutOfBounds` when the
    /// eight bytes do not fit before the end.
    pub fn get_u64(&self, o: usize) -> (r: Result<u64, BlobError>)
        ensures
            o + 8 <= self@.len() ==> r is Ok && r->Ok_0 == le64(self@, o as int),
            o + 8 > self@.len() ==> r == Err::<u64, BlobError>(BlobError::OutOfBounds),
    {
        if self.data.len() >= 8 && o <= self.data.len() - 8 {
            let b0 = self.data[o] as u64;
            let b1 = self.data[o + 1] as u64;
            let b2 = self.data[o + 2] as u64;
            let b3 = self.data[o + 3] as u64;
            let b4 = self.data[o + 4] as u64;
            let b5 = self.data[o + 5] as u64;
            let b6 = self.data[o + 6] as u64;
            let b7 = self.data[o + 7] as u64;
            Ok(
                b0 + 0x100 * b1 + 0x1_0000 * b2 + 0x100_0000 * b3 + 0x1_0000_0000 * b4
                    + 0x100_0000_0000 * b5 + 0x1_0000_0000_0000 * b6
                    + 0x100_0000_0000_0000 * b7,
            )
        } else {
            Err(BlobError::OutOfBounds)
        }
    }

    /// The decoded text of the zero-terminated string at `o`. ASCII bytes
    /// decode to themselves and any other byte to the replacement character,
    /// so decoding itself never fails; the read fails with `OutOfBounds`
    /// exactly when no terminating zero byte lies before the buffer end.
    pub fn get_cstring(&self, o: usize) -> (r: Result<String, BlobError>)
        ensures
            has_nul(self@, o as int) ==> r is Ok && r->Ok_0@ == cstring_chars(self@, o as int),
            !has_nul(self@, o as int) ==> r == Err::<String, BlobError>(BlobError::OutOfBounds),
    {
        let mut chars: Vec<char> = Vec::new();
        let mut i: usize = o;
        loop
            invariant
                o <= i,
                i <= self@.len() || i == o,
                forall|j: int| o <= j < i ==> self@[j] != 0,
                chars@ =~= Seq::new((i - o) as nat, |k: int| decoded_char(self@[o + k])),
            decreases self@.len() - i,
        {
            if i >= self.data.len() {
                return Err(BlobError::OutOfBounds);
            }
            let b = self.byte_at(i);
            if b == 0 {
                proof {
                    lemma_nul_pos_found(self@, o as int, i as int);
                }
                return Ok(crate::text::chars_to_string(chars));
            }
            let c: char = if b < 0x80 {
                b as char
            } else {
                '\u{FFFD}'
            };
            chars.push(c);
            i = i + 1;
        }
    }
}

} // verus!
