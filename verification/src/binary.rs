//! Top-level dispatcher: classifies a buffer and wraps it in the matching
//! decoder. Replacing the loaded binary is all-or-nothing: when decoding the
//! new buffer fails, the old state stays untouched and the error is
//! reported.

use vstd::prelude::*;
use vstd::string::StringExecFns;

use crate::blob::{BinaryType, Blob, BlobError, spec_classify};
use crate::elf::{ElfBinary, ElfError, ident_parseable, pairs_match, spec_header_info,
    spec_identity};
use crate::hex::HexBinary;
use crate::pe::{PeBinary, PeError};

verus! {

/// Errors raised by the dispatcher, wrapping the failing decoder's error.
#[derive(Clone, Copy, Debug, PartialEq, Eq, Structural)]
pub enum BinaryError {
    NoPeBinary(PeError),
    NoElfBinary(ElfError),
    BlobCorrupted(BlobError),
}

/// The loaded binary: the decoder matching the buffer's format tag, owning
/// the buffer.
pub enum Binary {
    Elf(ElfBinary),
    Pe(PeBinary),
    Unknown(HexBinary),
}

impl View for Binary {
    type V = Seq<u8>;

    open spec fn view(&self) -> Seq<u8> {
        match self {
            Binary::Elf(e) => e@,
            Binary::Pe(p) => p@,
            Binary::Unknown(h) => h@,
        }
    }
}

/// Whether constructing a binary from these bytes succeeds: construction
/// fails exactly when the buffer classifies as ELF but its header cannot be
/// parsed.
pub open spec fn spec_new_ok(s: Seq<u8>) -> bool {
    spec_classify(s) is Elf ==> ident_parseable(s)
}

/// The variant a successfully constructed binary takes, by classification.
pub open spec fn spec_variant_matches(b: &Binary, s: Seq<u8>) -> bool {
    match spec_classify(s) {
        BinaryType::Elf(_) => b is Elf,
        BinaryType::Pe => b is Pe,
        BinaryType::Unknown => b is Unknown,
    }
}

impl Binary {
    /// Classifies the buffer and constructs the matching decoder over it.
    /// Fails exactly when the buffer classifies as ELF but its header is
    /// corrupt; a PE or unrecognized buffer always loads.
    pub fn new(blob: Blob) -> (r: Result<Binary, BinaryError>)
        ensures
            spec_new_ok(blob@) ==> r is Ok && r->Ok_0@ == blob@ && spec_variant_matches(
                &r->Ok_0,
                blob@,
            ),
            !spec_new_ok(blob@) ==> r == Err::<Binary, BinaryError>(
                BinaryError::NoElfBinary(ElfError::CorruptHeader),
            ),
    {
        match blob.bin_type() {
            BinaryType::Elf(_) => {
                match ElfBinary::new(blob) {
                    Ok(elf_binary) => Ok(Binary::Elf(elf_binary)),
                    Err(e) => Err(BinaryError::NoElfBinary(e)),
                }
            },
            BinaryType::Pe => {
                match PeBinary::new(blob) {
                    Ok(pe_binary) => Ok(Binary::Pe(pe_binary)),
                    Err(e) => Err(BinaryError::NoPeBinary(e)),
                }
            },
            BinaryType::Unknown => Ok(Binary::Unknown(HexBinary::new(blob))),
        }
    }

    /// Replaces the loaded binary with one built from the new buffer. The
    /// swap is atomic: on success the new binary is active; on failure the
    /// previous binary stays active, untouched, and the error is returned.
    pub fn update(&mut self, blob: Blob) -> (r: Result<(), BinaryError>)
        ensures
            spec_new_ok(blob@) ==> r is Ok && final(self)@ == blob@ && spec_variant_matches(
                &*final(self),
                blob@,
            ),
            !spec_new_ok(blob@) ==> r == Err::<(), BinaryError>(
                BinaryError::NoElfBinary(ElfError::CorruptHeader),
            ) && *final(self) == *old(self),
    {
        match Binary::new(blob) {
            Ok(b) => {
                *self = b;
                Ok(())
            },
            Err(e) => Err(e),
        }
    }

    /// Identification rows of the active binary: the parsed ELF header
    /// fields, the PE stub's constant row, or the unknown-binary row.
    pub fn file_info(&self) -> (r: Vec<(String, String)>)
        ensures
            self is Elf ==> pairs_match(r@, spec_header_info(spec_identity(self@))),
            self is Pe ==> r@.len() == 1 && r@[0].0@ == "Ident"@ && r@[0].1@
                == "Windows PE binary"@,
            self is Unknown ==> r@.len() == 1 && r@[0].0@ == "Ident"@ && r@[0].1@
                == "Unknown binary"@,
    {
        match self {
            Binary::Elf(elf_binary) => elf_binary.header_info(),
            Binary::Pe(pe_binary) => pe_binary.header_info(),
            Binary::Unknown(_) => {
                let mut info: Vec<(String, String)> = Vec::new();
                info.push((String::from_str("Ident"), String::from_str("Unknown binary")));
                info
            },
        }
    }

    /// The active binary's kind as a short tag.
    pub fn file_type(&self) -> (r: String)
        ensures
            self is Elf ==> r@ == "elf"@,
            self is Pe ==> r@ == "pe"@,
            self is Unknown ==> r@ == "unknown"@,
    {
        match self {
            Binary::Elf(_) => String::from_str("elf"),
            Binary::Pe(_) => String::from_str("pe"),
            Binary::Unknown(_) => String::from_str("unknown"),
        }
    }
}

impl Default for Binary {
    /// The initial state before any upload: an empty unrecognized buffer.
    fn default() -> (d: Binary)
        ensures
            d is Unknown && d@ == Seq::<u8>::empty(),
    {
        Binary::Unknown(HexBinary::new(Blob::new(Vec::new())))
    }
}

} // verus!
