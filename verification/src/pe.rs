//! PE stub decoder: recognizes the format tag and reports a constant
//! identification row. Full PE parsing is intentionally out of scope.

use vstd::prelude::*;
use vstd::string::StringExecFns;

use crate::blob::{BinaryType, Blob, spec_classify};

verus! {

/// Errors raised by the PE stub.
#[derive(Clone, Copy, Debug, PartialEq, Eq, Structural)]
pub enum PeError {
    /// The buffer does not carry the PE magic.
    NoPeBinary,
}

/// Stub wrapper over a buffer whose magic marks it as a Windows PE binary.
pub struct PeBinary {
    blob: Blob,
}

impl View for PeBinary {
    type V = Seq<u8>;

    closed spec fn view(&self) -> Seq<u8> {
        self.blob@
    }
}

impl PeBinary {
    /// Accepts exactly the buffers classified as PE; anything else is
    /// rejected with `NoPeBinary`.
    pub fn new(blob: Blob) -> (r: Result<PeBinary, PeError>)
        ensures
            spec_classify(blob@) == BinaryType::Pe ==> r is Ok && r->Ok_0@ == blob@,
            spec_classify(blob@) != BinaryType::Pe ==> r == Err::<PeBinary, PeError>(
                PeError::NoPeBinary,
            ),
    {
        match blob.bin_type() {
            BinaryType::Pe => Ok(PeBinary { blob }),
            _ => Err(PeError::NoPeBinary),
        }
    }

    /// Identification rows shown for the PE stub.
    pub fn header_info(&self) -> (r: Vec<(String, String)>)
        ensures
            r@.len() == 1,
            r@[0].0@ == "Ident"@,
            r@[0].1@ == "Windows PE binary"@,
    {
        let mut info: Vec<(String, String)> = Vec::new();
        info.push((String::from_str("Ident"), String::from_str("Windows PE binary")));
        info
    }
}

} // verus!
