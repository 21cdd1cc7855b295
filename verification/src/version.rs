//! Defines the [PdfiumApiVersion] enum, the set of Pdfium API versions supported by this crate.

use vstd::prelude::*;

verus! {

/// A specific Pdfium FPDF_* API release version.
#[derive(Copy, Clone, Debug, PartialEq, Eq, Structural)]
pub enum PdfiumApiVersion {
    /// For changes published to Pdfium's repository but yet to be released in a binary.
    Future,
    V6721,
    V6666,
    V6611,
    V6569,
    V6555,
    V6490,
    V6406,
    V6337,
    V6295,
    V6259,
    V6164,
    V6124,
    V6110,
    V6084,
    V6043,
    V6015,
    V5961,
}

impl PdfiumApiVersion {
    /// Returns the Pdfium API version this crate is built against: the newest released
    /// version, 6721.
    pub fn current() -> (r: Self)
        ensures
            r == PdfiumApiVersion::V6721,
    {
        PdfiumApiVersion::V6721
    }
}

} // verus!
