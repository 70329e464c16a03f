//! The sampling stage that turns a located symbol into a module grid.

use vstd::prelude::*;

verus! {

/// Extract QR module data from a prepared image.
///
/// Sampling walks pixel coordinates under a perspective estimate, so the
/// pixel work happens in the caller's geometry; this type names the
/// stage, and the sampled grid comes back as a [`crate::qr::QRData`].
pub struct QRExtractor {}

impl QRExtractor {
    /// Construct a new QRExtractor
    pub fn new() -> (r: QRExtractor)
        ensures
            r == (QRExtractor {  }),
    {
        QRExtractor {  }
    }
}

} // verus!
