//! Decoder for QR Code symbols.
//!
//! The crate takes a grayscale pixel grid, reduces it to black and white,
//! and decodes the QR symbols found in it: finder detection and module
//! sampling are left to callers working in pixel coordinates, while the
//! symbol pipeline from sampled modules to text — format information,
//! block extraction, Reed-Solomon correction and the bit-stream
//! interpreter — is verified here.

pub mod blockinfo;
pub mod blocks;
pub mod chomp;
pub mod correct;
pub mod data;
pub mod decoder;
pub mod detect;
pub mod extract;
pub mod format;
pub mod galois;
pub mod prepare;
pub mod qr;
