//! A codec between ordered bit sequences and the packed form of a
//! column store's fixed-width BIT type, and the textual form the store
//! accepts back as a bit literal.

pub mod bits;
pub mod bitstring;

pub use bitstring::{Bitstring, BitstringError};
