//! The register file and condition flags of the Sharp SM83 processor.
//!
//! Two components make up this crate: [`Flags`], a four-flag condition-code
//! set packed into the high nibble of a byte, and [`Registers`], the
//! processor's working-register file with its paired 16-bit views.

mod flags;
mod registers;

pub use flags::Flags;
pub use registers::Registers;
