//! Decoding of AArch64 Exception Syndrome Register, Main ID Register and SMC Calling Convention
//! function identifier values into named, described bit fields.
use vstd::prelude::*;

pub mod esr;
pub mod field;
pub mod laws;
pub mod midr;
pub mod number;
pub mod smccc;
pub mod sysregs;
pub mod text;

pub use esr::decode;
pub use field::{DecodeError, FieldInfo};
pub use midr::decode_midr;
pub use number::parse_number;
pub use smccc::decode_smccc;
