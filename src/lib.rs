//! Hardware monitoring values, bus identifiers and chip identities, with the
//! decisions that sit between callers and the sensors backend.

pub mod binary64;
pub mod bus;
pub mod chip;
pub mod errors;
pub mod feature;
pub mod session;
pub mod sub_feature;
pub mod value;

pub use crate::bus::Bus;
pub use crate::chip::ChipName;
pub use crate::value::Value;
