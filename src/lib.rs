//! Data model of a small intermediate representation (programs made of
//! functions, labels and instructions) and its verified codec to and from a
//! structured document.
pub mod decode;
pub mod encode;
pub mod ir;
pub mod json;
pub mod laws;
pub mod ops;

pub use decode::{decode_program, DecodeError};
pub use encode::encode_program;
pub use ir::{Argument, Code, Function, Instruction, Literal, Program, Type};
pub use json::Json;
pub use ops::{Capabilities, ConstOps, EffectOps, ValueOps};
