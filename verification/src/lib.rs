//! A two-pass assembler and an execution engine for a small machine whose
//! words are ten decimal digits.

pub mod assembler;
pub mod codec;
pub mod cpu;
pub mod encoder;
pub mod error;
pub mod labels;
pub mod line;
pub mod ram;
pub mod resolver;
pub mod source;
pub mod text;
