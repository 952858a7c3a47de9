//! Chilean identifier toolkit.
//!
//! The core recognises and normalizes vehicle plate codes (PPU), computes
//! the modulo-11 check character used by RUT numbers, validates a number
//! against a check character and generates distinct valid identifiers from
//! a seed. Beside it stand the rules that the clients of two public web
//! services follow when they build a request and read an answer; sending is
//! not done here.
//!
//! Every function states what it returns over a mathematical model: texts
//! are sequences of characters, numbers are integers, and each error type
//! has a view with the same cases.

pub mod std_specs;
pub mod errors;
pub mod text;
pub mod alphabet;
pub mod format;
pub mod normalize;
pub mod numeric;
pub mod checksum;
pub mod validator;
pub mod rng;
pub mod sample;
pub mod entropy;
pub mod generate;
pub mod ppu;
pub mod response_format;
pub mod cmf_response_format;
pub mod client;
pub mod settings;
pub mod payload;

pub use crate::checksum::calculate_verifier;
pub use crate::cmf_response_format::CmfResponseFormat;
pub use crate::errors::{ClientError, GenerateError, PpuError, VerifierError};
pub use crate::format::{get_ppu_format, PpuFormat};
pub use crate::generate::{generate, GeneratedPair};
pub use crate::normalize::normalize_ppu;
pub use crate::numeric::ppu_to_numeric;
pub use crate::ppu::Ppu;
pub use crate::response_format::ResponseFormat;
pub use crate::validator::{validate_rut, validate_rut_text};
