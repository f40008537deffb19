//! Tokens, severities, diagnostics and the `Code` contract that every
//! reportable failure in the toolchain implements.

pub mod code;
pub mod diagnostic;
pub mod severity;
pub mod text;
pub mod token;

pub use code::Code;
pub use diagnostic::Diagnostic;
pub use diagnostic::Label;
pub use severity::Severity;
pub use token::Position;
pub use token::Token;
