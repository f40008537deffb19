//! Preprocessor directive state tracking and coded diagnostics.
//!
//! The crate covers two coupled subsystems: the conditional-compilation
//! state machine that decides, token by token, whether source text is
//! emitted or suppressed (`ifstate`), and the reporting framework through
//! which every failure is surfaced as a stable code with a source-anchored
//! diagnostic (`reporting`, `codes`, `error`). Addon bookkeeping that the
//! surrounding build tooling shares sits in `addons`.

pub mod addons;
pub mod codes;
pub mod error;
pub mod ifstate;
pub mod reporting;
pub mod similar;
