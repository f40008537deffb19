//! The concrete coded failures this crate can raise. Each is a small
//! immutable value holding exactly the tokens needed to render its
//! diagnostic, and implements the [`Code`](crate::reporting::Code)
//! contract.

pub mod bcle3_workshop_mod_not_found;
pub mod pe14_include_unexpected_suffix;
pub mod pe17_double_else;
pub mod pe18_eoi_ifstate;
pub mod pe19_pragma_unknown;
