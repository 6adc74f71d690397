//! Checks of the declarations of a Rust/C++ bridge module.
//!
//! A bridge declares shared structs and enums, opaque types and functions
//! of either language, type aliases and explicit impls.  `check::typecheck`
//! reports every declared name, every written type and every declaration
//! that breaks one of the bridge's rules, each with the location of the
//! offending tokens and a message.  The checks are proved against the `spec_check_*` functions of
//! `check` and `ident`; `laws`, `type_laws`, `fn_laws` and `item_laws` state
//! what each check accepts and reports, and properties of the checks as a
//! whole.

pub mod atom;
pub mod syntax;
pub mod types;
pub mod report;
pub mod check;
pub mod ident;
pub mod laws;
pub mod type_laws;
pub mod fn_laws;
pub mod item_laws;
