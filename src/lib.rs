//! Generates, from the `ExecuteMsg` and `QueryMsg` enums of a contract's
//! message file, a trait with one method per message and an implementation of
//! it for [`Robot`] that builds each message and dispatches it to a test app.
//!
//! The verified core works on plain declarations ([`EnumDecl`]); parsing the
//! source text and printing types is left to `syn`, `quote` and `proc-macro2`,
//! and case conversion to `inflections`.

use vstd::prelude::*;

pub mod descriptor;
pub mod extract;
pub mod naming;
pub mod render;
pub mod source;

pub use descriptor::{MsgArg, MsgDescr};
pub use extract::{EnumDecl, EnumVisitor, VariantDecl};
pub use naming::{interface_name, method_ident};
pub use render::{generate_from_declarations, render_document};
pub use source::{render_robot_code, GenerateError};

verus! {

/// The type that the generated trait is implemented for.
pub struct Robot {}

} // verus!
