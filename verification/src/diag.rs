//! Build-time diagnostics.
//!
//! Every failure of generation is a single structured diagnostic: a kind from
//! the fixed taxonomy below, together with a `syn::Error` that carries the
//! message and the span of the smallest offending syntactic region. The first
//! diagnostic aborts generation; no output is produced alongside one.
use vstd::prelude::*;

verus! {

/// The fixed taxonomy of generation failures.
#[derive(Clone, Copy, PartialEq, Eq, Structural, Debug)]
pub enum DiagKind {
    /// The block attributes name no width identifier.
    MissingWidth,
    /// The aggregate declaration carries generic parameters.
    GenericsUnsupported,
    /// A field has no identifier.
    UnnamedField,
    /// A field lacks an `offset(...)` attribute.
    MissingOffset,
    /// The payload of an `offset(...)` attribute is not a non-negative
    /// integer literal.
    MalformedOffset,
    /// The input tokens are not a valid expression list or not a valid
    /// struct declaration.
    SyntaxError,
}

/// One structured diagnostic: its kind, and the anchored error that the
/// enclosing compilation surfaces.
#[derive(Debug)]
pub struct Diagnostic {
    pub kind: DiagKind,
    pub error: syn::Error,
}

/// Message for a block attribute list without a width identifier.
pub const MSG_MISSING_WIDTH: &'static str =
    "Register's base type must be specified (u8, u16, u32, u64, u128)";

/// Message for a register profile declared with generic parameters.
pub const MSG_GENERICS_UNSUPPORTED: &'static str =
    "Generics for register profile is not supported";

/// Message for a register field without a name.
pub const MSG_UNNAMED_FIELD: &'static str = "Register's name must be specified";

/// Message for a register field without an `offset(...)` attribute.
pub const MSG_MISSING_OFFSET: &'static str = "offset for register must be specified";

} // verus!
