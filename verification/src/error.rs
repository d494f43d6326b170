//! The ways in which writing the accessors can fail.

use vstd::prelude::*;

verus! {

/// Why no accessors were written. Each of these ends the whole run.
#[derive(Clone, Copy, Debug, PartialEq, Eq, Structural)]
pub enum GenerateError {
    /// The input is not a file of declarations.
    Syntax,
    /// Modules are nested deeper than the input has characters.
    NestingTooDeep,
    /// A field of a message has no annotation that names its kind.
    UnknownFieldKind,
    /// A field is annotated as optional and its type is not `Option` of one type.
    MalformedOptional,
}

} // verus!
