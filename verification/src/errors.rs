//! Generation-time failures.
//!
//! A declaration block either fully generates or fails as a whole: the first
//! malformed export modifier or unclassifiable parameter type aborts the run
//! with a failure naming the offending declaration.

use vstd::prelude::*;

verus! {

/// What went wrong while reading a declaration.
#[derive(Clone, Copy, Debug, PartialEq, Eq, Structural)]
pub enum GenErrorKind {
    /// An export modifier used a key the grammar does not know.
    UnknownModifierKey,
    /// A modifier key that needs a string value came without one, or with an
    /// empty one.
    MissingModifierValue,
    /// A modifier key that stands alone came with a value.
    UnexpectedModifierValue,
    /// The same modifier key was given twice.
    DuplicateModifierKey,
    /// A getter role and a setter role were both requested.
    ConflictingRole,
    /// A parameter's declared type fits no recognized passing mode.
    UnsupportedParamType,
    /// The declared return type fits neither the plain nor the fallible
    /// shape.
    UnsupportedReturnType,
}

/// A generation failure, tagged with the offending declaration's name and
/// the index (of a modifier argument or of a parameter) where it arose.
#[derive(Debug, PartialEq, Eq)]
pub struct GenError {
    pub kind: GenErrorKind,
    /// Name of the function declaration that failed.
    pub fn_name: String,
    /// Index of the offending modifier argument or parameter.
    pub index: usize,
}

} // verus!
