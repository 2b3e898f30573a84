//! The boxed/tagged runtime value and the runtime failure type.
//!
//! A [`Dynamic`] is the single type-erased value exchanged across the
//! native/script boundary: a discriminated payload plus an arbitrary
//! attachable integer tag. A runtime failure carries a message and the call
//! position it is tagged with.

use vstd::prelude::*;

verus! {

/// The scripting runtime's integer type.
pub type INT = i64;

/// The type a value's attachable tag has.
pub type Tag = i32;

/// A source position token carried by calls and failures; line zero marks
/// the absence of a position.
#[derive(Clone, Copy, Debug, PartialEq, Eq, Structural)]
pub struct Position {
    pub line: u16,
    pub position: u16,
}

/// The no-position token.
pub open spec fn spec_position_none() -> Position {
    Position { line: 0, position: 0 }
}

impl Position {
    /// The no-position token.
    pub fn none() -> (p: Position)
        ensures
            p == spec_position_none(),
    {
        Position { line: 0, position: 0 }
    }

    /// Whether this token carries no position.
    pub fn is_none(&self) -> (r: bool)
        ensures
            r == (*self == spec_position_none()),
    {
        self.line == 0 && self.position == 0
    }
}

/// A runtime failure observable by the calling script.
#[derive(Debug, PartialEq, Eq)]
pub enum EvalAltResult {
    /// An arithmetic range failure, with its message and position.
    ErrorArithmetic(String, Position),
}

/// The result type of a fallible native function.
pub type RhaiResultOf<T> = Result<T, EvalAltResult>;

/// The discriminated payload of a boxed value.
#[derive(Debug, PartialEq, Eq)]
pub enum DynamicValue {
    Unit,
    Bool(bool),
    Int(i64),
    Str(String),
    Char(char),
    /// A boxed introspection listing, as the metadata export returns it.
    Metadata(Vec<crate::metadata::FnMetadata>),
}

/// The boxed/tagged value exchanged across the native/script boundary.
#[derive(Debug, PartialEq, Eq)]
pub struct Dynamic {
    pub value: DynamicValue,
    pub tag: Tag,
}

impl Dynamic {
    /// A unit value with the default tag.
    pub fn unit() -> (d: Dynamic)
        ensures
            d.value == DynamicValue::Unit,
            d.tag == 0,
    {
        Dynamic { value: DynamicValue::Unit, tag: 0 }
    }

    /// Boxes an integer, with the default tag.
    pub fn from_int(v: INT) -> (d: Dynamic)
        ensures
            d.value == DynamicValue::Int(v),
            d.tag == 0,
    {
        Dynamic { value: DynamicValue::Int(v), tag: 0 }
    }

    /// Boxes a boolean, with the default tag.
    pub fn from_bool(v: bool) -> (d: Dynamic)
        ensures
            d.value == DynamicValue::Bool(v),
            d.tag == 0,
    {
        Dynamic { value: DynamicValue::Bool(v), tag: 0 }
    }

    /// Boxes a string, with the default tag.
    pub fn from_string(v: String) -> (d: Dynamic)
        ensures
            d.value == DynamicValue::Str(v),
            d.tag == 0,
    {
        Dynamic { value: DynamicValue::Str(v), tag: 0 }
    }

    /// The value's attached tag.
    pub fn tag(&self) -> (t: Tag)
        ensures
            t == self.tag,
    {
        self.tag
    }

    /// Attaches a tag, leaving the payload untouched.
    pub fn set_tag(&mut self, t: Tag)
        ensures
            final(self).tag == t,
            final(self).value == old(self).value,
    {
        self.tag = t;
    }

    /// Moves the value out of its slot, leaving a default unit value — how
    /// a by-value argument is extracted from its argument slot.
    pub fn take(&mut self) -> (r: Dynamic)
        ensures
            r == *old(self),
            final(self).value == DynamicValue::Unit,
            final(self).tag == 0,
    {
        let mut out = Dynamic { value: DynamicValue::Unit, tag: 0 };
        core::mem::swap(self, &mut out);
        out
    }

    /// Downcasts to the runtime integer type.
    pub fn cast_int(self) -> (r: INT)
        requires
            self.value matches DynamicValue::Int(_),
        ensures
            self.value == DynamicValue::Int(r),
    {
        match self.value {
            DynamicValue::Int(v) => v,
            _ => 0,
        }
    }

    /// Downcasts to the boolean type.
    pub fn cast_bool(self) -> (r: bool)
        requires
            self.value matches DynamicValue::Bool(_),
        ensures
            self.value == DynamicValue::Bool(r),
    {
        match self.value {
            DynamicValue::Bool(v) => v,
            _ => false,
        }
    }
}

} // verus!
