//! The modifier parser.
//!
//! An export modifier annotation is a list of arguments, each a bare key or a
//! `key = "value"` pair. The recognized keys are `name` (exposed-name or
//! operator override), `get` / `set` (getter or setter role for a property),
//! `pure` (the function does not mutate its receiver), `return_raw` (the
//! declared return type is already the fallible two-variant shape) and `skip`
//! (exclude the function). Anything else is malformed and aborts generation.

use vstd::prelude::*;
use vstd::string::StringExecFns;

use crate::decl::AttrArg;
use crate::errors::{GenError, GenErrorKind};

verus! {

/// The structured parameter set read from an export modifier annotation
/// (or inferred from visibility when no annotation is present).
#[derive(Debug, PartialEq, Eq)]
pub struct ExportedFnParams {
    /// Exposed-name or operator-symbol override (`name = "..."`).
    pub name: Option<String>,
    /// Property this function is a getter for (`get = "..."`).
    pub getter: Option<String>,
    /// Property this function is a setter for (`set = "..."`).
    pub setter: Option<String>,
    /// The function does not mutate its receiver (informational).
    pub pure_fn: bool,
    /// The declared return type is already the fallible two-variant shape.
    pub return_raw: bool,
    /// Exclude the function from the generated module.
    pub skip: bool,
}

/// The parameter set of a fully exported function with no overrides.
pub open spec fn spec_default_params() -> ExportedFnParams {
    ExportedFnParams {
        name: None,
        getter: None,
        setter: None,
        pure_fn: false,
        return_raw: false,
        skip: false,
    }
}

/// The parameter set of a function excluded from export.
pub open spec fn spec_skip_params() -> ExportedFnParams {
    ExportedFnParams { skip: true, ..spec_default_params() }
}

/// How one modifier argument updates the parameter set built so far.
pub open spec fn spec_apply_modifier(acc: ExportedFnParams, a: AttrArg) -> Result<
    ExportedFnParams,
    GenErrorKind,
> {
    if a.key@ == "skip"@ {
        if a.value is Some {
            Err(GenErrorKind::UnexpectedModifierValue)
        } else if acc.skip {
            Err(GenErrorKind::DuplicateModifierKey)
        } else {
            Ok(ExportedFnParams { skip: true, ..acc })
        }
    } else if a.key@ == "pure"@ {
        if a.value is Some {
            Err(GenErrorKind::UnexpectedModifierValue)
        } else if acc.pure_fn {
            Err(GenErrorKind::DuplicateModifierKey)
        } else {
            Ok(ExportedFnParams { pure_fn: true, ..acc })
        }
    } else if a.key@ == "return_raw"@ {
        if a.value is Some {
            Err(GenErrorKind::UnexpectedModifierValue)
        } else if acc.return_raw {
            Err(GenErrorKind::DuplicateModifierKey)
        } else {
            Ok(ExportedFnParams { return_raw: true, ..acc })
        }
    } else if a.key@ == "name"@ {
        match a.value {
            None => Err(GenErrorKind::MissingModifierValue),
            Some(v) => if v@.len() == 0 {
                Err(GenErrorKind::MissingModifierValue)
            } else if acc.name is Some {
                Err(GenErrorKind::DuplicateModifierKey)
            } else {
                Ok(ExportedFnParams { name: Some(v), ..acc })
            },
        }
    } else if a.key@ == "get"@ {
        match a.value {
            None => Err(GenErrorKind::MissingModifierValue),
            Some(v) => if v@.len() == 0 {
                Err(GenErrorKind::MissingModifierValue)
            } else if acc.getter is Some {
                Err(GenErrorKind::DuplicateModifierKey)
            } else if acc.setter is Some {
                Err(GenErrorKind::ConflictingRole)
            } else {
                Ok(ExportedFnParams { getter: Some(v), ..acc })
            },
        }
    } else if a.key@ == "set"@ {
        match a.value {
            None => Err(GenErrorKind::MissingModifierValue),
            Some(v) => if v@.len() == 0 {
                Err(GenErrorKind::MissingModifierValue)
            } else if acc.setter is Some {
                Err(GenErrorKind::DuplicateModifierKey)
            } else if acc.getter is Some {
                Err(GenErrorKind::ConflictingRole)
            } else {
                Ok(ExportedFnParams { setter: Some(v), ..acc })
            },
        }
    } else {
        Err(GenErrorKind::UnknownModifierKey)
    }
}

/// Folding the modifier arguments from position `i` onward over `acc`;
/// the first malformed argument aborts with its kind and position.
pub open spec fn spec_parse_modifiers_from(args: Seq<AttrArg>, i: int, acc: ExportedFnParams) -> Result<
    ExportedFnParams,
    (GenErrorKind, int),
>
    decreases args.len() - i,
{
    if !(0 <= i < args.len()) {
        Ok(acc)
    } else {
        match spec_apply_modifier(acc, args[i]) {
            Ok(acc2) => spec_parse_modifiers_from(args, i + 1, acc2),
            Err(k) => Err((k, i)),
        }
    }
}

/// What parsing a whole modifier argument list yields.
pub open spec fn spec_parse_modifiers(args: Seq<AttrArg>) -> Result<
    ExportedFnParams,
    (GenErrorKind, int),
> {
    spec_parse_modifiers_from(args, 0, spec_default_params())
}

/// Whether an executable string equals a key literal.
pub(crate) fn key_is(k: &String, lit: &str) -> (r: bool)
    ensures
        r == (k@ == lit@),
{
    let s = String::from_str(lit);
    *k == s
}

impl ExportedFnParams {
    /// The default parameter set of a publicly visible function without an
    /// annotation: a full export, nothing overridden.
    pub fn new_default() -> (r: ExportedFnParams)
        ensures
            r == spec_default_params(),
    {
        ExportedFnParams {
            name: None,
            getter: None,
            setter: None,
            pure_fn: false,
            return_raw: false,
            skip: false,
        }
    }

    /// The default parameter set of a non-public function without an
    /// annotation: excluded from export.
    pub fn new_skip() -> (r: ExportedFnParams)
        ensures
            r == spec_skip_params(),
    {
        ExportedFnParams { skip: true, ..ExportedFnParams::new_default() }
    }

    /// Parses an export modifier argument list into a parameter set.
    ///
    /// Fails on the first unknown key, missing or unexpected value,
    /// duplicated key, or conflicting getter/setter role; the failure carries
    /// `fn_name` as the offending declaration and the argument's position.
    pub fn parse(fn_name: &String, args: &Vec<AttrArg>) -> (r: Result<ExportedFnParams, GenError>)
        ensures
            match r {
                Ok(p) => spec_parse_modifiers(args@) == Ok::<ExportedFnParams, (GenErrorKind, int)>(
                    p,
                ),
                Err(e) => {
                    &&& e.fn_name == *fn_name
                    &&& spec_parse_modifiers(args@) == Err::<ExportedFnParams, (GenErrorKind, int)>(
                        (e.kind, e.index as int),
                    )
                },
            },
    {
        let mut acc = ExportedFnParams::new_default();
        let mut i: usize = 0;
        while i < args.len()
            invariant
                i <= args.len(),
                spec_parse_modifiers(args@) == spec_parse_modifiers_from(args@, i as int, acc),
            decreases args.len() - i,
        {
            let a = &args[i];
            let step: Result<ExportedFnParams, GenErrorKind> = if key_is(&a.key, "skip") {
                if a.value.is_some() {
                    Err(GenErrorKind::UnexpectedModifierValue)
                } else if acc.skip {
                    Err(GenErrorKind::DuplicateModifierKey)
                } else {
                    Ok(ExportedFnParams { skip: true, ..acc })
                }
            } else if key_is(&a.key, "pure") {
                if a.value.is_some() {
                    Err(GenErrorKind::UnexpectedModifierValue)
                } else if acc.pure_fn {
                    Err(GenErrorKind::DuplicateModifierKey)
                } else {
                    Ok(ExportedFnParams { pure_fn: true, ..acc })
                }
            } else if key_is(&a.key, "return_raw") {
                if a.value.is_some() {
                    Err(GenErrorKind::UnexpectedModifierValue)
                } else if acc.return_raw {
                    Err(GenErrorKind::DuplicateModifierKey)
                } else {
                    Ok(ExportedFnParams { return_raw: true, ..acc })
                }
            } else if key_is(&a.key, "name") {
                match &a.value {
                    None => Err(GenErrorKind::MissingModifierValue),
                    Some(v) => if v.as_str().is_empty() {
                        Err(GenErrorKind::MissingModifierValue)
                    } else if acc.name.is_some() {
                        Err(GenErrorKind::DuplicateModifierKey)
                    } else {
                        Ok(ExportedFnParams { name: Some(v.clone()), ..acc })
                    },
                }
            } else if key_is(&a.key, "get") {
                match &a.value {
                    None => Err(GenErrorKind::MissingModifierValue),
                    Some(v) => if v.as_str().is_empty() {
                        Err(GenErrorKind::MissingModifierValue)
                    } else if acc.getter.is_some() {
                        Err(GenErrorKind::DuplicateModifierKey)
                    } else if acc.setter.is_some() {
                        Err(GenErrorKind::ConflictingRole)
                    } else {
                        Ok(ExportedFnParams { getter: Some(v.clone()), ..acc })
                    },
                }
            } else if key_is(&a.key, "set") {
                match &a.value {
                    None => Err(GenErrorKind::MissingModifierValue),
                    Some(v) => if v.as_str().is_empty() {
                        Err(GenErrorKind::MissingModifierValue)
                    } else if acc.setter.is_some() {
                        Err(GenErrorKind::DuplicateModifierKey)
                    } else if acc.getter.is_some() {
                        Err(GenErrorKind::ConflictingRole)
                    } else {
                        Ok(ExportedFnParams { setter: Some(v.clone()), ..acc })
                    },
                }
            } else {
                Err(GenErrorKind::UnknownModifierKey)
            };
            proof {
                assert(step matches Ok(acc2) ==> spec_apply_modifier(acc, args@[i as int]) == Ok::<
                    ExportedFnParams,
                    GenErrorKind,
                >(acc2));
                assert(step matches Err(k) ==> spec_apply_modifier(acc, args@[i as int]) == Err::<
                    ExportedFnParams,
                    GenErrorKind,
                >(k));
            }
            match step {
                Ok(acc2) => {
                    acc = acc2;
                },
                Err(k) => {
                    return Err(GenError { kind: k, fn_name: fn_name.clone(), index: i });
                },
            }
            i = i + 1;
        }
        Ok(acc)
    }
}

} // verus!
