//! The descriptive vocabulary of function-metadata introspection: script
//! namespaces, the functions they hold, and the record produced for each.

use vstd::prelude::*;

use crate::function::FnAccess;

verus! {

/// A script-defined function as a namespace holds it: name, access level
/// and parameter names.
#[derive(Debug, PartialEq, Eq)]
pub struct ScriptFnDef {
    pub name: String,
    pub access: FnAccess,
    pub params: Vec<String>,
}

/// A nested namespace with the name it is reachable under.
#[derive(Debug, PartialEq, Eq)]
pub struct SubModule {
    pub name: String,
    pub module: ScriptModule,
}

/// A namespace holding script-defined functions and nested namespaces.
#[derive(Debug, PartialEq, Eq)]
pub struct ScriptModule {
    pub fns: Vec<ScriptFnDef>,
    pub sub_modules: Vec<SubModule>,
}

/// The call context's view of the visible namespaces: those in scope
/// directly, and the imported ones with the names they are reachable under.
#[derive(Debug, PartialEq, Eq)]
pub struct NativeCallContext {
    pub namespaces: Vec<ScriptModule>,
    pub imports: Vec<SubModule>,
}

/// One introspection record: owning namespace path (absent at top level),
/// name, access level, the anonymous-function flag, and the parameter
/// names.
#[derive(Debug, PartialEq, Eq)]
pub struct FnMetadata {
    pub namespace: Option<String>,
    pub name: String,
    pub access: FnAccess,
    pub is_anonymous: bool,
    pub params: Vec<String>,
}

} // verus!
