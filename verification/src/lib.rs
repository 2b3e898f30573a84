//! A declaration-driven export generator for embedding native functions in a
//! dynamically-typed scripting runtime.
//!
//! The crate reads a block of native function and constant declarations
//! together with a small set of export modifiers, classifies each function's
//! calling convention, assembles the retained items into a module description,
//! and emits a registration descriptor: one dispatch entry per function (with
//! its arity, argument passing modes and type-signature tokens) and one
//! registration per public constant.

pub mod decimal;
pub mod decl;
pub mod dynamic;
pub mod errors;
pub mod function;
pub mod lang_core;
pub mod metadata;
pub mod modifiers;
pub mod module;
pub mod rhai_module;
