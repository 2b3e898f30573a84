//! The declaration model: what a block of native declarations looks like to
//! the generator.
//!
//! A declaration block is a named module holding function items, constant
//! items and other items carried through untouched. A function item carries
//! its attributes, visibility, name, parameters and return type; parameter
//! and return types are small type expressions (a named type, a reference,
//! a mutable reference, or a two-variant result shape).

use vstd::prelude::*;

verus! {

/// Source visibility of a declaration.
#[derive(Clone, Copy, Debug, PartialEq, Eq, Structural)]
pub enum Vis {
    Public,
    Private,
}

/// A declared static type, as written at a parameter or return position.
#[derive(Debug, PartialEq, Eq)]
pub enum TypeExpr {
    /// A named (path) type, held as its text, e.g. `INT`.
    Path(String),
    /// An immutable reference `&T`.
    Ref(Box<TypeExpr>),
    /// A mutable reference `&mut T`.
    MutRef(Box<TypeExpr>),
    /// A two-variant result shape with a success payload and a failure payload.
    ResultOf(Box<TypeExpr>, Box<TypeExpr>),
    /// The unit type `()`.
    Unit,
}

/// One argument of an attribute: a key, optionally with a string value,
/// e.g. `skip` or `name = "!"`.
#[derive(Debug, PartialEq, Eq)]
pub struct AttrArg {
    pub key: String,
    pub value: Option<String>,
}

/// An attribute attached to a function declaration, e.g. `#[rhai_fn(skip)]`.
#[derive(Debug, PartialEq, Eq)]
pub struct Attr {
    pub name: String,
    pub args: Vec<AttrArg>,
}

/// One declared parameter: its name and its declared type.
#[derive(Debug, PartialEq, Eq)]
pub struct ParamDecl {
    pub name: String,
    pub ty: TypeExpr,
}

/// A function declaration found in a declaration block.
#[derive(Debug, PartialEq, Eq)]
pub struct FnDecl {
    pub attrs: Vec<Attr>,
    pub vis: Vis,
    pub name: String,
    pub params: Vec<ParamDecl>,
    /// The declared return type; `None` when the declaration has no `->`.
    pub ret: Option<TypeExpr>,
}

/// A constant value expression: a literal the boxed-value constructor
/// understands.
#[derive(Debug, PartialEq, Eq)]
pub enum ConstExpr {
    IntLit(i64),
    BoolLit(bool),
    StrLit(String),
    UnitLit,
}

/// A constant declaration found in a declaration block.
#[derive(Debug, PartialEq, Eq)]
pub struct ConstDecl {
    pub vis: Vis,
    pub name: String,
    pub ty: TypeExpr,
    pub expr: ConstExpr,
}

/// One item directly inside a declaration block.
#[derive(Debug, PartialEq, Eq)]
pub enum DeclItem {
    Fn(FnDecl),
    Const(ConstDecl),
    /// Any other item (an import, a type alias, ...), carried through as text.
    Other(String),
}

impl TypeExpr {
    /// An equal copy of this type expression.
    pub fn duplicate(&self) -> (r: TypeExpr)
        ensures
            r == *self,
        decreases self,
    {
        match self {
            TypeExpr::Path(s) => TypeExpr::Path(s.clone()),
            TypeExpr::Ref(b) => TypeExpr::Ref(Box::new((**b).duplicate())),
            TypeExpr::MutRef(b) => TypeExpr::MutRef(Box::new((**b).duplicate())),
            TypeExpr::ResultOf(ok, e) => TypeExpr::ResultOf(
                Box::new((**ok).duplicate()),
                Box::new((**e).duplicate()),
            ),
            TypeExpr::Unit => TypeExpr::Unit,
        }
    }
}

impl ConstExpr {
    /// An equal copy of this constant expression.
    pub fn duplicate(&self) -> (r: ConstExpr)
        ensures
            r == *self,
    {
        match self {
            ConstExpr::IntLit(v) => ConstExpr::IntLit(*v),
            ConstExpr::BoolLit(b) => ConstExpr::BoolLit(*b),
            ConstExpr::StrLit(s) => ConstExpr::StrLit(s.clone()),
            ConstExpr::UnitLit => ConstExpr::UnitLit,
        }
    }
}

impl ParamDecl {
    /// An equal copy of this parameter declaration.
    pub fn duplicate(&self) -> (r: ParamDecl)
        ensures
            r == *self,
    {
        ParamDecl { name: self.name.clone(), ty: self.ty.duplicate() }
    }
}

/// An equal copy of a declared parameter list.
pub fn duplicate_params(ps: &Vec<ParamDecl>) -> (r: Vec<ParamDecl>)
    ensures
        r@ == ps@,
{
    let mut r: Vec<ParamDecl> = Vec::new();
    let mut i: usize = 0;
    while i < ps.len()
        invariant
            i <= ps.len(),
            r@ == ps@.subrange(0, i as int),
        decreases ps.len() - i,
    {
        r.push(ps[i].duplicate());
        proof {
            assert(r@ =~= ps@.subrange(0, i + 1));
        }
        i = i + 1;
    }
    proof {
        assert(r@ =~= ps@);
    }
    r
}

/// An equal copy of an optional return type.
pub fn duplicate_ret(ret: &Option<TypeExpr>) -> (r: Option<TypeExpr>)
    ensures
        r == *ret,
{
    match ret {
        None => None,
        Some(t) => Some(t.duplicate()),
    }
}

/// A whole declaration block: a module with an optional body.
#[derive(Debug, PartialEq, Eq)]
pub struct DeclModule {
    pub vis: Vis,
    pub name: String,
    /// `None` models a module declared without a body.
    pub content: Option<Vec<DeclItem>>,
}

} // verus!
