//! The signature classifier.
//!
//! From a function declaration and its parsed modifier set, derive the full
//! exported-function description: each parameter's passing mode (by value,
//! by immutable reference, by mutable reference), a recognized leading
//! call-context parameter (invisible to arity and to the type signature),
//! the fallible-or-plain shape of the return type, the resolved role and
//! exposed name, and the method-call flag (a mutable-reference first
//! non-context parameter).

use vstd::prelude::*;
use vstd::string::StrSliceExecFns;
use vstd::string::StringExecFns;

use crate::decl::{duplicate_params, duplicate_ret, FnDecl, ParamDecl, TypeExpr, Vis};
use crate::errors::{GenError, GenErrorKind};
use crate::modifiers::ExportedFnParams;

verus! {

/// Access level of an exported function, mirrored from its declared
/// visibility.
#[derive(Clone, Copy, Debug, PartialEq, Eq, Structural)]
pub enum FnAccess {
    Public,
    Private,
}

/// How an argument is passed to the native function.
#[derive(Clone, Copy, Debug, PartialEq, Eq, Structural)]
pub enum ParamMode {
    /// The boxed value is moved out of its slot and downcast.
    ByValue,
    /// The boxed value is downcast and lent immutably.
    ByImmutableRef,
    /// The boxed value is borrowed in place, mutably.
    ByMutableRef,
}

/// The exported role of a function: a plain entry, a property getter or
/// setter, or an operator.
#[derive(Debug, PartialEq, Eq)]
pub enum FnRole {
    Plain,
    Getter(String),
    Setter(String),
    Operator(String),
}

/// The classification of one declared parameter: its type token, its
/// passing mode, and whether it is the out-of-band call-context parameter.
#[derive(Debug, PartialEq, Eq)]
pub struct ParamSpec {
    /// The type-signature token: the named type the boxed value must carry.
    pub static_type: String,
    pub mode: ParamMode,
    pub is_call_context: bool,
}

/// The classification of the return type: the success payload's type token
/// and whether the declared type is (or is marked as) the fallible
/// two-variant shape.
#[derive(Debug, PartialEq, Eq)]
pub struct ReturnSpec {
    pub static_type: String,
    pub is_fallible: bool,
}

/// A function retained for export, fully classified.
#[derive(Debug, PartialEq, Eq)]
pub struct ExportedFn {
    /// The native declaration's own name.
    pub name: String,
    pub access: FnAccess,
    /// The name the function registers under.
    pub exposed_name: String,
    pub role: FnRole,
    /// The modifier set this classification was derived from.
    pub params: ExportedFnParams,
    /// The declared parameters, call-context parameter included.
    pub decl_params: Vec<ParamDecl>,
    /// One classification per declared parameter, in declared order.
    pub param_specs: Vec<ParamSpec>,
    /// The declared return type; `None` when the declaration has no `->`.
    pub ret_decl: Option<TypeExpr>,
    pub return_spec: ReturnSpec,
    /// A mutable-reference first non-context parameter marks a method call.
    pub is_method_call: bool,
}

/// The access level a declared visibility maps to.
pub open spec fn spec_access_of(v: Vis) -> FnAccess {
    match v {
        Vis::Public => FnAccess::Public,
        Vis::Private => FnAccess::Private,
    }
}

/// Whether a declared type is the recognized call-context type.
pub open spec fn spec_is_context_type(t: TypeExpr) -> bool {
    match t {
        TypeExpr::Path(s) => s@ == "NativeCallContext"@,
        _ => false,
    }
}

/// The passing mode and base type a declared parameter type classifies to,
/// or `None` when the shape is unsupported (nested references, result or
/// unit shapes in parameter position).
pub open spec fn spec_param_shape(t: TypeExpr) -> Option<(ParamMode, String)> {
    match t {
        TypeExpr::Path(s) => Some((ParamMode::ByValue, s)),
        TypeExpr::Ref(b) => match *b {
            TypeExpr::Path(s) => Some((ParamMode::ByImmutableRef, s)),
            _ => None,
        },
        TypeExpr::MutRef(b) => match *b {
            TypeExpr::Path(s) => Some((ParamMode::ByMutableRef, s)),
            _ => None,
        },
        _ => None,
    }
}

/// Whether `tok` is the type token of the base type named `base`: string
/// types box as the runtime's immutable string type, everything else keeps
/// its own name.
pub open spec fn spec_token_matches(tok: Seq<char>, base: Seq<char>) -> bool {
    if base == "str"@ || base == "String"@ {
        tok == "ImmutableString"@
    } else {
        tok == base
    }
}

/// Whether parameter `i` of `ps` classifies (the leading parameter may be
/// the call-context type; every parameter must have a supported shape).
pub open spec fn spec_param_ok(ps: Seq<ParamDecl>, i: int) -> bool {
    if i == 0 && spec_is_context_type(ps[0].ty) {
        true
    } else {
        spec_param_shape(ps[i].ty) is Some
    }
}

/// The position of the first parameter that does not classify, from `i` on.
pub open spec fn spec_first_unsupported_from(ps: Seq<ParamDecl>, i: int) -> Option<int>
    decreases ps.len() - i,
{
    if !(0 <= i < ps.len()) {
        None
    } else if !spec_param_ok(ps, i) {
        Some(i)
    } else {
        spec_first_unsupported_from(ps, i + 1)
    }
}

/// The position of the first parameter that does not classify, if any.
pub open spec fn spec_first_unsupported(ps: Seq<ParamDecl>) -> Option<int> {
    spec_first_unsupported_from(ps, 0)
}

/// Whether the declaration's leading parameter is the call-context
/// parameter.
pub open spec fn spec_has_context(ps: Seq<ParamDecl>) -> bool {
    ps.len() > 0 && spec_is_context_type(ps[0].ty)
}

/// The exposed arity: the declared parameter count without the call-context
/// parameter.
pub open spec fn spec_arity(ps: Seq<ParamDecl>) -> int {
    if spec_has_context(ps) {
        ps.len() - 1
    } else {
        ps.len() as int
    }
}

/// Whether the first non-context parameter is a mutable reference.
pub open spec fn spec_is_method_call(ps: Seq<ParamDecl>) -> bool {
    let k: int = if spec_has_context(ps) {
        1
    } else {
        0
    };
    ps.len() > k && ps[k].ty matches TypeExpr::MutRef(_)
}

/// Whether `spec` is the right classification of declared parameter `i`.
pub open spec fn spec_param_classifies(ps: Seq<ParamDecl>, i: int, s: ParamSpec) -> bool {
    if i == 0 && spec_is_context_type(ps[0].ty) {
        &&& s.is_call_context
        &&& s.mode == ParamMode::ByValue
        &&& s.static_type@ == "NativeCallContext"@
    } else {
        match spec_param_shape(ps[i].ty) {
            Some((m, b)) => {
                &&& !s.is_call_context
                &&& s.mode == m
                &&& spec_token_matches(s.static_type@, b@)
            },
            None => false,
        }
    }
}

/// Whether the declared return type has a supported shape.
pub open spec fn spec_return_ok(ret: Option<TypeExpr>) -> bool {
    match ret {
        None => true,
        Some(t) => match t {
            TypeExpr::Path(_) => true,
            TypeExpr::Unit => true,
            TypeExpr::ResultOf(ok, _) => (*ok matches TypeExpr::Path(_)) || (
            *ok matches TypeExpr::Unit),
            _ => false,
        },
    }
}

/// Whether `rs` is the right classification of the declared return type,
/// given the `return_raw` marker.
pub open spec fn spec_return_classifies(ret: Option<TypeExpr>, raw: bool, rs: ReturnSpec) -> bool {
    match ret {
        None => rs.is_fallible == raw && rs.static_type@ == "()"@,
        Some(t) => match t {
            TypeExpr::Unit => rs.is_fallible == raw && rs.static_type@ == "()"@,
            TypeExpr::Path(s) => rs.is_fallible == raw && spec_token_matches(rs.static_type@, s@),
            TypeExpr::ResultOf(ok, _) => rs.is_fallible && match *ok {
                TypeExpr::Path(s) => spec_token_matches(rs.static_type@, s@),
                TypeExpr::Unit => rs.static_type@ == "()"@,
                _ => false,
            },
            _ => false,
        },
    }
}

/// Whether a name override is an ordinary identifier (letters, digits and
/// underscores, not starting with a digit); anything else is an operator
/// symbol.
pub open spec fn spec_is_ident(s: Seq<char>) -> bool {
    &&& s.len() > 0
    &&& spec_is_ident_start(s[0])
    &&& forall|i: int| 1 <= i < s.len() ==> spec_is_ident_char(#[trigger] s[i])
}

/// A letter or an underscore (by code point).
pub open spec fn spec_is_ident_start(c: char) -> bool {
    (97 <= c as int && c as int <= 122) || (65 <= c as int && c as int <= 90) || c == '_'
}

/// A letter, a digit or an underscore (by code point).
pub open spec fn spec_is_ident_char(c: char) -> bool {
    spec_is_ident_start(c) || (48 <= c as int && c as int <= 57)
}

/// Whether `role` and `exposed` are the resolved role and exposed name of a
/// function named `name` with modifier set `p`: a getter or setter role
/// registers under the accessor naming convention, an operator-symbol
/// override under its symbol, a plain override under the override, and
/// everything else under the native name.
pub open spec fn spec_role_resolves(
    name: Seq<char>,
    p: ExportedFnParams,
    role: FnRole,
    exposed: Seq<char>,
) -> bool {
    match p.getter {
        Some(prop) => role == FnRole::Getter(prop) && exposed == "get$"@ + prop@,
        None => match p.setter {
            Some(prop) => role == FnRole::Setter(prop) && exposed == "set$"@ + prop@,
            None => match p.name {
                Some(n) => if spec_is_ident(n@) {
                    role == FnRole::Plain && exposed == n@
                } else {
                    role == FnRole::Operator(n) && exposed == n@
                },
                None => role == FnRole::Plain && exposed == name,
            },
        },
    }
}

/// Whether `f` is the full classification of declaration `d` under modifier
/// set `p`.
pub open spec fn spec_classifies(d: FnDecl, p: ExportedFnParams, f: ExportedFn) -> bool {
    &&& f.name == d.name
    &&& f.access == spec_access_of(d.vis)
    &&& f.params == p
    &&& f.decl_params@ == d.params@
    &&& f.ret_decl == d.ret
    &&& spec_role_resolves(d.name@, p, f.role, f.exposed_name@)
    &&& f.param_specs@.len() == d.params@.len()
    &&& forall|i: int|
        0 <= i < d.params@.len() ==> spec_param_classifies(d.params@, i, #[trigger] f.param_specs@[i])
    &&& spec_return_classifies(d.ret, p.return_raw, f.return_spec)
    &&& f.is_method_call == spec_is_method_call(d.params@)
}

/// Whether classification of `d` succeeds at all.
pub open spec fn spec_classify_ok(d: FnDecl) -> bool {
    spec_first_unsupported(d.params@) is None && spec_return_ok(d.ret)
}

/// Whether `e` is the failure classification of `d` reports: the first
/// unsupported parameter, or else the unsupported return type.
pub open spec fn spec_classify_error(d: FnDecl, e: GenError) -> bool {
    &&& e.fn_name == d.name
    &&& match spec_first_unsupported(d.params@) {
        Some(i) => e.kind == GenErrorKind::UnsupportedParamType && e.index == i,
        None => e.kind == GenErrorKind::UnsupportedReturnType && e.index == d.params@.len()
            && !spec_return_ok(d.ret),
    }
}

/// A mutable-reference first (non-context) parameter marks the classified
/// function a method call; an immutable-reference or by-value first
/// parameter does not.
pub proof fn lemma_method_call_flag(d: FnDecl, p: ExportedFnParams, f: ExportedFn)
    requires
        spec_classifies(d, p, f),
    ensures
        f.is_method_call == spec_is_method_call(d.params@),
        ({
            let k: int = if spec_has_context(d.params@) {
                1
            } else {
                0
            };
            &&& (d.params@.len() > k && d.params@[k].ty matches TypeExpr::MutRef(_))
                ==> f.is_method_call
            &&& (d.params@.len() > k && !(d.params@[k].ty matches TypeExpr::MutRef(_)))
                ==> !f.is_method_call
            &&& d.params@.len() <= k ==> !f.is_method_call
        }),
{
}

proof fn lemma_first_unsupported_some(ps: Seq<ParamDecl>, k: int, i: int)
    requires
        0 <= k <= i < ps.len(),
        forall|j: int| k <= j < i ==> spec_param_ok(ps, j),
        !spec_param_ok(ps, i),
    ensures
        spec_first_unsupported_from(ps, k) == Some(i),
    decreases i - k,
{
    if k < i {
        lemma_first_unsupported_some(ps, k + 1, i);
    }
}

proof fn lemma_first_unsupported_none(ps: Seq<ParamDecl>, k: int)
    requires
        0 <= k,
        forall|j: int| k <= j < ps.len() ==> spec_param_ok(ps, j),
    ensures
        spec_first_unsupported_from(ps, k) is None,
    decreases ps.len() - k,
{
    if k < ps.len() {
        lemma_first_unsupported_none(ps, k + 1);
    }
}

/// The access level a declared visibility maps to.
pub fn access_of(v: Vis) -> (r: FnAccess)
    ensures
        r == spec_access_of(v),
{
    match v {
        Vis::Public => FnAccess::Public,
        Vis::Private => FnAccess::Private,
    }
}

/// Whether a declared type is the recognized call-context type.
fn is_context_type(t: &TypeExpr) -> (r: bool)
    ensures
        r == spec_is_context_type(*t),
{
    match t {
        TypeExpr::Path(s) => {
            let ctx = String::from_str("NativeCallContext");
            *s == ctx
        },
        _ => false,
    }
}

/// The type-signature token of a base type: string types box as the
/// runtime's immutable string type, everything else keeps its own name.
fn type_token(base: &String) -> (t: String)
    ensures
        spec_token_matches(t@, base@),
{
    let s1 = String::from_str("str");
    let s2 = String::from_str("String");
    if *base == s1 || *base == s2 {
        String::from_str("ImmutableString")
    } else {
        base.clone()
    }
}

fn is_ident_start_char(c: char) -> (r: bool)
    ensures
        r == spec_is_ident_start(c),
{
    let u = c as u32;
    (97 <= u && u <= 122) || (65 <= u && u <= 90) || c == '_'
}

fn is_ident_char(c: char) -> (r: bool)
    ensures
        r == spec_is_ident_char(c),
{
    let u = c as u32;
    is_ident_start_char(c) || (48 <= u && u <= 57)
}

/// Whether a name override is an ordinary identifier rather than an
/// operator symbol.
pub fn is_ident_str(s: &str) -> (r: bool)
    ensures
        r == spec_is_ident(s@),
{
    let n = s.unicode_len();
    if n == 0 {
        return false;
    }
    if !is_ident_start_char(s.get_char(0)) {
        return false;
    }
    let mut i: usize = 1;
    while i < n
        invariant
            1 <= i <= n,
            n == s@.len(),
            spec_is_ident_start(s@[0]),
            forall|j: int| 1 <= j < i ==> spec_is_ident_char(#[trigger] s@[j]),
        decreases n - i,
    {
        if !is_ident_char(s.get_char(i)) {
            return false;
        }
        i = i + 1;
    }
    true
}

impl ExportedFn {
    /// Classifies declaration `d` under the modifier set `params` into a
    /// full exported-function description.
    ///
    /// Fails on the first parameter whose declared type fits no recognized
    /// passing mode, or on a return type that fits neither the plain nor
    /// the fallible shape; the failure names the declaration and the
    /// offending position.
    pub fn from_decl(d: &FnDecl, params: ExportedFnParams) -> (r: Result<ExportedFn, GenError>)
        ensures
            r is Ok <==> spec_classify_ok(*d),
            match r {
                Ok(f) => spec_classifies(*d, params, f),
                Err(e) => spec_classify_error(*d, e),
            },
    {
        let n = d.params.len();
        let mut specs: Vec<ParamSpec> = Vec::new();
        let mut i: usize = 0;
        while i < n
            invariant
                i <= n,
                n == d.params@.len(),
                specs@.len() == i,
                forall|j: int| 0 <= j < i ==> spec_param_ok(d.params@, j),
                forall|j: int|
                    0 <= j < i ==> spec_param_classifies(d.params@, j, #[trigger] specs@[j]),
            decreases n - i,
        {
            let pd = &d.params[i];
            let s_opt: Option<ParamSpec> = if i == 0 && is_context_type(&pd.ty) {
                Some(
                    ParamSpec {
                        static_type: String::from_str("NativeCallContext"),
                        mode: ParamMode::ByValue,
                        is_call_context: true,
                    },
                )
            } else {
                match &pd.ty {
                    TypeExpr::Path(s) => Some(
                        ParamSpec {
                            static_type: type_token(s),
                            mode: ParamMode::ByValue,
                            is_call_context: false,
                        },
                    ),
                    TypeExpr::Ref(b) => match &**b {
                        TypeExpr::Path(s) => Some(
                            ParamSpec {
                                static_type: type_token(s),
                                mode: ParamMode::ByImmutableRef,
                                is_call_context: false,
                            },
                        ),
                        _ => None,
                    },
                    TypeExpr::MutRef(b) => match &**b {
                        TypeExpr::Path(s) => Some(
                            ParamSpec {
                                static_type: type_token(s),
                                mode: ParamMode::ByMutableRef,
                                is_call_context: false,
                            },
                        ),
                        _ => None,
                    },
                    _ => None,
                }
            };
            match s_opt {
                Some(s) => {
                    specs.push(s);
                },
                None => {
                    proof {
                        lemma_first_unsupported_some(d.params@, 0, i as int);
                    }
                    return Err(
                        GenError {
                            kind: GenErrorKind::UnsupportedParamType,
                            fn_name: d.name.clone(),
                            index: i,
                        },
                    );
                },
            }
            i = i + 1;
        }
        proof {
            lemma_first_unsupported_none(d.params@, 0);
        }
        let return_spec: ReturnSpec = match &d.ret {
            None => ReturnSpec {
                static_type: String::from_str("()"),
                is_fallible: params.return_raw,
            },
            Some(t) => match t {
                TypeExpr::Unit => ReturnSpec {
                    static_type: String::from_str("()"),
                    is_fallible: params.return_raw,
                },
                TypeExpr::Path(s) => ReturnSpec {
                    static_type: type_token(s),
                    is_fallible: params.return_raw,
                },
                TypeExpr::ResultOf(ok, _) => match &**ok {
                    TypeExpr::Path(s) => ReturnSpec { static_type: type_token(s), is_fallible: true },
                    TypeExpr::Unit => ReturnSpec {
                        static_type: String::from_str("()"),
                        is_fallible: true,
                    },
                    _ => {
                        return Err(
                            GenError {
                                kind: GenErrorKind::UnsupportedReturnType,
                                fn_name: d.name.clone(),
                                index: n,
                            },
                        );
                    },
                },
                _ => {
                    return Err(
                        GenError {
                            kind: GenErrorKind::UnsupportedReturnType,
                            fn_name: d.name.clone(),
                            index: n,
                        },
                    );
                },
            },
        };
        let role: FnRole;
        let exposed: String;
        if let Some(prop) = &params.getter {
            role = FnRole::Getter(prop.clone());
            exposed = String::from_str("get$").concat(prop.as_str());
        } else if let Some(prop) = &params.setter {
            role = FnRole::Setter(prop.clone());
            exposed = String::from_str("set$").concat(prop.as_str());
        } else if let Some(nm) = &params.name {
            if is_ident_str(nm.as_str()) {
                role = FnRole::Plain;
                exposed = nm.clone();
            } else {
                role = FnRole::Operator(nm.clone());
                exposed = nm.clone();
            }
        } else {
            role = FnRole::Plain;
            exposed = d.name.clone();
        }
        let has_ctx = d.params.len() > 0 && is_context_type(&d.params[0].ty);
        let k: usize = if has_ctx {
            1
        } else {
            0
        };
        let is_method_call = if d.params.len() > k {
            match &d.params[k].ty {
                TypeExpr::MutRef(_) => true,
                _ => false,
            }
        } else {
            false
        };
        Ok(
            ExportedFn {
                name: d.name.clone(),
                access: access_of(d.vis),
                exposed_name: exposed,
                role,
                params,
                decl_params: duplicate_params(&d.params),
                param_specs: specs,
                ret_decl: duplicate_ret(&d.ret),
                return_spec,
                is_method_call,
            },
        )
    }

    /// The native declaration's name.
    pub fn name(&self) -> (r: &String)
        ensures
            *r == self.name,
    {
        &self.name
    }

    /// The exposed arity: declared parameters without the call-context
    /// parameter.
    pub fn arg_count(&self) -> (r: usize)
        ensures
            r as int == spec_arity(self.decl_params@),
    {
        let has_ctx = self.decl_params.len() > 0 && is_context_type(&self.decl_params[0].ty);
        if has_ctx {
            self.decl_params.len() - 1
        } else {
            self.decl_params.len()
        }
    }

    /// The declared parameter list, call-context parameter included.
    pub fn arg_list(&self) -> (r: &Vec<ParamDecl>)
        ensures
            r@ == self.decl_params@,
    {
        &self.decl_params
    }

    /// The declared return type, when the declaration has one.
    pub fn return_type(&self) -> (r: Option<&TypeExpr>)
        ensures
            match r {
                Some(t) => self.ret_decl == Some(*t),
                None => self.ret_decl is None,
            },
    {
        match &self.ret_decl {
            Some(t) => Some(t),
            None => None,
        }
    }
}

} // verus!
