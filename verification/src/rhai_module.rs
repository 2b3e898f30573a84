//! The adapter emitter and its registration descriptor.
//!
//! For each retained function the emitter produces a dispatch entry: the
//! target function, the exposed arity, the per-argument passing modes and
//! type-signature tokens (call-context parameter excluded), the method-call
//! flag and the return shape. For each retained constant it produces one
//! registration of the declared name and literal value. A consumer renders
//! the descriptor into target-language source, or loads it directly.

use vstd::prelude::*;

use crate::decl::{ConstExpr, DeclItem, FnDecl};
use crate::function::{
    spec_arity, spec_classifies, spec_has_context, spec_param_classifies, spec_param_shape,
    spec_token_matches, ExportedFn, FnAccess, ParamMode, ParamSpec,
};
use crate::modifiers::ExportedFnParams;

verus! {

/// A constant retained for registration: its declared name and its literal
/// value expression.
pub type ExportedConst = (String, ConstExpr);

/// The dispatch entry emitted for one exported function: everything its
/// uniform-call adapter needs to receive a type-erased call and translate it
/// into a native call.
#[derive(Debug, PartialEq, Eq)]
pub struct DispatcherDef {
    /// The native function the adapter invokes.
    pub target: String,
    /// The exposed argument count the adapter asserts before extracting.
    pub arity: usize,
    /// How each argument is extracted, in declared order.
    pub modes: Vec<ParamMode>,
    /// The type token each argument slot must carry, in declared order.
    pub arg_types: Vec<String>,
    /// Whether a call-context argument is reinserted at its leading
    /// position, supplied out-of-band by the call interface.
    pub has_context: bool,
    /// Whether the first non-context argument is borrowed in place.
    pub is_method_call: bool,
    /// Whether the native return is the fallible two-variant shape whose
    /// failure is propagated, tagged with the call position.
    pub is_fallible: bool,
    /// The success payload's type token.
    pub return_type: String,
}

/// One function registration: the exposed name, access level and type
/// signature under which the dispatch entry is inserted.
#[derive(Debug, PartialEq, Eq)]
pub struct FnRegistration {
    pub exposed_name: String,
    pub access: FnAccess,
    /// The type signature: one token per non-context parameter, in order.
    pub arg_types: Vec<String>,
    pub dispatcher: DispatcherDef,
}

/// One constant registration: the declared name and its literal value.
#[derive(Debug, PartialEq, Eq)]
pub struct ConstRegistration {
    pub name: String,
    pub value: ConstExpr,
}

/// The generated unit: the original declarations (consumed modifiers
/// detached) plus the registrations the registration routine issues, in
/// declaration order.
#[derive(Debug, PartialEq, Eq)]
pub struct GeneratedModule {
    pub name: String,
    pub content: Vec<DeclItem>,
    pub fn_regs: Vec<FnRegistration>,
    pub const_regs: Vec<ConstRegistration>,
}

/// The classifications of the exposed (non-context) parameters, in order.
pub open spec fn spec_input_specs(f: ExportedFn) -> Seq<ParamSpec> {
    if f.param_specs@.len() > 0 && f.param_specs@[0].is_call_context {
        f.param_specs@.drop_first()
    } else {
        f.param_specs@
    }
}

/// Whether `d` is the dispatch entry of `f`.
pub open spec fn spec_disp_matches(d: DispatcherDef, f: ExportedFn) -> bool {
    &&& d.target == f.name
    &&& d.arity == spec_input_specs(f).len()
    &&& d.modes@.len() == spec_input_specs(f).len()
    &&& forall|i: int|
        0 <= i < d.modes@.len() ==> #[trigger] d.modes@[i] == spec_input_specs(f)[i].mode
    &&& d.arg_types@.len() == spec_input_specs(f).len()
    &&& forall|i: int|
        0 <= i < d.arg_types@.len() ==> #[trigger] d.arg_types@[i] == spec_input_specs(
            f,
        )[i].static_type
    &&& d.has_context == (f.param_specs@.len() > 0 && f.param_specs@[0].is_call_context)
    &&& d.is_method_call == f.is_method_call
    &&& d.is_fallible == f.return_spec.is_fallible
    &&& d.return_type == f.return_spec.static_type
}

/// Whether `r` is the registration of `f`.
pub open spec fn spec_reg_matches(r: FnRegistration, f: ExportedFn) -> bool {
    &&& r.exposed_name == f.exposed_name
    &&& r.access == f.access
    &&& r.arg_types@.len() == spec_input_specs(f).len()
    &&& forall|i: int|
        0 <= i < r.arg_types@.len() ==> #[trigger] r.arg_types@[i] == spec_input_specs(
            f,
        )[i].static_type
    &&& spec_disp_matches(r.dispatcher, f)
}

/// The registration of one exported function.
fn make_fn_registration(f: &ExportedFn) -> (r: FnRegistration)
    ensures
        spec_reg_matches(r, *f),
{
    let has_context = f.param_specs.len() > 0 && f.param_specs[0].is_call_context;
    let k: usize = if has_context {
        1
    } else {
        0
    };
    let n = f.param_specs.len();
    let mut modes: Vec<ParamMode> = Vec::new();
    let mut arg_types: Vec<String> = Vec::new();
    let mut sig_types: Vec<String> = Vec::new();
    let mut j: usize = k;
    proof {
        assert(spec_input_specs(*f).len() == n - k);
        assert(forall|t: int|
            0 <= t < n - k ==> #[trigger] spec_input_specs(*f)[t] == f.param_specs@[t + k]);
    }
    while j < n
        invariant
            k <= j <= n,
            k <= 1,
            n == f.param_specs@.len(),
            spec_input_specs(*f).len() == n - k,
            forall|t: int|
                0 <= t < n - k ==> #[trigger] spec_input_specs(*f)[t] == f.param_specs@[t + k],
            modes@.len() == j - k,
            forall|t: int|
                0 <= t < j - k ==> #[trigger] modes@[t] == spec_input_specs(*f)[t].mode,
            arg_types@.len() == j - k,
            forall|t: int|
                0 <= t < j - k ==> #[trigger] arg_types@[t] == spec_input_specs(*f)[t].static_type,
            sig_types@.len() == j - k,
            forall|t: int|
                0 <= t < j - k ==> #[trigger] sig_types@[t] == spec_input_specs(*f)[t].static_type,
        decreases n - j,
    {
        let s = &f.param_specs[j];
        modes.push(s.mode);
        arg_types.push(s.static_type.clone());
        sig_types.push(s.static_type.clone());
        j = j + 1;
    }
    let arity = n - k;
    FnRegistration {
        exposed_name: f.exposed_name.clone(),
        access: f.access,
        arg_types: sig_types,
        dispatcher: DispatcherDef {
            target: f.name.clone(),
            arity,
            modes,
            arg_types,
            has_context,
            is_method_call: f.is_method_call,
            is_fallible: f.return_spec.is_fallible,
            return_type: f.return_spec.static_type.clone(),
        },
    }
}

/// Emits the registrations of an assembled module's functions and
/// constants: one dispatch entry and registration per retained function,
/// one registration per retained constant, in declaration order.
pub fn generate_body(fns: &Vec<ExportedFn>, consts: &Vec<ExportedConst>) -> (r: (
    Vec<FnRegistration>,
    Vec<ConstRegistration>,
))
    ensures
        r.0@.len() == fns@.len(),
        forall|i: int| 0 <= i < fns@.len() ==> spec_reg_matches(#[trigger] r.0@[i], fns@[i]),
        r.1@.len() == consts@.len(),
        forall|i: int|
            0 <= i < consts@.len() ==> (#[trigger] r.1@[i]).name == consts@[i].0 && r.1@[i].value
                == consts@[i].1,
{
    let mut fn_regs: Vec<FnRegistration> = Vec::new();
    let mut i: usize = 0;
    while i < fns.len()
        invariant
            i <= fns@.len(),
            fn_regs@.len() == i,
            forall|t: int| 0 <= t < i ==> spec_reg_matches(#[trigger] fn_regs@[t], fns@[t]),
        decreases fns@.len() - i,
    {
        fn_regs.push(make_fn_registration(&fns[i]));
        i = i + 1;
    }
    let mut const_regs: Vec<ConstRegistration> = Vec::new();
    let mut j: usize = 0;
    while j < consts.len()
        invariant
            j <= consts@.len(),
            const_regs@.len() == j,
            forall|t: int|
                0 <= t < j ==> (#[trigger] const_regs@[t]).name == consts@[t].0
                    && const_regs@[t].value == consts@[t].1,
        decreases consts@.len() - j,
    {
        const_regs.push(
            ConstRegistration { name: consts[j].0.clone(), value: consts[j].1.duplicate() },
        );
        j = j + 1;
    }
    (fn_regs, const_regs)
}

/// The views of a token list.
pub open spec fn spec_token_views(ts: Seq<String>) -> Seq<Seq<char>> {
    ts.map_values(|s: String| s@)
}

/// The token views of a parameter-classification list.
pub open spec fn spec_spec_token_views(ps: Seq<ParamSpec>) -> Seq<Seq<char>> {
    ps.map_values(|s: ParamSpec| s.static_type@)
}

/// Whether the `i`-th signature token of `r` is the token of the `i`-th
/// non-context parameter that `d` declares.
pub open spec fn spec_sig_token_from_decl(d: FnDecl, r: FnRegistration, i: int) -> bool {
    let k: int = if spec_has_context(d.params@) {
        1
    } else {
        0
    };
    &&& spec_param_shape(d.params@[i + k].ty) is Some
    &&& spec_token_matches(r.arg_types@[i]@, spec_param_shape(d.params@[i + k].ty)->Some_0.1@)
}

/// For every function declaration, the generated type signature is as long
/// as the declaration's non-context parameter count, and each of its tokens
/// is the token of the corresponding declared parameter's static type.
pub proof fn lemma_type_signature_matches_declaration(
    d: FnDecl,
    p: ExportedFnParams,
    f: ExportedFn,
    r: FnRegistration,
)
    requires
        spec_classifies(d, p, f),
        spec_reg_matches(r, f),
    ensures
        r.arg_types@.len() == spec_arity(d.params@),
        forall|i: int| 0 <= i < r.arg_types@.len() ==> #[trigger] spec_sig_token_from_decl(d, r, i),
{
    let ps = d.params@;
    let k: int = if spec_has_context(ps) {
        1
    } else {
        0
    };
    assert(f.param_specs@.len() == ps.len());
    if ps.len() > 0 {
        assert(spec_param_classifies(ps, 0, f.param_specs@[0]));
        if spec_has_context(ps) {
            assert(f.param_specs@[0].is_call_context);
        } else {
            assert(!f.param_specs@[0].is_call_context);
        }
    }
    assert(spec_input_specs(f).len() == ps.len() - k);
    assert forall|i: int| 0 <= i < r.arg_types@.len() implies #[trigger] spec_sig_token_from_decl(
        d,
        r,
        i,
    ) by {
        assert(spec_input_specs(f)[i] == f.param_specs@[i + k]);
        assert(spec_param_classifies(ps, i + k, f.param_specs@[i + k]));
        assert(r.arg_types@[i] == f.param_specs@[i + k].static_type);
    }
}

/// Round trip: re-deriving (name, access, arity, type signature) from the
/// generated registrations yields the same tuples as the module
/// description they were generated from, for every module accepted without
/// failure.
pub proof fn lemma_generate_round_trip(m: crate::module::Module, g: GeneratedModule)
    requires
        crate::module::spec_module_generates(m, g),
    ensures
        g.fn_regs@.len() == m.fns@.len(),
        forall|i: int|
            0 <= i < m.fns@.len() ==> {
                let r = #[trigger] g.fn_regs@[i];
                let f = m.fns@[i];
                &&& r.exposed_name@ == f.exposed_name@
                &&& r.access == f.access
                &&& r.arg_types@.len() == spec_input_specs(f).len()
                &&& spec_token_views(r.arg_types@) == spec_spec_token_views(spec_input_specs(f))
            },
{
    assert forall|i: int| 0 <= i < m.fns@.len() implies {
        let r = #[trigger] g.fn_regs@[i];
        let f = m.fns@[i];
        &&& r.exposed_name@ == f.exposed_name@
        &&& r.access == f.access
        &&& r.arg_types@.len() == spec_input_specs(f).len()
        &&& spec_token_views(r.arg_types@) == spec_spec_token_views(spec_input_specs(f))
    } by {
        let r = g.fn_regs@[i];
        let f = m.fns@[i];
        assert(spec_reg_matches(r, f));
        assert(spec_token_views(r.arg_types@) =~= spec_spec_token_views(spec_input_specs(f)));
    }
}

/// The (exposed name, access, arity, type signature) of one registration,
/// as re-derived from the generated unit.
#[derive(Debug, PartialEq, Eq)]
pub struct FnSigInfo {
    pub name: String,
    pub access: FnAccess,
    pub arity: usize,
    pub arg_types: Vec<String>,
}

/// The signature tuple of one exported function, as the module description
/// states it.
pub fn fn_signature(f: &ExportedFn) -> (s: FnSigInfo)
    ensures
        s.name == f.exposed_name,
        s.access == f.access,
        s.arity == spec_input_specs(*f).len(),
        s.arg_types@.len() == spec_input_specs(*f).len(),
        forall|i: int|
            0 <= i < s.arg_types@.len() ==> #[trigger] s.arg_types@[i] == spec_input_specs(
                *f,
            )[i].static_type,
{
    let r = make_fn_registration(f);
    FnSigInfo {
        name: r.exposed_name,
        access: r.access,
        arity: r.dispatcher.arity,
        arg_types: r.arg_types,
    }
}

impl GeneratedModule {
    /// The signature tuples re-derived from the registrations, in order.
    pub fn derive_signatures(&self) -> (v: Vec<FnSigInfo>)
        ensures
            v@.len() == self.fn_regs@.len(),
            forall|i: int|
                0 <= i < v@.len() ==> {
                    let s = #[trigger] v@[i];
                    let r = self.fn_regs@[i];
                    &&& s.name == r.exposed_name
                    &&& s.access == r.access
                    &&& s.arity == r.arg_types@.len()
                    &&& s.arg_types@ == r.arg_types@
                },
    {
        let mut v: Vec<FnSigInfo> = Vec::new();
        let mut i: usize = 0;
        while i < self.fn_regs.len()
            invariant
                i <= self.fn_regs@.len(),
                v@.len() == i,
                forall|t: int|
                    0 <= t < i ==> {
                        let s = #[trigger] v@[t];
                        let r = self.fn_regs@[t];
                        &&& s.name == r.exposed_name
                        &&& s.access == r.access
                        &&& s.arity == r.arg_types@.len()
                        &&& s.arg_types@ == r.arg_types@
                    },
            decreases self.fn_regs@.len() - i,
        {
            let r = &self.fn_regs[i];
            let mut ts: Vec<String> = Vec::new();
            let mut j: usize = 0;
            while j < r.arg_types.len()
                invariant
                    j <= r.arg_types@.len(),
                    ts@.len() == j,
                    forall|t: int| 0 <= t < j ==> #[trigger] ts@[t] == r.arg_types@[t],
                decreases r.arg_types@.len() - j,
            {
                ts.push(r.arg_types[j].clone());
                j = j + 1;
            }
            proof {
                assert(ts@ =~= r.arg_types@);
            }
            v.push(
                FnSigInfo {
                    name: r.exposed_name.clone(),
                    access: r.access,
                    arity: ts.len(),
                    arg_types: ts,
                },
            );
            i = i + 1;
        }
        v
    }

    /// The dispatch entry of the `i`-th registered function, for reuse
    /// outside the registration routine.
    pub fn dispatcher(&self, i: usize) -> (r: &DispatcherDef)
        requires
            i < self.fn_regs@.len(),
        ensures
            *r == self.fn_regs@[i as int].dispatcher,
    {
        &self.fn_regs[i].dispatcher
    }

    /// The type signature of the `i`-th registered function, for reuse
    /// outside the registration routine.
    pub fn input_types(&self, i: usize) -> (r: &Vec<String>)
        requires
            i < self.fn_regs@.len(),
        ensures
            r@ == self.fn_regs@[i as int].arg_types@,
    {
        &self.fn_regs[i].arg_types
    }
}

} // verus!
