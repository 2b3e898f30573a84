//! The core language package: value-tag access and function-metadata
//! introspection.
//!
//! These are the native functions the package exports to scripts: boolean
//! negation, reading and setting a boxed value's tag (with an exact range
//! check), and listing the script-defined functions reachable from a call
//! context.

use vstd::prelude::*;
use vstd::string::StrSliceExecFns;
use vstd::string::StringExecFns;

use crate::decimal::{i64_to_decimal, spec_int_dec};
use crate::decl::{Attr, AttrArg, DeclItem, DeclModule, FnDecl, ParamDecl, TypeExpr, Vis};
use crate::dynamic::{
    spec_position_none, Dynamic, DynamicValue, EvalAltResult, Position, RhaiResultOf, INT,
};
use crate::metadata::{FnMetadata, NativeCallContext, ScriptFnDef, ScriptModule, SubModule};

verus! {

/// The smallest value a tag can hold.
pub open spec fn spec_tag_min() -> int {
    -2147483648
}

/// The largest value a tag can hold.
pub open spec fn spec_tag_max() -> int {
    2147483647
}

/// The message rejecting a tag value below the range.
pub open spec fn spec_too_small_msg(tag: int) -> Seq<char> {
    spec_int_dec(tag)
        + " is too small to fit into a tag (must be between -2147483648 and 2147483647)"@
}

/// The message rejecting a tag value above the range.
pub open spec fn spec_too_large_msg(tag: int) -> Seq<char> {
    spec_int_dec(tag)
        + " is too large to fit into a tag (must be between -2147483648 and 2147483647)"@
}

/// Boolean negation, exported as the `!` operator.
pub fn not(x: bool) -> (r: bool)
    ensures
        r == !x,
{
    !x
}

/// Reads a value's tag; exported as a property getter, it borrows the value
/// without changing it.
pub fn get_tag(value: &mut Dynamic) -> (r: INT)
    ensures
        *final(value) == *old(value),
        r == old(value).tag as i64,
{
    value.tag() as INT
}

/// Attaches a tag to a value. A tag outside the representable range is
/// rejected with an arithmetic failure naming the value and the range; an
/// in-range tag is attached, leaving the payload untouched.
pub fn set_tag(value: &mut Dynamic, tag: INT) -> (r: RhaiResultOf<()>)
    ensures
        tag < spec_tag_min() ==> {
            &&& *final(value) == *old(value)
            &&& match r {
                Err(EvalAltResult::ErrorArithmetic(m, p)) => m@ == spec_too_small_msg(tag as int)
                    && p == spec_position_none(),
                _ => false,
            }
        },
        tag > spec_tag_max() ==> {
            &&& *final(value) == *old(value)
            &&& match r {
                Err(EvalAltResult::ErrorArithmetic(m, p)) => m@ == spec_too_large_msg(tag as int)
                    && p == spec_position_none(),
                _ => false,
            }
        },
        spec_tag_min() <= tag <= spec_tag_max() ==> {
            &&& r is Ok
            &&& final(value).tag as int == tag
            &&& final(value).value == old(value).value
        },
{
    if tag < -2147483648i64 {
        let msg = i64_to_decimal(tag).concat(
            " is too small to fit into a tag (must be between -2147483648 and 2147483647)",
        );
        Err(EvalAltResult::ErrorArithmetic(msg, Position::none()))
    } else if tag > 2147483647i64 {
        let msg = i64_to_decimal(tag).concat(
            " is too large to fit into a tag (must be between -2147483648 and 2147483647)",
        );
        Err(EvalAltResult::ErrorArithmetic(msg, Position::none()))
    } else {
        value.set_tag(tag as i32);
        Ok(())
    }
}

/// Whether a function name carries the reserved anonymous-function prefix.
pub open spec fn spec_is_anonymous(name: Seq<char>) -> bool {
    &&& name.len() >= 5
    &&& name[0] == 'a'
    &&& name[1] == 'n'
    &&& name[2] == 'o'
    &&& name[3] == 'n'
    &&& name[4] == '$'
}

/// Whether `rec` is the metadata record of `f` owned by namespace path
/// `e.0`.
pub open spec fn spec_meta_matches_ns(rec: FnMetadata, e: (Seq<char>, ScriptFnDef)) -> bool {
    &&& match rec.namespace {
        Some(s) => s@ == e.0,
        None => false,
    }
    &&& rec.name == e.1.name
    &&& rec.access == e.1.access
    &&& rec.is_anonymous == spec_is_anonymous(e.1.name@)
    &&& rec.params@ == e.1.params@
}

/// Whether `rec` is the metadata record of top-level function `f`.
pub open spec fn spec_meta_matches_global(rec: FnMetadata, f: ScriptFnDef) -> bool {
    &&& rec.namespace is None
    &&& rec.name == f.name
    &&& rec.access == f.access
    &&& rec.is_anonymous == spec_is_anonymous(f.name@)
    &&& rec.params@ == f.params@
}

/// The (namespace path, function) pairs a namespace contributes, own
/// functions first, then each nested namespace in order, its path extended
/// with the fixed `::` separator.
pub open spec fn spec_module_records(ns: Seq<char>, m: ScriptModule) -> Seq<
    (Seq<char>, ScriptFnDef),
>
    decreases m, 1int,
{
    m.fns@.map_values(|f: ScriptFnDef| (ns, f)) + spec_subs_records(ns, m, 0)
}

/// The pairs the nested namespaces of `m` contribute, from position `i` on.
pub open spec fn spec_subs_records(ns: Seq<char>, m: ScriptModule, i: int) -> Seq<
    (Seq<char>, ScriptFnDef),
>
    decreases m, 0int, m.sub_modules@.len() - i,
{
    if !(0 <= i < m.sub_modules@.len()) {
        Seq::empty()
    } else {
        spec_module_records(ns + "::"@ + m.sub_modules@[i].name@, m.sub_modules@[i].module)
            + spec_subs_records(ns, m, i + 1)
    }
}

/// The top-level functions the directly visible namespaces contribute,
/// from position `i` on.
pub open spec fn spec_global_fns(mods: Seq<ScriptModule>, i: int) -> Seq<ScriptFnDef>
    decreases mods.len() - i,
{
    if !(0 <= i < mods.len()) {
        Seq::empty()
    } else {
        mods[i].fns@ + spec_global_fns(mods, i + 1)
    }
}

/// The pairs the imported namespaces contribute, from position `i` on.
pub open spec fn spec_import_records(subs: Seq<SubModule>, i: int) -> Seq<(Seq<char>, ScriptFnDef)>
    decreases subs.len() - i,
{
    if !(0 <= i < subs.len()) {
        Seq::empty()
    } else {
        spec_module_records(subs[i].name@, subs[i].module) + spec_import_records(subs, i + 1)
    }
}

/// Whether a name carries the reserved anonymous-function prefix.
fn is_anonymous_name(s: &str) -> (r: bool)
    ensures
        r == spec_is_anonymous(s@),
{
    let n = s.unicode_len();
    if n < 5 {
        return false;
    }
    s.get_char(0) == 'a' && s.get_char(1) == 'n' && s.get_char(2) == 'o' && s.get_char(3) == 'n'
        && s.get_char(4) == '$'
}

/// An equal copy of a parameter-name list.
fn clone_string_vec(v: &Vec<String>) -> (r: Vec<String>)
    ensures
        r@ == v@,
{
    let mut r: Vec<String> = Vec::new();
    let mut i: usize = 0;
    while i < v.len()
        invariant
            i <= v.len(),
            r@ == v@.subrange(0, i as int),
        decreases v.len() - i,
    {
        r.push(v[i].clone());
        proof {
            assert(r@ =~= v@.subrange(0, i + 1));
        }
        i = i + 1;
    }
    proof {
        assert(r@ =~= v@);
    }
    r
}

/// Builds one metadata record.
fn make_metadata(namespace: Option<String>, f: &ScriptFnDef) -> (rec: FnMetadata)
    ensures
        rec.namespace == namespace,
        rec.name == f.name,
        rec.access == f.access,
        rec.is_anonymous == spec_is_anonymous(f.name@),
        rec.params@ == f.params@,
{
    FnMetadata {
        namespace,
        name: f.name.clone(),
        access: f.access,
        is_anonymous: is_anonymous_name(f.name.as_str()),
        params: clone_string_vec(&f.params),
    }
}

/// Appends one record per function reachable in `module`, recursing into
/// its nested namespaces with the path extended by `::`.
fn scan_module(list: &mut Vec<FnMetadata>, namespace: &String, module: &ScriptModule)
    ensures
        final(list)@.len() == old(list)@.len() + spec_module_records(namespace@, *module).len(),
        forall|k: int| 0 <= k < old(list)@.len() ==> final(list)@[k] == old(list)@[k],
        forall|k: int|
            0 <= k < spec_module_records(namespace@, *module).len() ==> spec_meta_matches_ns(
                #[trigger] final(list)@[old(list)@.len() + k],
                spec_module_records(namespace@, *module)[k],
            ),
    decreases *module,
{
    let ghost pre = list@;
    let ghost recs = spec_module_records(namespace@, *module);
    let ghost own = module.fns@.map_values(|f: ScriptFnDef| (namespace@, f));
    let mut i: usize = 0;
    while i < module.fns.len()
        invariant
            i <= module.fns@.len(),
            own == module.fns@.map_values(|f: ScriptFnDef| (namespace@, f)),
            list@.len() == pre.len() + i,
            forall|k: int| 0 <= k < pre.len() ==> list@[k] == pre[k],
            forall|k: int|
                0 <= k < i ==> spec_meta_matches_ns(#[trigger] list@[pre.len() + k], own[k]),
        decreases module.fns@.len() - i,
    {
        let rec = make_metadata(Some(namespace.clone()), &module.fns[i]);
        list.push(rec);
        i = i + 1;
    }
    let ghost mut sdone: Seq<(Seq<char>, ScriptFnDef)> = Seq::empty();
    let mut j: usize = 0;
    while j < module.sub_modules.len()
        invariant
            j <= module.sub_modules@.len(),
            own == module.fns@.map_values(|f: ScriptFnDef| (namespace@, f)),
            spec_subs_records(namespace@, *module, 0) == sdone + spec_subs_records(
                namespace@,
                *module,
                j as int,
            ),
            list@.len() == pre.len() + own.len() + sdone.len(),
            forall|k: int| 0 <= k < pre.len() ==> list@[k] == pre[k],
            forall|k: int|
                0 <= k < own.len() ==> spec_meta_matches_ns(#[trigger] list@[pre.len() + k], own[k]),
            forall|k: int|
                0 <= k < sdone.len() ==> spec_meta_matches_ns(
                    #[trigger] list@[pre.len() + own.len() + k],
                    sdone[k],
                ),
        decreases module.sub_modules@.len() - j,
    {
        let sub = &module.sub_modules[j];
        let sub_ns = namespace.clone().concat("::").concat(sub.name.as_str());
        proof {
            reveal_strlit("::");
            assert(sub_ns@ =~= namespace@ + "::"@ + sub.name@);
            assert(decreases_to!(module => module.sub_modules@[j as int].module));
        }
        let ghost list0 = list@;
        let ghost sdone0 = sdone;
        scan_module(list, &sub_ns, &sub.module);
        proof {
            let contributed = spec_module_records(sub_ns@, sub.module);
            assert(spec_subs_records(namespace@, *module, j as int) == contributed
                + spec_subs_records(namespace@, *module, j + 1));
            sdone = sdone0 + contributed;
            assert forall|k: int| 0 <= k < pre.len() implies list@[k] == pre[k] by {
                assert(list@[k] == list0[k]);
            }
            assert forall|k: int| 0 <= k < own.len() implies spec_meta_matches_ns(
                #[trigger] list@[pre.len() + k],
                own[k],
            ) by {
                assert(list@[pre.len() + k] == list0[pre.len() + k]);
            }
            assert forall|k: int| 0 <= k < sdone.len() implies spec_meta_matches_ns(
                #[trigger] list@[pre.len() + own.len() + k],
                sdone[k],
            ) by {
                if k < sdone0.len() {
                    assert(list@[pre.len() + own.len() + k] == list0[pre.len() + own.len() + k]);
                    assert(sdone[k] == sdone0[k]);
                } else {
                    let t = k - sdone0.len();
                    assert(spec_meta_matches_ns(list@[list0.len() + t], contributed[t]));
                    assert(sdone[k] == contributed[t]);
                    assert(list0.len() + t == pre.len() + own.len() + k);
                }
            }
        }
        j = j + 1;
    }
    proof {
        assert(spec_subs_records(namespace@, *module, module.sub_modules@.len() as int) =~= Seq::<
            (Seq<char>, ScriptFnDef),
        >::empty());
        assert(spec_subs_records(namespace@, *module, 0) =~= sdone);
        assert(recs =~= own + sdone);
        assert forall|k: int| 0 <= k < recs.len() implies spec_meta_matches_ns(
            #[trigger] list@[pre.len() + k],
            recs[k],
        ) by {
            if k < own.len() {
                assert(recs[k] == own[k]);
                assert(spec_meta_matches_ns(list@[pre.len() + k], own[k]));
            } else {
                let t = k - own.len();
                assert(recs[k] == sdone[t]);
                assert(spec_meta_matches_ns(list@[pre.len() + own.len() + t], sdone[t]));
                assert(pre.len() + own.len() + t == pre.len() + k);
            }
        }
    }
}

/// Whether `list` is the full introspection listing of `ctx`: the directly
/// visible namespaces' own functions first (no namespace path), then every
/// function of each imported namespace and its nested namespaces, paths
/// joined with `::`, in discovery order.
pub open spec fn spec_metadata_list_matches(list: Seq<FnMetadata>, ctx: NativeCallContext) -> bool {
    &&& list.len() == spec_global_fns(ctx.namespaces@, 0).len() + spec_import_records(
        ctx.imports@,
        0,
    ).len()
    &&& forall|k: int|
        0 <= k < spec_global_fns(ctx.namespaces@, 0).len() ==> spec_meta_matches_global(
            #[trigger] list[k],
            spec_global_fns(ctx.namespaces@, 0)[k],
        )
    &&& forall|k: int|
        0 <= k < spec_import_records(ctx.imports@, 0).len() ==> spec_meta_matches_ns(
            #[trigger] list[spec_global_fns(ctx.namespaces@, 0).len() + k],
            spec_import_records(ctx.imports@, 0)[k],
        )
}

/// Produces one metadata record per script-defined function reachable from
/// the call context: the directly visible namespaces' own functions first
/// (no namespace path), then every function of each imported namespace and
/// its nested namespaces, paths joined with `::`, in discovery order.
pub fn collect_fn_metadata(ctx: &NativeCallContext) -> (list: Vec<FnMetadata>)
    ensures
        spec_metadata_list_matches(list@, *ctx),
{
    let mut list: Vec<FnMetadata> = Vec::new();
    let ghost mut gdone: Seq<ScriptFnDef> = Seq::empty();
    let mut i: usize = 0;
    while i < ctx.namespaces.len()
        invariant
            i <= ctx.namespaces@.len(),
            spec_global_fns(ctx.namespaces@, 0) == gdone + spec_global_fns(
                ctx.namespaces@,
                i as int,
            ),
            list@.len() == gdone.len(),
            forall|k: int|
                0 <= k < gdone.len() ==> spec_meta_matches_global(#[trigger] list@[k], gdone[k]),
        decreases ctx.namespaces@.len() - i,
    {
        let m = &ctx.namespaces[i];
        let mut t: usize = 0;
        while t < m.fns.len()
            invariant
                t <= m.fns@.len(),
                list@.len() == gdone.len() + t,
                forall|k: int|
                    0 <= k < gdone.len() ==> spec_meta_matches_global(
                        #[trigger] list@[k],
                        gdone[k],
                    ),
                forall|k: int|
                    0 <= k < t ==> spec_meta_matches_global(
                        #[trigger] list@[gdone.len() + k],
                        m.fns@[k],
                    ),
            decreases m.fns@.len() - t,
        {
            let rec = make_metadata(None, &m.fns[t]);
            list.push(rec);
            t = t + 1;
        }
        proof {
            assert(spec_global_fns(ctx.namespaces@, i as int) == m.fns@ + spec_global_fns(
                ctx.namespaces@,
                i + 1,
            ));
            let gdone0 = gdone;
            gdone = gdone0 + m.fns@;
            assert forall|k: int| 0 <= k < gdone.len() implies spec_meta_matches_global(
                #[trigger] list@[k],
                gdone[k],
            ) by {
                if k >= gdone0.len() {
                    let t = k - gdone0.len();
                    assert(spec_meta_matches_global(list@[gdone0.len() + t], m.fns@[t]));
                    assert(gdone[k] == m.fns@[t]);
                }
            }
        }
        i = i + 1;
    }
    proof {
        assert(spec_global_fns(ctx.namespaces@, ctx.namespaces@.len() as int) =~= Seq::<
            ScriptFnDef,
        >::empty());
        assert(spec_global_fns(ctx.namespaces@, 0) =~= gdone);
    }
    let ghost glen = gdone.len();
    let ghost mut idone: Seq<(Seq<char>, ScriptFnDef)> = Seq::empty();
    let mut j: usize = 0;
    while j < ctx.imports.len()
        invariant
            j <= ctx.imports@.len(),
            glen == spec_global_fns(ctx.namespaces@, 0).len(),
            spec_import_records(ctx.imports@, 0) == idone + spec_import_records(
                ctx.imports@,
                j as int,
            ),
            list@.len() == glen + idone.len(),
            forall|k: int|
                0 <= k < glen ==> spec_meta_matches_global(
                    #[trigger] list@[k],
                    spec_global_fns(ctx.namespaces@, 0)[k],
                ),
            forall|k: int|
                0 <= k < idone.len() ==> spec_meta_matches_ns(
                    #[trigger] list@[glen + k],
                    idone[k],
                ),
        decreases ctx.imports@.len() - j,
    {
        let imp = &ctx.imports[j];
        let ghost list0 = list@;
        let ghost idone0 = idone;
        scan_module(&mut list, &imp.name, &imp.module);
        proof {
            let contributed = spec_module_records(imp.name@, imp.module);
            assert(spec_import_records(ctx.imports@, j as int) == contributed
                + spec_import_records(ctx.imports@, j + 1));
            idone = idone0 + contributed;
            assert forall|k: int| 0 <= k < glen implies spec_meta_matches_global(
                #[trigger] list@[k],
                spec_global_fns(ctx.namespaces@, 0)[k],
            ) by {
                assert(list@[k] == list0[k]);
            }
            assert forall|k: int| 0 <= k < idone.len() implies spec_meta_matches_ns(
                #[trigger] list@[glen + k],
                idone[k],
            ) by {
                if k < idone0.len() {
                    assert(list@[glen + k] == list0[glen + k]);
                    assert(idone[k] == idone0[k]);
                } else {
                    let t = k - idone0.len();
                    assert(spec_meta_matches_ns(list@[list0.len() + t], contributed[t]));
                    assert(idone[k] == contributed[t]);
                    assert(list0.len() + t == glen + k);
                }
            }
        }
        j = j + 1;
    }
    proof {
        assert(spec_import_records(ctx.imports@, ctx.imports@.len() as int) =~= Seq::<
            (Seq<char>, ScriptFnDef),
        >::empty());
        assert(spec_import_records(ctx.imports@, 0) =~= idone);
    }
    list
}

/// Lists the script-defined functions visible to a running script; exported
/// through the call-context parameter, which does not count toward its
/// arity.
pub fn get_fn_metadata_list(ctx: &NativeCallContext) -> (list: Vec<FnMetadata>)
    ensures
        spec_metadata_list_matches(list@, *ctx),
{
    collect_fn_metadata(ctx)
}

/// The declaration block of the core functions package, as handed to the
/// generator: the four native functions above with their export modifiers
/// (`!` as an operator, the tag accessors as a property getter and setter,
/// the raw-result marker on the setter, and the introspection entry with
/// its leading call-context parameter).
pub fn core_functions_decl() -> (d: DeclModule)
    ensures
        d.vis == Vis::Public,
        d.name@ == "core_functions"@,
        d.content is Some,
        d.content->Some_0@.len() == 4,
        (d.content->Some_0@[0] matches DeclItem::Fn(f) && f.name@ == "not"@),
        (d.content->Some_0@[1] matches DeclItem::Fn(f) && f.name@ == "get_tag"@),
        (d.content->Some_0@[2] matches DeclItem::Fn(f) && f.name@ == "set_tag"@),
        (d.content->Some_0@[3] matches DeclItem::Fn(f) && f.name@ == "get_fn_metadata_list"@),
{
    let not_decl = FnDecl {
        attrs: vec![
            Attr {
                name: String::from_str("rhai_fn"),
                args: vec![
                    AttrArg { key: String::from_str("name"), value: Some(String::from_str("!")) },
                ],
            },
        ],
        vis: Vis::Public,
        name: String::from_str("not"),
        params: vec![
            ParamDecl {
                name: String::from_str("x"),
                ty: TypeExpr::Path(String::from_str("bool")),
            },
        ],
        ret: Some(TypeExpr::Path(String::from_str("bool"))),
    };
    let get_tag_decl = FnDecl {
        attrs: vec![
            Attr {
                name: String::from_str("rhai_fn"),
                args: vec![
                    AttrArg { key: String::from_str("name"), value: Some(String::from_str("tag")) },
                    AttrArg { key: String::from_str("get"), value: Some(String::from_str("tag")) },
                    AttrArg { key: String::from_str("pure"), value: None },
                ],
            },
        ],
        vis: Vis::Public,
        name: String::from_str("get_tag"),
        params: vec![
            ParamDecl {
                name: String::from_str("value"),
                ty: TypeExpr::MutRef(Box::new(TypeExpr::Path(String::from_str("Dynamic")))),
            },
        ],
        ret: Some(TypeExpr::Path(String::from_str("INT"))),
    };
    let set_tag_decl = FnDecl {
        attrs: vec![
            Attr {
                name: String::from_str("rhai_fn"),
                args: vec![
                    AttrArg {
                        key: String::from_str("name"),
                        value: Some(String::from_str("set_tag")),
                    },
                    AttrArg { key: String::from_str("set"), value: Some(String::from_str("tag")) },
                    AttrArg { key: String::from_str("return_raw"), value: None },
                ],
            },
        ],
        vis: Vis::Public,
        name: String::from_str("set_tag"),
        params: vec![
            ParamDecl {
                name: String::from_str("value"),
                ty: TypeExpr::MutRef(Box::new(TypeExpr::Path(String::from_str("Dynamic")))),
            },
            ParamDecl {
                name: String::from_str("tag"),
                ty: TypeExpr::Path(String::from_str("INT")),
            },
        ],
        ret: Some(
            TypeExpr::ResultOf(
                Box::new(TypeExpr::Unit),
                Box::new(TypeExpr::Path(String::from_str("EvalAltResult"))),
            ),
        ),
    };
    let meta_decl = FnDecl {
        attrs: Vec::new(),
        vis: Vis::Public,
        name: String::from_str("get_fn_metadata_list"),
        params: vec![
            ParamDecl {
                name: String::from_str("ctx"),
                ty: TypeExpr::Path(String::from_str("NativeCallContext")),
            },
        ],
        ret: Some(TypeExpr::Path(String::from_str("Array"))),
    };
    DeclModule {
        vis: Vis::Public,
        name: String::from_str("core_functions"),
        content: Some(
            vec![
                DeclItem::Fn(not_decl),
                DeclItem::Fn(get_tag_decl),
                DeclItem::Fn(set_tag_decl),
                DeclItem::Fn(meta_decl),
            ],
        ),
    }
}

/// The stateless dispatchers emitted for the core functions, written out:
/// one value per exported function, implementing the uniform call
/// interface (arity-checked call, type-signature tokens, method-call flag,
/// fresh-construction clone).
#[derive(Clone, Copy, Debug, PartialEq, Eq, Structural)]
pub enum CoreFunctionToken {
    Not,
    GetTag,
    SetTag,
    GetFnMetadataList,
}

/// Replaces a failure's position with the call position when it carries
/// none — how a dispatcher tags a propagated failure.
fn fill_position(err: EvalAltResult, pos: Position) -> (r: EvalAltResult)
    ensures
        match err {
            EvalAltResult::ErrorArithmetic(m, p) => r == EvalAltResult::ErrorArithmetic(
                m,
                if p == spec_position_none() {
                    pos
                } else {
                    p
                },
            ),
        },
{
    match err {
        EvalAltResult::ErrorArithmetic(m, p) => {
            let filled = if p.is_none() {
                pos
            } else {
                p
            };
            EvalAltResult::ErrorArithmetic(m, filled)
        },
    }
}

impl CoreFunctionToken {
    /// The exposed arity the dispatcher asserts.
    pub fn arity(&self) -> (n: usize)
        ensures
            n == self.spec_arity(),
    {
        match self {
            CoreFunctionToken::Not => 1,
            CoreFunctionToken::GetTag => 1,
            CoreFunctionToken::SetTag => 2,
            CoreFunctionToken::GetFnMetadataList => 0,
        }
    }

    /// The exposed arity.
    pub open spec fn spec_arity(&self) -> usize {
        match self {
            CoreFunctionToken::Not => 1usize,
            CoreFunctionToken::GetTag => 1usize,
            CoreFunctionToken::SetTag => 2usize,
            CoreFunctionToken::GetFnMetadataList => 0usize,
        }
    }

    /// Whether the dispatcher borrows its first argument in place.
    pub fn is_method_call(&self) -> (r: bool)
        ensures
            r == (*self == CoreFunctionToken::GetTag || *self == CoreFunctionToken::SetTag),
    {
        match self {
            CoreFunctionToken::GetTag => true,
            CoreFunctionToken::SetTag => true,
            _ => false,
        }
    }

    /// A fresh dispatcher of the same function; dispatchers are stateless.
    pub fn clone_boxed(&self) -> (r: CoreFunctionToken)
        ensures
            r == *self,
    {
        *self
    }

    /// The ordered type-signature tokens of the non-context parameters.
    pub fn input_types(&self) -> (ts: Vec<String>)
        ensures
            ts@.len() == self.spec_arity(),
            *self == CoreFunctionToken::Not ==> ts@[0]@ == "bool"@,
            *self == CoreFunctionToken::GetTag ==> ts@[0]@ == "Dynamic"@,
            *self == CoreFunctionToken::SetTag ==> ts@[0]@ == "Dynamic"@ && ts@[1]@ == "INT"@,
    {
        let mut ts: Vec<String> = Vec::new();
        match self {
            CoreFunctionToken::Not => {
                ts.push(String::from_str("bool"));
            },
            CoreFunctionToken::GetTag => {
                ts.push(String::from_str("Dynamic"));
            },
            CoreFunctionToken::SetTag => {
                ts.push(String::from_str("Dynamic"));
                ts.push(String::from_str("INT"));
            },
            CoreFunctionToken::GetFnMetadataList => {},
        }
        ts
    }

    /// Receives a uniform type-erased call and translates it into the
    /// native call: asserts the arity, extracts each argument per its
    /// passing mode (by-value arguments are moved out of their slot,
    /// leaving a unit value; the method-call receiver is borrowed and
    /// written back), invokes the native function, and boxes a plain
    /// result or propagates a fallible result's failure tagged with the
    /// call position.
    pub fn call(
        &self,
        args: &mut Vec<Dynamic>,
        pos: Position,
        ctx: &NativeCallContext,
    ) -> (r: Result<Dynamic, EvalAltResult>)
        requires
            old(args)@.len() == self.spec_arity(),
            *self == CoreFunctionToken::Not ==> old(args)@[0].value matches DynamicValue::Bool(_),
            *self == CoreFunctionToken::SetTag ==> old(args)@[1].value matches DynamicValue::Int(
                _,
            ),
        ensures
            final(args)@.len() == old(args)@.len(),
            *self == CoreFunctionToken::Not ==> {
                &&& match r {
                    Ok(d) => d.value == DynamicValue::Bool(!old(args)@[0].value->Bool_0),
                    Err(_) => false,
                }
                &&& final(args)@[0].value == DynamicValue::Unit
            },
            *self == CoreFunctionToken::GetTag ==> {
                &&& match r {
                    Ok(d) => d.value == DynamicValue::Int(old(args)@[0].tag as i64),
                    Err(_) => false,
                }
                &&& final(args)@ == old(args)@
            },
            *self == CoreFunctionToken::SetTag ==> {
                let t = old(args)@[1].value->Int_0;
                &&& final(args)@[1].value == DynamicValue::Unit
                &&& spec_tag_min() <= t <= spec_tag_max() ==> {
                    &&& match r {
                        Ok(d) => d.value == DynamicValue::Unit,
                        Err(_) => false,
                    }
                    &&& final(args)@[0].tag as int == t
                    &&& final(args)@[0].value == old(args)@[0].value
                }
                &&& t < spec_tag_min() ==> {
                    &&& match r {
                        Ok(_) => false,
                        Err(EvalAltResult::ErrorArithmetic(m, p)) => m@ == spec_too_small_msg(
                            t as int,
                        ) && p == pos,
                    }
                    &&& final(args)@[0] == old(args)@[0]
                }
                &&& t > spec_tag_max() ==> {
                    &&& match r {
                        Ok(_) => false,
                        Err(EvalAltResult::ErrorArithmetic(m, p)) => m@ == spec_too_large_msg(
                            t as int,
                        ) && p == pos,
                    }
                    &&& final(args)@[0] == old(args)@[0]
                }
            },
            *self == CoreFunctionToken::GetFnMetadataList ==> {
                &&& match r {
                    Ok(d) => match d.value {
                        DynamicValue::Metadata(list) => spec_metadata_list_matches(list@, *ctx),
                        _ => false,
                    },
                    Err(_) => false,
                }
                &&& final(args)@ == old(args)@
            },
    {
        match self {
            CoreFunctionToken::Not => {
                let mut a0 = args.remove(0);
                let arg0 = a0.take();
                args.insert(0, a0);
                proof {
                    assert(args@ =~= old(args)@.update(
                        0,
                        Dynamic { value: DynamicValue::Unit, tag: 0 },
                    ));
                }
                let b = arg0.cast_bool();
                Ok(Dynamic::from_bool(not(b)))
            },
            CoreFunctionToken::GetTag => {
                let mut a0 = args.remove(0);
                let t = get_tag(&mut a0);
                args.insert(0, a0);
                proof {
                    assert(args@ =~= old(args)@);
                }
                Ok(Dynamic::from_int(t))
            },
            CoreFunctionToken::SetTag => {
                let mut a1 = args.remove(1);
                let arg1 = a1.take();
                args.insert(1, a1);
                let t = arg1.cast_int();
                let mut a0 = args.remove(0);
                let res = set_tag(&mut a0, t);
                args.insert(0, a0);
                match res {
                    Ok(_) => Ok(Dynamic::unit()),
                    Err(e) => Err(fill_position(e, pos)),
                }
            },
            CoreFunctionToken::GetFnMetadataList => {
                let list = get_fn_metadata_list(ctx);
                Ok(Dynamic { value: DynamicValue::Metadata(list), tag: 0 })
            },
        }
    }
}

} // verus!
