//! The declaration extractor and module assembler.
//!
//! [`Module::parse`] walks a declaration block, detaches and parses each
//! function's export modifier annotation (or infers defaults from its
//! visibility), classifies every retained function's signature, and collects
//! the retained functions and the public constants — in declaration order —
//! into one module description. The first malformed modifier or
//! unclassifiable signature aborts the whole block.

use vstd::prelude::*;

use crate::decl::{Attr, DeclItem, DeclModule, FnDecl, Vis};
use crate::errors::{GenError, GenErrorKind};
use crate::function::{
    spec_classifies, spec_classify_error, spec_classify_ok, ExportedFn,
};
use crate::modifiers::{
    key_is, spec_default_params, spec_parse_modifiers, spec_skip_params, ExportedFnParams,
};
use crate::rhai_module::{
    generate_body, spec_reg_matches, ExportedConst, GeneratedModule,
};

verus! {

/// An assembled module: the declaration block with consumed modifier
/// annotations detached, plus the retained functions and constants in
/// declaration order.
#[derive(Debug, PartialEq, Eq)]
pub struct Module {
    pub name: String,
    pub vis: Vis,
    /// The block's items, each function's export modifier detached;
    /// `None` when the block had no body.
    pub content: Option<Vec<DeclItem>>,
    /// The retained (non-skipped) functions, classified, in order.
    pub fns: Vec<ExportedFn>,
    /// The retained (public) constants, in order.
    pub consts: Vec<ExportedConst>,
}

/// The position of the first attribute that is an export modifier
/// annotation, searching from `i`.
pub open spec fn spec_export_attr_pos_from(attrs: Seq<Attr>, i: int) -> Option<int>
    decreases attrs.len() - i,
{
    if !(0 <= i < attrs.len()) {
        None
    } else if attrs[i].name@ == "rhai_fn"@ {
        Some(i)
    } else {
        spec_export_attr_pos_from(attrs, i + 1)
    }
}

/// The position of a function's export modifier annotation, if any.
pub open spec fn spec_export_attr_pos(attrs: Seq<Attr>) -> Option<int> {
    spec_export_attr_pos_from(attrs, 0)
}

/// The modifier set a function declaration yields: its annotation's parse
/// when one is attached, the visibility-derived default otherwise.
pub open spec fn spec_fn_params_outcome(f: FnDecl) -> Result<
    ExportedFnParams,
    (GenErrorKind, int),
> {
    match spec_export_attr_pos(f.attrs@) {
        Some(j) => spec_parse_modifiers(f.attrs@[j].args@),
        None => Ok(
            if f.vis == Vis::Public {
                spec_default_params()
            } else {
                spec_skip_params()
            },
        ),
    }
}

/// The modifier set of a declaration whose outcome is a success.
pub open spec fn spec_params_of(f: FnDecl) -> ExportedFnParams {
    spec_fn_params_outcome(f)->Ok_0
}

/// Whether `g` is `f` with its export modifier annotation detached (and
/// nothing else changed).
pub open spec fn spec_stripped(f: FnDecl, g: FnDecl) -> bool {
    &&& match spec_export_attr_pos(f.attrs@) {
        Some(j) => g.attrs@ == f.attrs@.remove(j),
        None => g.attrs@ == f.attrs@,
    }
    &&& g.vis == f.vis
    &&& g.name == f.name
    &&& g.params@ == f.params@
    &&& g.ret == f.ret
}

/// Whether `b` is `a` as it appears in the assembled block: functions with
/// the consumed annotation detached, everything else untouched.
pub open spec fn spec_item_strips(a: DeclItem, b: DeclItem) -> bool {
    match a {
        DeclItem::Fn(f) => match b {
            DeclItem::Fn(g) => spec_stripped(f, g),
            _ => false,
        },
        _ => b == a,
    }
}

/// Whether a function item passes extraction: its modifiers parse, and —
/// unless it is skipped — its signature classifies.
pub open spec fn spec_fn_item_ok(f: FnDecl) -> bool {
    match spec_fn_params_outcome(f) {
        Ok(p) => p.skip || spec_classify_ok(f),
        Err(_) => false,
    }
}

/// Whether an item passes extraction (non-function items always do).
pub open spec fn spec_item_ok(it: DeclItem) -> bool {
    match it {
        DeclItem::Fn(f) => spec_fn_item_ok(f),
        _ => true,
    }
}

/// The position of the first item that aborts extraction, from `i` on.
pub open spec fn spec_first_bad_from(items: Seq<DeclItem>, i: int) -> Option<int>
    decreases items.len() - i,
{
    if !(0 <= i < items.len()) {
        None
    } else if !spec_item_ok(items[i]) {
        Some(i)
    } else {
        spec_first_bad_from(items, i + 1)
    }
}

/// The position of the first item that aborts extraction, if any.
pub open spec fn spec_first_bad(items: Seq<DeclItem>) -> Option<int> {
    spec_first_bad_from(items, 0)
}

/// Whether a whole declaration block generates without failure.
pub open spec fn spec_module_ok(d: DeclModule) -> bool {
    match d.content {
        None => true,
        Some(items) => spec_first_bad(items@) is None,
    }
}

/// The function declarations retained for export (modifiers parse and do
/// not skip), in declaration order, from `i` on.
pub open spec fn spec_retained_from(items: Seq<DeclItem>, i: int) -> Seq<FnDecl>
    decreases items.len() - i,
{
    if !(0 <= i < items.len()) {
        Seq::empty()
    } else {
        let rest = spec_retained_from(items, i + 1);
        match items[i] {
            DeclItem::Fn(f) => match spec_fn_params_outcome(f) {
                Ok(p) => if !p.skip {
                    seq![f] + rest
                } else {
                    rest
                },
                Err(_) => rest,
            },
            _ => rest,
        }
    }
}

/// The function declarations retained for export, in declaration order.
pub open spec fn spec_retained(items: Seq<DeclItem>) -> Seq<FnDecl> {
    spec_retained_from(items, 0)
}

/// The public constant declarations, in declaration order, from `i` on.
pub open spec fn spec_pub_consts_from(items: Seq<DeclItem>, i: int) -> Seq<
    crate::decl::ConstDecl,
>
    decreases items.len() - i,
{
    if !(0 <= i < items.len()) {
        Seq::empty()
    } else {
        let rest = spec_pub_consts_from(items, i + 1);
        match items[i] {
            DeclItem::Const(c) => if c.vis == Vis::Public {
                seq![c] + rest
            } else {
                rest
            },
            _ => rest,
        }
    }
}

/// The public constant declarations, in declaration order.
pub open spec fn spec_pub_consts(items: Seq<DeclItem>) -> Seq<crate::decl::ConstDecl> {
    spec_pub_consts_from(items, 0)
}

/// Whether `e` is the failure item `it` reports.
pub open spec fn spec_item_error(it: DeclItem, e: GenError) -> bool {
    match it {
        DeclItem::Fn(f) => match spec_fn_params_outcome(f) {
            Err((k, idx)) => e.kind == k && e.fn_name == f.name && e.index == idx,
            Ok(p) => !p.skip && spec_classify_error(f, e),
        },
        _ => false,
    }
}

/// Whether `m` is the assembly of declaration block `d`: items preserved
/// (modifiers detached), retained functions classified in order, public
/// constants collected in order.
pub open spec fn spec_module_parses(d: DeclModule, m: Module) -> bool {
    &&& m.name == d.name
    &&& m.vis == d.vis
    &&& match (d.content, m.content) {
        (None, None) => m.fns@.len() == 0 && m.consts@.len() == 0,
        (Some(items), Some(out)) => {
            &&& out@.len() == items@.len()
            &&& forall|j: int|
                0 <= j < items@.len() ==> spec_item_strips(items@[j], #[trigger] out@[j])
            &&& m.fns@.len() == spec_retained(items@).len()
            &&& forall|j: int|
                0 <= j < m.fns@.len() ==> spec_classifies(
                    spec_retained(items@)[j],
                    spec_params_of(spec_retained(items@)[j]),
                    #[trigger] m.fns@[j],
                )
            &&& m.consts@.len() == spec_pub_consts(items@).len()
            &&& forall|j: int|
                0 <= j < m.consts@.len() ==> (#[trigger] m.consts@[j]).0
                    == spec_pub_consts(items@)[j].name && m.consts@[j].1 == spec_pub_consts(
                    items@,
                )[j].expr
        },
        _ => false,
    }
}

/// Whether `g` is the generated unit of assembled module `m`: the block's
/// items carried through, one registration per retained function and
/// constant, in order.
pub open spec fn spec_module_generates(m: Module, g: GeneratedModule) -> bool {
    &&& g.name == m.name
    &&& g.content@ == m.content->Some_0@
    &&& g.fn_regs@.len() == m.fns@.len()
    &&& forall|i: int|
        0 <= i < m.fns@.len() ==> spec_reg_matches(#[trigger] g.fn_regs@[i], m.fns@[i])
    &&& g.const_regs@.len() == m.consts@.len()
    &&& forall|i: int|
        0 <= i < m.consts@.len() ==> (#[trigger] g.const_regs@[i]).name == m.consts@[i].0
            && g.const_regs@[i].value == m.consts@[i].1
}

proof fn lemma_export_attr_some(attrs: Seq<Attr>, k: int, i: int)
    requires
        0 <= k <= i < attrs.len(),
        forall|j: int| k <= j < i ==> (#[trigger] attrs[j]).name@ != "rhai_fn"@,
        attrs[i].name@ == "rhai_fn"@,
    ensures
        spec_export_attr_pos_from(attrs, k) == Some(i),
    decreases i - k,
{
    if k < i {
        lemma_export_attr_some(attrs, k + 1, i);
    }
}

proof fn lemma_export_attr_none(attrs: Seq<Attr>, k: int)
    requires
        0 <= k,
        forall|j: int| k <= j < attrs.len() ==> (#[trigger] attrs[j]).name@ != "rhai_fn"@,
    ensures
        spec_export_attr_pos_from(attrs, k) is None,
    decreases attrs.len() - k,
{
    if k < attrs.len() {
        lemma_export_attr_none(attrs, k + 1);
    }
}

proof fn lemma_first_bad_some(items: Seq<DeclItem>, k: int, i: int)
    requires
        0 <= k <= i < items.len(),
        forall|j: int| k <= j < i ==> spec_item_ok(#[trigger] items[j]),
        !spec_item_ok(items[i]),
    ensures
        spec_first_bad_from(items, k) == Some(i),
    decreases i - k,
{
    if k < i {
        lemma_first_bad_some(items, k + 1, i);
    }
}

proof fn lemma_first_bad_none(items: Seq<DeclItem>, k: int)
    requires
        0 <= k,
        forall|j: int| k <= j < items.len() ==> spec_item_ok(#[trigger] items[j]),
    ensures
        spec_first_bad_from(items, k) is None,
    decreases items.len() - k,
{
    if k < items.len() {
        lemma_first_bad_none(items, k + 1);
    }
}

proof fn lemma_retained_only_nonskip(items: Seq<DeclItem>, k: int)
    requires
        0 <= k <= items.len(),
    ensures
        forall|x: FnDecl|
            #[trigger] spec_retained_from(items, k).contains(x) ==> match spec_fn_params_outcome(
                x,
            ) {
                Ok(q) => !q.skip,
                Err(_) => false,
            },
    decreases items.len() - k,
{
    if k < items.len() {
        lemma_retained_only_nonskip(items, k + 1);
        let s = spec_retained_from(items, k);
        let rest = spec_retained_from(items, k + 1);
        assert forall|x: FnDecl| #[trigger] s.contains(x) implies match spec_fn_params_outcome(x) {
            Ok(q) => !q.skip,
            Err(_) => false,
        } by {
            let i = choose|i: int| 0 <= i < s.len() && s[i] == x;
            if s != rest {
                if i > 0 {
                    assert(rest[i - 1] == x);
                    assert(rest.contains(x));
                }
            } else {
                assert(rest.contains(x));
            }
        }
    }
}

proof fn lemma_pub_consts_only_public(items: Seq<DeclItem>, k: int)
    requires
        0 <= k <= items.len(),
    ensures
        forall|c: crate::decl::ConstDecl|
            #[trigger] spec_pub_consts_from(items, k).contains(c) ==> c.vis == Vis::Public,
    decreases items.len() - k,
{
    if k < items.len() {
        lemma_pub_consts_only_public(items, k + 1);
        let s = spec_pub_consts_from(items, k);
        let rest = spec_pub_consts_from(items, k + 1);
        assert forall|c: crate::decl::ConstDecl| #[trigger] s.contains(c) implies c.vis
            == Vis::Public by {
            let i = choose|i: int| 0 <= i < s.len() && s[i] == c;
            if s != rest {
                if i > 0 {
                    assert(rest[i - 1] == c);
                    assert(rest.contains(c));
                }
            } else {
                assert(rest.contains(c));
            }
        }
    }
}

/// A function with an explicit `skip` modifier — or one that is not public
/// and carries no export modifier, which defaults to skipped — never
/// appears among the assembled module's functions and contributes no
/// dispatch entry to the generated unit.
pub proof fn lemma_skipped_fn_not_assembled(
    d: DeclModule,
    m: Module,
    g: GeneratedModule,
    f: FnDecl,
    i: int,
)
    requires
        spec_module_parses(d, m),
        spec_module_generates(m, g),
        d.content is Some,
        0 <= i < d.content->Some_0@.len(),
        d.content->Some_0@[i] == DeclItem::Fn(f),
        match spec_fn_params_outcome(f) {
            Ok(q) => q.skip,
            Err(_) => false,
        },
    ensures
        !spec_retained(d.content->Some_0@).contains(f),
        m.fns@.len() == spec_retained(d.content->Some_0@).len(),
        g.fn_regs@.len() == spec_retained(d.content->Some_0@).len(),
{
    lemma_retained_only_nonskip(d.content->Some_0@, 0);
}

/// A public constant is registered exactly once — at its declaration's
/// position, under its declared name, with its declared value — and a
/// non-public constant is never registered.
pub proof fn lemma_const_registrations(d: DeclModule, m: Module, g: GeneratedModule)
    requires
        spec_module_parses(d, m),
        spec_module_generates(m, g),
        d.content is Some,
    ensures
        g.const_regs@.len() == spec_pub_consts(d.content->Some_0@).len(),
        forall|j: int|
            0 <= j < g.const_regs@.len() ==> (#[trigger] g.const_regs@[j]).name == spec_pub_consts(
                d.content->Some_0@,
            )[j].name && g.const_regs@[j].value == spec_pub_consts(d.content->Some_0@)[j].expr,
        forall|c: crate::decl::ConstDecl|
            #[trigger] spec_pub_consts(d.content->Some_0@).contains(c) ==> c.vis == Vis::Public,
{
    lemma_pub_consts_only_public(d.content->Some_0@, 0);
    assert forall|j: int| 0 <= j < g.const_regs@.len() implies (#[trigger] g.const_regs@[j]).name
        == spec_pub_consts(d.content->Some_0@)[j].name && g.const_regs@[j].value == spec_pub_consts(
        d.content->Some_0@,
    )[j].expr by {
        assert(m.consts@[j].0 == spec_pub_consts(d.content->Some_0@)[j].name);
        assert(g.const_regs@[j].name == m.consts@[j].0);
    }
}

/// The position of a function's export modifier annotation.
fn find_export_attr(attrs: &Vec<Attr>) -> (r: Option<usize>)
    ensures
        match r {
            Some(i) => i < attrs@.len() && spec_export_attr_pos(attrs@) == Some(i as int),
            None => spec_export_attr_pos(attrs@) is None,
        },
{
    let mut i: usize = 0;
    while i < attrs.len()
        invariant
            i <= attrs.len(),
            forall|j: int| 0 <= j < i ==> (#[trigger] attrs@[j]).name@ != "rhai_fn"@,
        decreases attrs.len() - i,
    {
        if key_is(&attrs[i].name, "rhai_fn") {
            proof {
                lemma_export_attr_some(attrs@, 0, i as int);
            }
            return Some(i);
        }
        i = i + 1;
    }
    proof {
        lemma_export_attr_none(attrs@, 0);
    }
    None
}

/// Detaches a function's export modifier annotation, if one is attached,
/// and parses it; otherwise infers the visibility-derived default set.
pub fn inner_fn_attributes(f: &mut FnDecl) -> (r: Result<ExportedFnParams, GenError>)
    ensures
        final(f).vis == old(f).vis,
        final(f).name == old(f).name,
        final(f).params@ == old(f).params@,
        final(f).ret == old(f).ret,
        spec_stripped(*old(f), *final(f)),
        match r {
            Ok(p) => spec_fn_params_outcome(*old(f)) == Ok::<ExportedFnParams, (GenErrorKind, int)>(
                p,
            ),
            Err(e) => {
                &&& e.fn_name == old(f).name
                &&& spec_fn_params_outcome(*old(f)) == Err::<
                    ExportedFnParams,
                    (GenErrorKind, int),
                >((e.kind, e.index as int))
            },
        },
{
    match find_export_attr(&f.attrs) {
        Some(idx) => {
            let attr = f.attrs.remove(idx);
            ExportedFnParams::parse(&f.name, &attr.args)
        },
        None => {
            if let Vis::Public = f.vis {
                Ok(ExportedFnParams::new_default())
            } else {
                Ok(ExportedFnParams::new_skip())
            }
        },
    }
}

impl Module {
    /// Assembles a declaration block into a module: detaches and parses
    /// each function's export modifier (or infers defaults from its
    /// visibility), classifies each retained function, and collects the
    /// retained functions and public constants in declaration order.
    ///
    /// Fails — with no partial output — on the first malformed modifier or
    /// unclassifiable signature.
    pub fn parse(input: DeclModule) -> (r: Result<Module, GenError>)
        ensures
            r is Ok <==> spec_module_ok(input),
            match r {
                Ok(m) => spec_module_parses(input, m),
                Err(e) => match input.content {
                    Some(items) => match spec_first_bad(items@) {
                        Some(i) => spec_item_error(items@[i], e),
                        None => false,
                    },
                    None => false,
                },
            },
    {
        let DeclModule { vis, name, content } = input;
        let items: Vec<DeclItem> = match content {
            None => {
                return Ok(Module { name, vis, content: None, fns: Vec::new(), consts: Vec::new() });
            },
            Some(items) => items,
        };
        let ghost orig = items@;
        let n0 = items.len();
        proof {
            assert(orig.len() == n0);
        }
        let mut items = items;
        let mut out: Vec<DeclItem> = Vec::new();
        let mut fns: Vec<ExportedFn> = Vec::new();
        let mut consts: Vec<ExportedConst> = Vec::new();
        let ghost mut rdecls: Seq<FnDecl> = Seq::empty();
        let ghost mut cdecls: Seq<crate::decl::ConstDecl> = Seq::empty();
        let mut done: usize = 0;
        while items.len() > 0
            invariant
                input.vis == vis,
                input.name == name,
                input.content is Some,
                input.content->Some_0@ == orig,
                orig.len() <= usize::MAX,
                done + items@.len() == orig.len(),
                items@ == orig.subrange(done as int, orig.len() as int),
                out@.len() == done,
                forall|j: int| 0 <= j < done ==> spec_item_strips(orig[j], #[trigger] out@[j]),
                forall|j: int| 0 <= j < done ==> spec_item_ok(#[trigger] orig[j]),
                spec_retained(orig) == rdecls + spec_retained_from(orig, done as int),
                spec_pub_consts(orig) == cdecls + spec_pub_consts_from(orig, done as int),
                fns@.len() == rdecls.len(),
                forall|j: int|
                    0 <= j < fns@.len() ==> spec_classifies(
                        rdecls[j],
                        spec_params_of(rdecls[j]),
                        #[trigger] fns@[j],
                    ),
                consts@.len() == cdecls.len(),
                forall|j: int|
                    0 <= j < consts@.len() ==> (#[trigger] consts@[j]).0 == cdecls[j].name
                        && consts@[j].1 == cdecls[j].expr,
            decreases items@.len(),
        {
            let item = items.remove(0);
            proof {
                assert(item == orig[done as int]);
                assert(items@ =~= orig.subrange(done + 1, orig.len() as int));
            }
            match item {
                DeclItem::Fn(f) => {
                    let ghost f0 = f;
                    let mut f = f;
                    let params = match inner_fn_attributes(&mut f) {
                        Ok(p) => p,
                        Err(e) => {
                            proof {
                                assert(orig[done as int] == DeclItem::Fn(f0));
                                assert(!spec_item_ok(orig[done as int]));
                                lemma_first_bad_some(orig, 0, done as int);
                            }
                            return Err(e);
                        },
                    };
                    if !params.skip {
                        let ghost stripped = f;
                        match ExportedFn::from_decl(&f, params) {
                            Ok(ef) => {
                                fns.push(ef);
                                proof {
                                    rdecls = rdecls.push(f0);
                                    assert(spec_classifies(f0, spec_params_of(f0), fns@[fns@.len() - 1])) by {
                                        assert(spec_classifies(stripped, params, fns@[fns@.len() - 1]));
                                        assert(f0.params@ == stripped.params@);
                                    }
                                    assert(spec_retained_from(orig, done as int) == seq![f0]
                                        + spec_retained_from(orig, done + 1));
                                    assert(spec_retained(orig) == rdecls + spec_retained_from(
                                        orig,
                                        done + 1,
                                    ));
                                }
                            },
                            Err(e) => {
                                proof {
                                    assert(!spec_classify_ok(f0)) by {
                                        assert(!spec_classify_ok(stripped));
                                    }
                                    assert(spec_classify_error(f0, e)) by {
                                        assert(spec_classify_error(stripped, e));
                                    }
                                    assert(orig[done as int] == DeclItem::Fn(f0));
                                    assert(!spec_item_ok(orig[done as int]));
                                    lemma_first_bad_some(orig, 0, done as int);
                                }
                                return Err(e);
                            },
                        }
                    } else {
                        proof {
                            assert(spec_retained_from(orig, done as int) == spec_retained_from(
                                orig,
                                done + 1,
                            ));
                        }
                    }
                    proof {
                        assert(spec_pub_consts_from(orig, done as int) == spec_pub_consts_from(
                            orig,
                            done + 1,
                        ));
                    }
                    out.push(DeclItem::Fn(f));
                },
                DeclItem::Const(c) => {
                    if let Vis::Public = c.vis {
                        consts.push((c.name.clone(), c.expr.duplicate()));
                        proof {
                            cdecls = cdecls.push(c);
                            assert(spec_pub_consts_from(orig, done as int) == seq![c]
                                + spec_pub_consts_from(orig, done + 1));
                            assert(spec_pub_consts(orig) == cdecls + spec_pub_consts_from(
                                orig,
                                done + 1,
                            ));
                        }
                    } else {
                        proof {
                            assert(spec_pub_consts_from(orig, done as int) == spec_pub_consts_from(
                                orig,
                                done + 1,
                            ));
                        }
                    }
                    proof {
                        assert(spec_retained_from(orig, done as int) == spec_retained_from(
                            orig,
                            done + 1,
                        ));
                    }
                    out.push(DeclItem::Const(c));
                },
                DeclItem::Other(s) => {
                    proof {
                        assert(spec_retained_from(orig, done as int) == spec_retained_from(
                            orig,
                            done + 1,
                        ));
                        assert(spec_pub_consts_from(orig, done as int) == spec_pub_consts_from(
                            orig,
                            done + 1,
                        ));
                    }
                    out.push(DeclItem::Other(s));
                },
            }
            done = done + 1;
        }
        proof {
            lemma_first_bad_none(orig, 0);
            assert(spec_retained_from(orig, done as int) =~= Seq::<FnDecl>::empty());
            assert(spec_retained(orig) =~= rdecls);
            assert(spec_pub_consts_from(orig, done as int) =~= Seq::<
                crate::decl::ConstDecl,
            >::empty());
            assert(spec_pub_consts(orig) =~= cdecls);
        }
        Ok(Module { name, vis, content: Some(out), fns, consts })
    }

    /// Emits the generated unit: the original declarations (consumed
    /// modifiers detached) wrapped together with one registration per
    /// retained function and constant.
    pub fn generate(self) -> (g: GeneratedModule)
        requires
            self.content is Some,
        ensures
            spec_module_generates(self, g),
    {
        let (fn_regs, const_regs) = generate_body(&self.fns, &self.consts);
        let Module { name, content, .. } = self;
        let content = content.unwrap();
        GeneratedModule { name, content, fn_regs, const_regs }
    }
}

/// The whole generator on one declaration block: assembles the module and
/// emits its registration descriptor, or fails on the first malformed
/// modifier or unclassifiable signature.
pub fn generate_module(input: DeclModule) -> (r: Result<GeneratedModule, GenError>)
    requires
        input.content is Some,
    ensures
        r is Ok <==> spec_module_ok(input),
        match r {
            Ok(g) => exists|m: Module|
                #[trigger] spec_module_parses(input, m) && spec_module_generates(m, g),
            Err(e) => match input.content {
                Some(items) => match spec_first_bad(items@) {
                    Some(i) => spec_item_error(items@[i], e),
                    None => false,
                },
                None => false,
            },
        },
{
    match Module::parse(input) {
        Ok(m) => {
            let ghost m0 = m;
            let g = m.generate();
            proof {
                assert(spec_module_parses(input, m0) && spec_module_generates(m0, g));
            }
            Ok(g)
        },
        Err(e) => Err(e),
    }
}

} // verus!
