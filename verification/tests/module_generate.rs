use module_codegen::decl::{
    Attr, AttrArg, ConstDecl, ConstExpr, DeclItem, DeclModule, FnDecl, ParamDecl, TypeExpr, Vis,
};
use module_codegen::function::{FnAccess, ParamMode};
use module_codegen::module::Module;
use module_codegen::rhai_module::GeneratedModule;

fn s(x: &str) -> String {
    x.to_string()
}

fn plain_fn(vis: Vis, name: &str, params: Vec<(&str, TypeExpr)>, ret: Option<TypeExpr>) -> FnDecl {
    FnDecl {
        attrs: Vec::new(),
        vis,
        name: s(name),
        params: params
            .into_iter()
            .map(|(n, ty)| ParamDecl { name: s(n), ty })
            .collect(),
        ret,
    }
}

fn int_ty() -> TypeExpr {
    TypeExpr::Path(s("INT"))
}

fn block(name: &str, items: Vec<DeclItem>) -> DeclModule {
    DeclModule {
        vis: Vis::Public,
        name: s(name),
        content: Some(items),
    }
}

fn generated(input: DeclModule) -> GeneratedModule {
    Module::parse(input).unwrap().generate()
}

#[test]
fn generate_empty_module() {
    let g = generated(block("empty", vec![]));
    assert_eq!(g.name.as_str(), "empty");
    assert!(g.content.is_empty());
    assert!(g.fn_regs.is_empty());
    assert!(g.const_regs.is_empty());
}

#[test]
fn generate_one_factory_fn_module() {
    let decl = plain_fn(Vis::Public, "get_mystic_number", vec![], Some(int_ty()));
    let g = generated(block("one_fn", vec![DeclItem::Fn(decl)]));

    // The original declaration is carried through unchanged.
    assert_eq!(g.content.len(), 1);
    match &g.content[0] {
        DeclItem::Fn(f) => assert_eq!(f.name.as_str(), "get_mystic_number"),
        _ => panic!("expected a function item"),
    }
    // One registration: own name, public, empty type signature.
    assert_eq!(g.fn_regs.len(), 1);
    let r = &g.fn_regs[0];
    assert_eq!(r.exposed_name.as_str(), "get_mystic_number");
    assert_eq!(r.access, FnAccess::Public);
    assert!(r.arg_types.is_empty());
    // Its dispatcher asserts zero arity, extracts nothing, and boxes the
    // plain numeric result.
    assert_eq!(r.dispatcher.target.as_str(), "get_mystic_number");
    assert_eq!(r.dispatcher.arity, 0);
    assert!(r.dispatcher.modes.is_empty());
    assert!(!r.dispatcher.has_context);
    assert!(!r.dispatcher.is_method_call);
    assert!(!r.dispatcher.is_fallible);
    assert_eq!(r.dispatcher.return_type.as_str(), "INT");
    assert!(g.const_regs.is_empty());
}

#[test]
fn generate_one_single_arg_fn_module() {
    let decl = plain_fn(Vis::Public, "add_one_to", vec![("x", int_ty())], Some(int_ty()));
    let g = generated(block("one_fn", vec![DeclItem::Fn(decl)]));

    assert_eq!(g.fn_regs.len(), 1);
    let r = &g.fn_regs[0];
    assert_eq!(r.exposed_name.as_str(), "add_one_to");
    assert_eq!(r.arg_types.len(), 1);
    assert_eq!(r.arg_types[0].as_str(), "INT");
    assert_eq!(r.dispatcher.arity, 1);
    assert_eq!(r.dispatcher.modes, vec![ParamMode::ByValue]);
    assert!(!r.dispatcher.is_method_call);
    assert_eq!(r.dispatcher.return_type.as_str(), "INT");
}

#[test]
fn generate_one_double_arg_fn_module() {
    let decl = plain_fn(
        Vis::Public,
        "add_together",
        vec![("x", int_ty()), ("y", int_ty())],
        Some(int_ty()),
    );
    let g = generated(block("one_fn", vec![DeclItem::Fn(decl)]));

    assert_eq!(g.fn_regs.len(), 1);
    let r = &g.fn_regs[0];
    assert_eq!(r.exposed_name.as_str(), "add_together");
    // Two identical tokens, both arguments extracted by value in declared
    // order.
    assert_eq!(r.arg_types.len(), 2);
    assert_eq!(r.arg_types[0].as_str(), "INT");
    assert_eq!(r.arg_types[1].as_str(), "INT");
    assert_eq!(r.dispatcher.arity, 2);
    assert_eq!(
        r.dispatcher.modes,
        vec![ParamMode::ByValue, ParamMode::ByValue]
    );
    assert!(!r.dispatcher.is_method_call);
}

#[test]
fn generate_one_constant_module() {
    let g = generated(block(
        "one_constant",
        vec![DeclItem::Const(ConstDecl {
            vis: Vis::Public,
            name: s("MYSTIC_NUMBER"),
            ty: int_ty(),
            expr: ConstExpr::IntLit(42),
        })],
    ));

    assert_eq!(g.content.len(), 1);
    assert!(g.fn_regs.is_empty());
    assert_eq!(g.const_regs.len(), 1);
    assert_eq!(g.const_regs[0].name.as_str(), "MYSTIC_NUMBER");
    assert_eq!(g.const_regs[0].value, ConstExpr::IntLit(42));
}

#[test]
fn one_constant_module_imports_preserved() {
    let g = generated(block(
        "one_constant",
        vec![
            DeclItem::Other(s("pub use rhai::INT;")),
            DeclItem::Const(ConstDecl {
                vis: Vis::Public,
                name: s("MYSTIC_NUMBER"),
                ty: int_ty(),
                expr: ConstExpr::IntLit(42),
            }),
        ],
    ));

    // Both items survive, in order.
    assert_eq!(g.content.len(), 2);
    assert_eq!(g.content[0], DeclItem::Other(s("pub use rhai::INT;")));
    assert_eq!(g.const_regs.len(), 1);
    assert_eq!(g.const_regs[0].name.as_str(), "MYSTIC_NUMBER");
    assert_eq!(g.const_regs[0].value, ConstExpr::IntLit(42));
}

#[test]
fn generate_one_private_fn_module() {
    let decl = plain_fn(Vis::Private, "get_mystic_number", vec![], Some(int_ty()));
    let g = generated(block("one_fn", vec![DeclItem::Fn(decl)]));

    // The declaration stays in the block, but nothing registers.
    assert_eq!(g.content.len(), 1);
    assert!(g.fn_regs.is_empty());
    assert!(g.const_regs.is_empty());
}

#[test]
fn generate_one_skipped_fn_module() {
    let mut f = plain_fn(Vis::Public, "get_mystic_number", vec![], Some(int_ty()));
    f.attrs.push(Attr {
        name: s("rhai_fn"),
        args: vec![AttrArg {
            key: s("skip"),
            value: None,
        }],
    });
    let g = generated(block("one_fn", vec![DeclItem::Fn(f)]));

    // The declaration survives with the consumed annotation detached, and
    // nothing registers.
    assert_eq!(g.content.len(), 1);
    match &g.content[0] {
        DeclItem::Fn(f) => {
            assert_eq!(f.name.as_str(), "get_mystic_number");
            assert!(f.attrs.is_empty());
        }
        _ => panic!("expected a function item"),
    }
    assert!(g.fn_regs.is_empty());
    assert!(g.const_regs.is_empty());
}

#[test]
fn generate_one_private_constant_module() {
    let g = generated(block(
        "one_constant",
        vec![DeclItem::Const(ConstDecl {
            vis: Vis::Private,
            name: s("MYSTIC_NUMBER"),
            ty: int_ty(),
            expr: ConstExpr::IntLit(42),
        })],
    ));

    assert_eq!(g.content.len(), 1);
    assert!(g.fn_regs.is_empty());
    assert!(g.const_regs.is_empty());
}

#[test]
fn one_str_arg_fn_module() {
    let decl = plain_fn(
        Vis::Public,
        "print_out_to",
        vec![("x", TypeExpr::Ref(Box::new(TypeExpr::Path(s("str")))))],
        None,
    );
    let g = generated(block("str_fn", vec![DeclItem::Fn(decl)]));

    assert_eq!(g.fn_regs.len(), 1);
    let r = &g.fn_regs[0];
    assert_eq!(r.exposed_name.as_str(), "print_out_to");
    // A string slice registers under the runtime's immutable string token.
    assert_eq!(r.arg_types.len(), 1);
    assert_eq!(r.arg_types[0].as_str(), "ImmutableString");
    assert_eq!(r.dispatcher.modes, vec![ParamMode::ByImmutableRef]);
    assert!(!r.dispatcher.is_method_call);
    assert_eq!(r.dispatcher.return_type.as_str(), "()");
}

#[test]
fn one_mut_ref_fn_module() {
    let decl = plain_fn(
        Vis::Public,
        "increment",
        vec![("x", TypeExpr::MutRef(Box::new(TypeExpr::Path(s("FLOAT")))))],
        None,
    );
    let g = generated(block("ref_fn", vec![DeclItem::Fn(decl)]));

    assert_eq!(g.fn_regs.len(), 1);
    let r = &g.fn_regs[0];
    assert_eq!(r.exposed_name.as_str(), "increment");
    // The token is the dereferenced type; the mutable-reference first
    // parameter marks a method call.
    assert_eq!(r.arg_types.len(), 1);
    assert_eq!(r.arg_types[0].as_str(), "FLOAT");
    assert_eq!(r.dispatcher.modes, vec![ParamMode::ByMutableRef]);
    assert!(r.dispatcher.is_method_call);
}
