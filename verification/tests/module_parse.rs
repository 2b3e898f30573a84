use module_codegen::decl::{
    Attr, AttrArg, ConstDecl, ConstExpr, DeclItem, DeclModule, FnDecl, ParamDecl, TypeExpr, Vis,
};
use module_codegen::module::Module;

fn s(x: &str) -> String {
    x.to_string()
}

fn plain_fn(vis: Vis, name: &str, params: Vec<(&str, TypeExpr)>, ret: Option<TypeExpr>) -> FnDecl {
    FnDecl {
        attrs: Vec::new(),
        vis,
        name: s(name),
        params: params
            .into_iter()
            .map(|(n, ty)| ParamDecl { name: s(n), ty })
            .collect(),
        ret,
    }
}

fn int_ty() -> TypeExpr {
    TypeExpr::Path(s("INT"))
}

fn block(name: &str, items: Vec<DeclItem>) -> DeclModule {
    DeclModule {
        vis: Vis::Public,
        name: s(name),
        content: Some(items),
    }
}

#[test]
fn empty_module() {
    let input = block("empty", vec![]);

    let item_mod = Module::parse(input).unwrap();
    assert!(item_mod.fns.is_empty());
    assert!(item_mod.consts.is_empty());
}

#[test]
fn one_factory_fn_module() {
    let input = block(
        "one_fn",
        vec![DeclItem::Fn(plain_fn(
            Vis::Public,
            "get_mystic_number",
            vec![],
            Some(int_ty()),
        ))],
    );

    let item_mod = Module::parse(input).unwrap();
    assert!(item_mod.consts.is_empty());
    assert_eq!(item_mod.fns.len(), 1);
    assert_eq!(item_mod.fns[0].name().as_str(), "get_mystic_number");
    assert_eq!(item_mod.fns[0].arg_count(), 0);
    assert_eq!(item_mod.fns[0].return_type().unwrap(), &int_ty());
}

#[test]
fn one_single_arg_fn_module() {
    let input = block(
        "one_fn",
        vec![DeclItem::Fn(plain_fn(
            Vis::Public,
            "add_one_to",
            vec![("x", int_ty())],
            Some(int_ty()),
        ))],
    );

    let item_mod = Module::parse(input).unwrap();
    assert!(item_mod.consts.is_empty());
    assert_eq!(item_mod.fns.len(), 1);
    assert_eq!(item_mod.fns[0].name().as_str(), "add_one_to");
    assert_eq!(item_mod.fns[0].arg_count(), 1);
    assert_eq!(
        item_mod.fns[0].arg_list()[0],
        ParamDecl {
            name: s("x"),
            ty: int_ty()
        }
    );
    assert_eq!(item_mod.fns[0].return_type().unwrap(), &int_ty());
}

#[test]
fn one_double_arg_fn_module() {
    let input = block(
        "one_fn",
        vec![DeclItem::Fn(plain_fn(
            Vis::Public,
            "add_together",
            vec![("x", int_ty()), ("y", int_ty())],
            Some(int_ty()),
        ))],
    );

    let item_mod = Module::parse(input).unwrap();
    let args = item_mod.fns[0].arg_list();
    assert!(item_mod.consts.is_empty());
    assert_eq!(item_mod.fns.len(), 1);
    assert_eq!(item_mod.fns[0].name().as_str(), "add_together");
    assert_eq!(item_mod.fns[0].arg_count(), 2);
    assert_eq!(
        args[0],
        ParamDecl {
            name: s("x"),
            ty: int_ty()
        }
    );
    assert_eq!(
        args[1],
        ParamDecl {
            name: s("y"),
            ty: int_ty()
        }
    );
    assert_eq!(args.len(), 2);
    assert_eq!(item_mod.fns[0].return_type().unwrap(), &int_ty());
}

#[test]
fn one_constant_module() {
    let input = block(
        "one_constant",
        vec![DeclItem::Const(ConstDecl {
            vis: Vis::Public,
            name: s("MYSTIC_NUMBER"),
            ty: int_ty(),
            expr: ConstExpr::IntLit(42),
        })],
    );

    let item_mod = Module::parse(input).unwrap();
    assert!(item_mod.fns.is_empty());
    assert_eq!(item_mod.consts.len(), 1);
    assert_eq!(&item_mod.consts[0].0, "MYSTIC_NUMBER");
    assert_eq!(item_mod.consts[0].1, ConstExpr::IntLit(42));
}

#[test]
fn one_private_fn_module() {
    let input = block(
        "one_fn",
        vec![DeclItem::Fn(plain_fn(
            Vis::Private,
            "get_mystic_number",
            vec![],
            Some(int_ty()),
        ))],
    );

    let item_mod = Module::parse(input).unwrap();
    assert!(item_mod.fns.is_empty());
    assert!(item_mod.consts.is_empty());
}

#[test]
fn one_skipped_fn_module() {
    let mut f = plain_fn(Vis::Public, "get_mystic_number", vec![], Some(int_ty()));
    f.attrs.push(Attr {
        name: s("rhai_fn"),
        args: vec![AttrArg {
            key: s("skip"),
            value: None,
        }],
    });
    let input = block("one_fn", vec![DeclItem::Fn(f)]);

    let item_mod = Module::parse(input).unwrap();
    assert!(item_mod.fns.is_empty());
    assert!(item_mod.consts.is_empty());
}

#[test]
fn one_private_constant_module() {
    let input = block(
        "one_constant",
        vec![DeclItem::Const(ConstDecl {
            vis: Vis::Private,
            name: s("MYSTIC_NUMBER"),
            ty: int_ty(),
            expr: ConstExpr::IntLit(42),
        })],
    );

    let item_mod = Module::parse(input).unwrap();
    assert!(item_mod.fns.is_empty());
    assert!(item_mod.consts.is_empty());
}
