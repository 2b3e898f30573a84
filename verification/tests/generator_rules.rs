use module_codegen::decl::{
    Attr, AttrArg, DeclItem, DeclModule, FnDecl, ParamDecl, TypeExpr, Vis,
};
use module_codegen::errors::GenErrorKind;
use module_codegen::function::{ExportedFn, FnAccess, FnRole, ParamMode};
use module_codegen::modifiers::ExportedFnParams;
use module_codegen::module::Module;
use module_codegen::rhai_module::fn_signature;

fn s(x: &str) -> String {
    x.to_string()
}

fn arg(key: &str, value: Option<&str>) -> AttrArg {
    AttrArg {
        key: s(key),
        value: value.map(s),
    }
}

fn attributed_fn(name: &str, args: Vec<AttrArg>, params: Vec<(&str, TypeExpr)>) -> FnDecl {
    FnDecl {
        attrs: vec![Attr {
            name: s("rhai_fn"),
            args,
        }],
        vis: Vis::Public,
        name: s(name),
        params: params
            .into_iter()
            .map(|(n, ty)| ParamDecl { name: s(n), ty })
            .collect(),
        ret: None,
    }
}

fn block(items: Vec<DeclItem>) -> DeclModule {
    DeclModule {
        vis: Vis::Public,
        name: s("m"),
        content: Some(items),
    }
}

#[test]
fn modifier_unknown_key_fails() {
    let f = attributed_fn("f", vec![arg("unknown_key", None)], vec![]);
    let err = Module::parse(block(vec![DeclItem::Fn(f)])).unwrap_err();
    assert_eq!(err.kind, GenErrorKind::UnknownModifierKey);
    assert_eq!(err.fn_name.as_str(), "f");
    assert_eq!(err.index, 0);
}

#[test]
fn modifier_missing_value_fails() {
    let f = attributed_fn("f", vec![arg("pure", None), arg("name", None)], vec![]);
    let err = Module::parse(block(vec![DeclItem::Fn(f)])).unwrap_err();
    assert_eq!(err.kind, GenErrorKind::MissingModifierValue);
    assert_eq!(err.index, 1);
}

#[test]
fn modifier_unexpected_value_fails() {
    let f = attributed_fn("f", vec![arg("skip", Some("yes"))], vec![]);
    let err = Module::parse(block(vec![DeclItem::Fn(f)])).unwrap_err();
    assert_eq!(err.kind, GenErrorKind::UnexpectedModifierValue);
}

#[test]
fn modifier_duplicate_key_fails() {
    let f = attributed_fn("f", vec![arg("pure", None), arg("pure", None)], vec![]);
    let err = Module::parse(block(vec![DeclItem::Fn(f)])).unwrap_err();
    assert_eq!(err.kind, GenErrorKind::DuplicateModifierKey);
    assert_eq!(err.index, 1);
}

#[test]
fn modifier_getter_and_setter_conflict() {
    let f = attributed_fn(
        "f",
        vec![arg("get", Some("p")), arg("set", Some("p"))],
        vec![],
    );
    let err = Module::parse(block(vec![DeclItem::Fn(f)])).unwrap_err();
    assert_eq!(err.kind, GenErrorKind::ConflictingRole);
    assert_eq!(err.index, 1);
}

#[test]
fn nested_reference_parameter_fails() {
    let bad = TypeExpr::Ref(Box::new(TypeExpr::Ref(Box::new(TypeExpr::Path(s("T"))))));
    let f = FnDecl {
        attrs: Vec::new(),
        vis: Vis::Public,
        name: s("f"),
        params: vec![
            ParamDecl {
                name: s("a"),
                ty: TypeExpr::Path(s("INT")),
            },
            ParamDecl {
                name: s("b"),
                ty: bad,
            },
        ],
        ret: None,
    };
    let err = Module::parse(block(vec![DeclItem::Fn(f)])).unwrap_err();
    assert_eq!(err.kind, GenErrorKind::UnsupportedParamType);
    assert_eq!(err.fn_name.as_str(), "f");
    assert_eq!(err.index, 1);
}

#[test]
fn reference_return_type_fails() {
    let f = FnDecl {
        attrs: Vec::new(),
        vis: Vis::Public,
        name: s("f"),
        params: vec![],
        ret: Some(TypeExpr::Ref(Box::new(TypeExpr::Path(s("INT"))))),
    };
    let err = Module::parse(block(vec![DeclItem::Fn(f)])).unwrap_err();
    assert_eq!(err.kind, GenErrorKind::UnsupportedReturnType);
}

#[test]
fn failure_aborts_whole_block() {
    // The first good function does not survive a later failure: generation
    // is all-or-nothing.
    let good = FnDecl {
        attrs: Vec::new(),
        vis: Vis::Public,
        name: s("good"),
        params: vec![],
        ret: None,
    };
    let bad = attributed_fn("bad", vec![arg("nonsense", None)], vec![]);
    assert!(Module::parse(block(vec![DeclItem::Fn(good), DeclItem::Fn(bad)])).is_err());
}

#[test]
fn operator_name_override() {
    let f = attributed_fn(
        "not",
        vec![arg("name", Some("!"))],
        vec![("x", TypeExpr::Path(s("bool")))],
    );
    let m = Module::parse(block(vec![DeclItem::Fn(f)])).unwrap();
    assert_eq!(m.fns[0].exposed_name.as_str(), "!");
    assert_eq!(m.fns[0].role, FnRole::Operator(s("!")));
    assert_eq!(m.fns[0].name().as_str(), "not");
}

#[test]
fn plain_name_override() {
    let f = attributed_fn("original", vec![arg("name", Some("renamed"))], vec![]);
    let m = Module::parse(block(vec![DeclItem::Fn(f)])).unwrap();
    assert_eq!(m.fns[0].exposed_name.as_str(), "renamed");
    assert_eq!(m.fns[0].role, FnRole::Plain);
}

#[test]
fn setter_registers_under_set_convention() {
    let f = attributed_fn(
        "update_speed",
        vec![arg("set", Some("speed"))],
        vec![
            ("obj", TypeExpr::MutRef(Box::new(TypeExpr::Path(s("Car"))))),
            ("v", TypeExpr::Path(s("INT"))),
        ],
    );
    let m = Module::parse(block(vec![DeclItem::Fn(f)])).unwrap();
    assert_eq!(m.fns[0].exposed_name.as_str(), "set$speed");
    assert_eq!(m.fns[0].role, FnRole::Setter(s("speed")));
    assert!(m.fns[0].is_method_call);
}

#[test]
fn context_parameter_excluded_from_signature() {
    let f = FnDecl {
        attrs: Vec::new(),
        vis: Vis::Public,
        name: s("with_ctx"),
        params: vec![
            ParamDecl {
                name: s("ctx"),
                ty: TypeExpr::Path(s("NativeCallContext")),
            },
            ParamDecl {
                name: s("x"),
                ty: TypeExpr::Path(s("INT")),
            },
        ],
        ret: Some(TypeExpr::Path(s("INT"))),
    };
    let m = Module::parse(block(vec![DeclItem::Fn(f)])).unwrap();
    assert_eq!(m.fns[0].arg_count(), 1);
    let sig = fn_signature(&m.fns[0]);
    assert_eq!(sig.arity, 1);
    assert_eq!(sig.arg_types.len(), 1);
    assert_eq!(sig.arg_types[0].as_str(), "INT");
    assert!(m.fns[0].param_specs[0].is_call_context);
    assert!(!m.fns[0].is_method_call);
}

#[test]
fn structural_result_return_is_fallible() {
    let f = FnDecl {
        attrs: Vec::new(),
        vis: Vis::Public,
        name: s("try_get"),
        params: vec![],
        ret: Some(TypeExpr::ResultOf(
            Box::new(TypeExpr::Path(s("INT"))),
            Box::new(TypeExpr::Path(s("EvalAltResult"))),
        )),
    };
    let m = Module::parse(block(vec![DeclItem::Fn(f)])).unwrap();
    assert!(m.fns[0].return_spec.is_fallible);
    assert_eq!(m.fns[0].return_spec.static_type.as_str(), "INT");
}

#[test]
fn return_raw_marks_fallible() {
    let f = attributed_fn("raw", vec![arg("return_raw", None)], vec![]);
    let m = Module::parse(block(vec![DeclItem::Fn(f)])).unwrap();
    assert!(m.fns[0].return_spec.is_fallible);
    assert!(m.fns[0].params.return_raw);
}

#[test]
fn explicit_modifier_exports_private_fn() {
    let mut f = attributed_fn("hidden", vec![arg("name", Some("shown"))], vec![]);
    f.vis = Vis::Private;
    let m = Module::parse(block(vec![DeclItem::Fn(f)])).unwrap();
    assert_eq!(m.fns.len(), 1);
    assert_eq!(m.fns[0].access, FnAccess::Private);
    assert_eq!(m.fns[0].exposed_name.as_str(), "shown");
}

#[test]
fn round_trip_signatures() {
    let decls = vec![
        DeclItem::Fn(attributed_fn(
            "speed",
            vec![arg("get", Some("speed"))],
            vec![("obj", TypeExpr::MutRef(Box::new(TypeExpr::Path(s("Car")))))],
        )),
        DeclItem::Fn(FnDecl {
            attrs: Vec::new(),
            vis: Vis::Public,
            name: s("blend"),
            params: vec![
                ParamDecl {
                    name: s("a"),
                    ty: TypeExpr::Path(s("INT")),
                },
                ParamDecl {
                    name: s("b"),
                    ty: TypeExpr::Ref(Box::new(TypeExpr::Path(s("String")))),
                },
            ],
            ret: Some(TypeExpr::Path(s("INT"))),
        }),
    ];
    let m = Module::parse(block(decls)).unwrap();
    let expected: Vec<_> = m.fns.iter().map(fn_signature).collect();
    let g = m.generate();
    let derived = g.derive_signatures();
    // Re-deriving the (name, access, arity, signature) tuples from the
    // generated registrations gives back the module description's tuples.
    assert_eq!(derived.len(), expected.len());
    for (d, e) in derived.iter().zip(expected.iter()) {
        assert_eq!(d.name, e.name);
        assert_eq!(d.access, e.access);
        assert_eq!(d.arity, e.arity);
        assert_eq!(d.arg_types, e.arg_types);
    }
}

#[test]
fn bodyless_module_parses_empty() {
    let d = DeclModule {
        vis: Vis::Public,
        name: s("decl_only"),
        content: None,
    };
    let m = Module::parse(d).unwrap();
    assert!(m.content.is_none());
    assert!(m.fns.is_empty());
    assert!(m.consts.is_empty());
}

#[test]
fn modifier_empty_name_value_fails() {
    let f = attributed_fn("f", vec![arg("name", Some(""))], vec![]);
    let err = Module::parse(block(vec![DeclItem::Fn(f)])).unwrap_err();
    assert_eq!(err.kind, GenErrorKind::MissingModifierValue);
}

#[test]
fn getter_role_precedes_name_override() {
    let f = attributed_fn(
        "speed",
        vec![arg("name", Some("speed")), arg("get", Some("speed"))],
        vec![("obj", TypeExpr::MutRef(Box::new(TypeExpr::Path(s("Car")))))],
    );
    let m = Module::parse(block(vec![DeclItem::Fn(f)])).unwrap();
    // The get-accessor convention wins over the plain override; the native
    // name is untouched.
    assert_eq!(m.fns[0].exposed_name.as_str(), "get$speed");
    assert_eq!(m.fns[0].role, FnRole::Getter(s("speed")));
    assert_eq!(m.fns[0].name().as_str(), "speed");
}

#[test]
fn default_and_skip_parameter_sets() {
    let d = ExportedFnParams::new_default();
    assert!(!d.skip);
    assert!(d.name.is_none());
    let k = ExportedFnParams::new_skip();
    assert!(k.skip);
}

#[test]
fn value_modes_in_declared_order() {
    let f = FnDecl {
        attrs: Vec::new(),
        vis: Vis::Public,
        name: s("mixed"),
        params: vec![
            ParamDecl {
                name: s("a"),
                ty: TypeExpr::MutRef(Box::new(TypeExpr::Path(s("Thing")))),
            },
            ParamDecl {
                name: s("b"),
                ty: TypeExpr::Path(s("INT")),
            },
            ParamDecl {
                name: s("c"),
                ty: TypeExpr::Ref(Box::new(TypeExpr::Path(s("str")))),
            },
        ],
        ret: None,
    };
    let m = Module::parse(block(vec![DeclItem::Fn(f)])).unwrap();
    let ef: &ExportedFn = &m.fns[0];
    let modes: Vec<ParamMode> = ef.param_specs.iter().map(|p| p.mode).collect();
    assert_eq!(
        modes,
        vec![
            ParamMode::ByMutableRef,
            ParamMode::ByValue,
            ParamMode::ByImmutableRef
        ]
    );
    let g = m.generate();
    assert_eq!(g.fn_regs[0].arg_types[2].as_str(), "ImmutableString");
}
