use local_slots::ast::{Api, Expr, Param, Path, Ty, UniversalItemFn, UniversalItemType};
use local_slots::mangle::{InterfaceReq, InterfaceTy, Namespace, local_slots_interface_impl};
use local_slots::transform::{Args, local_slots_impl, nested_slots_impl};

fn path(segs: &[&str]) -> Path {
    Path { segments: segs.iter().map(|s| s.to_string()).collect() }
}

fn interface_name(interface: InterfaceTy, target: Option<&str>) -> String {
    let req = InterfaceReq { interface, path: target.map(|t| path(&[t])) };
    let resolved = local_slots_interface_impl(req).unwrap();
    resolved.segments.last().unwrap().clone()
}

fn fn_decl(name: &str, block: Option<Vec<Expr>>) -> UniversalItemFn {
    UniversalItemFn { ident: name.to_string(), inputs: Vec::new(), output: None, block }
}

fn qualified(ns: &str, ty_name: &str) -> Ty {
    Ty::Path(path(&[ns, ty_name]))
}

fn expected_api(
    ns: &str,
    ty_body: Option<Ty>,
    init_block: Option<Vec<Expr>>,
    enter_block: Option<Vec<Expr>>,
) -> Api {
    let foo_type = interface_name(InterfaceTy::Type, Some("foo"));
    let foo_init = interface_name(InterfaceTy::InitFn, Some("foo"));
    let foo_enter = interface_name(InterfaceTy::EnterFn, Some("foo"));
    let context = interface_name(InterfaceTy::EnterCtx, None);
    Api {
        ty: UniversalItemType { ident: foo_type.clone(), ty: ty_body },
        init_fn: UniversalItemFn {
            ident: foo_init,
            inputs: Vec::new(),
            output: Some(qualified(ns, &foo_type)),
            block: init_block,
        },
        enter_fn: UniversalItemFn {
            ident: foo_enter,
            inputs: vec![Param {
                name: context,
                ty: Ty::MutRef(Box::new(qualified(ns, &foo_type))),
            }],
            output: None,
            block: enter_block,
        },
    }
}

fn slot_marker(value: Expr, ty: Ty) -> Expr {
    Expr::MacroCall {
        path: path(&["local_slot"]),
        has_attrs: false,
        payload: Box::new(Expr::Cast { value: Box::new(value), ty }),
    }
}

fn ctx_field(index: usize) -> Expr {
    let context = interface_name(InterfaceTy::EnterCtx, None);
    Expr::FieldIndex { base: Box::new(Expr::PathExpr(path(&[&context]))), index }
}

#[test]
fn no_body() {
    let generated = nested_slots_impl(Args::default(), fn_decl("foo", None));
    let expected = expected_api("self", None, None, None);
    assert_eq!(generated, expected);
}

#[test]
fn no_slot() {
    let generated = nested_slots_impl(Args::default(), fn_decl("foo", Some(Vec::new())));
    let expected = expected_api(
        "self",
        Some(Ty::Tuple(Vec::new())),
        Some(vec![Expr::Tuple(Vec::new())]),
        Some(Vec::new()),
    );
    assert_eq!(generated, expected);
}

#[test]
fn one_local_slot() {
    let body = vec![slot_marker(Expr::Atom("69".to_string()), Ty::Path(path(&["i32"])))];
    let generated = nested_slots_impl(Args::default(), fn_decl("foo", Some(body)));
    let expected = expected_api(
        "self",
        Some(Ty::Tuple(vec![Ty::Path(path(&["i32"]))])),
        Some(vec![Expr::Tuple(vec![Expr::Atom("69".to_string())])]),
        Some(vec![ctx_field(0)]),
    );
    assert_eq!(generated, expected);
}

#[test]
fn one_nested_slot() {
    let foo_type = interface_name(InterfaceTy::Type, Some("foo"));
    let foo_init = interface_name(InterfaceTy::InitFn, Some("foo"));
    let foo_enter = interface_name(InterfaceTy::EnterFn, Some("foo"));
    let body = vec![Expr::MacroCall {
        path: path(&["nest"]),
        has_attrs: false,
        payload: Box::new(Expr::Call { func: path(&["foo"]), args: Vec::new() }),
    }];
    let generated = nested_slots_impl(Args::default(), fn_decl("foo", Some(body)));
    let expected = expected_api(
        "self",
        Some(Ty::Tuple(vec![Ty::Path(path(&[&foo_type]))])),
        Some(vec![Expr::Tuple(vec![Expr::Call {
            func: path(&[&foo_init]),
            args: Vec::new(),
        }])]),
        Some(vec![Expr::Call {
            func: path(&[&foo_enter]),
            args: vec![Expr::MutRef(Box::new(ctx_field(0)))],
        }]),
    );
    assert_eq!(generated, expected);
}

#[test]
fn two_slots_keep_encounter_order() {
    let body = vec![
        slot_marker(Expr::Atom("1".to_string()), Ty::Path(path(&["u8"]))),
        Expr::Node(vec![slot_marker(Expr::Atom("2".to_string()), Ty::Path(path(&["u16"])))]),
    ];
    let generated = local_slots_impl(Args::default(), fn_decl("foo", Some(body)));
    assert_eq!(
        generated.ty.ty,
        Some(Ty::Tuple(vec![Ty::Path(path(&["u8"])), Ty::Path(path(&["u16"]))]))
    );
    assert_eq!(
        generated.init_fn.block,
        Some(vec![Expr::Tuple(vec![
            Expr::Atom("1".to_string()),
            Expr::Atom("2".to_string()),
        ])])
    );
    assert_eq!(
        generated.enter_fn.block,
        Some(vec![ctx_field(0), Expr::Node(vec![ctx_field(1)])])
    );
}

#[test]
fn malformed_slot_payload_becomes_diagnostic() {
    let body = vec![Expr::MacroCall {
        path: path(&["local_slot"]),
        has_attrs: false,
        payload: Box::new(Expr::Atom("not a cast".to_string())),
    }];
    let generated = local_slots_impl(Args::default(), fn_decl("foo", Some(body)));
    assert_eq!(generated.ty.ty, Some(Ty::Tuple(Vec::new())));
    assert_eq!(
        generated.enter_fn.block,
        Some(vec![Expr::Diag("expected `value as type` in slot marker".to_string())])
    );
}

#[test]
fn malformed_nest_payload_becomes_diagnostic() {
    let body = vec![Expr::MacroCall {
        path: path(&["nest"]),
        has_attrs: false,
        payload: Box::new(Expr::Atom("not a call".to_string())),
    }];
    let generated = nested_slots_impl(Args::default(), fn_decl("foo", Some(body)));
    assert_eq!(
        generated.enter_fn.block,
        Some(vec![Expr::Diag("expected `target(arguments)` in nest marker".to_string())])
    );
}

#[test]
fn marker_with_attributes_is_not_a_marker() {
    let marker = || Expr::MacroCall {
        path: path(&["local_slot"]),
        has_attrs: true,
        payload: Box::new(Expr::Cast {
            value: Box::new(Expr::Atom("1".to_string())),
            ty: Ty::Path(path(&["u8"])),
        }),
    };
    let generated = local_slots_impl(Args::default(), fn_decl("foo", Some(vec![marker()])));
    assert_eq!(generated.ty.ty, Some(Ty::Tuple(Vec::new())));
    assert_eq!(generated.enter_fn.block, Some(vec![marker()]));
}

#[test]
fn nested_item_definitions_are_skipped() {
    let inner = || Expr::ItemDecl(Box::new(slot_marker(
        Expr::Atom("1".to_string()),
        Ty::Path(path(&["u8"])),
    )));
    let generated = local_slots_impl(Args::default(), fn_decl("foo", Some(vec![inner()])));
    assert_eq!(generated.ty.ty, Some(Ty::Tuple(Vec::new())));
    assert_eq!(generated.enter_fn.block, Some(vec![inner()]));
}

#[test]
fn closures_are_descended_into() {
    let body = vec![Expr::Closure(Box::new(slot_marker(
        Expr::Atom("1".to_string()),
        Ty::Path(path(&["u8"])),
    )))];
    let generated = local_slots_impl(Args::default(), fn_decl("foo", Some(body)));
    assert_eq!(generated.ty.ty, Some(Ty::Tuple(vec![Ty::Path(path(&["u8"]))])));
    assert_eq!(generated.enter_fn.block, Some(vec![Expr::Closure(Box::new(ctx_field(0)))]));
}

#[test]
fn unrecognized_macro_payload_is_left_alone() {
    let other = || Expr::MacroCall {
        path: path(&["helper"]),
        has_attrs: false,
        payload: Box::new(Expr::Cast {
            value: Box::new(Expr::Atom("1".to_string())),
            ty: Ty::Path(path(&["u8"])),
        }),
    };
    let generated = local_slots_impl(Args::default(), fn_decl("foo", Some(vec![other()])));
    assert_eq!(generated.ty.ty, Some(Ty::Tuple(Vec::new())));
    assert_eq!(generated.enter_fn.block, Some(vec![other()]));
}

#[test]
fn self_type_namespace_prefixes_with_self_type() {
    let generated = local_slots_impl(
        Args { namespace: Namespace::SelfType },
        fn_decl("foo", Some(Vec::new())),
    );
    let foo_type = interface_name(InterfaceTy::Type, Some("foo"));
    assert_eq!(generated.init_fn.output, Some(qualified("Self", &foo_type)));
    assert_eq!(
        generated.enter_fn.inputs.last().unwrap().ty,
        Ty::MutRef(Box::new(qualified("Self", &foo_type)))
    );
}

#[test]
fn interface_path_keeps_prefix_and_mangles_last_segment() {
    let req = InterfaceReq {
        interface: InterfaceTy::Type,
        path: Some(path(&["some", "path", "foo"])),
    };
    let resolved = local_slots_interface_impl(req).unwrap();
    let foo_type = interface_name(InterfaceTy::Type, Some("foo"));
    assert_eq!(resolved, path(&["some", "path", &foo_type]));
}

#[test]
fn interface_empty_path_is_an_error() {
    let req = InterfaceReq { interface: InterfaceTy::Type, path: Some(path(&[])) };
    let err = local_slots_interface_impl(req).unwrap_err();
    assert_eq!(err.msg, "Expected nonempty path");
}

#[test]
fn mangling_is_deterministic_and_collision_free() {
    let a = InterfaceTy::Type.mangle_ident("foo");
    let b = InterfaceTy::Type.mangle_ident("foo");
    assert_eq!(a, b);
    let kinds = [
        InterfaceTy::Type,
        InterfaceTy::InitFn,
        InterfaceTy::EnterFn,
        InterfaceTy::EnterCtx,
    ];
    let mut names: Vec<String> = Vec::new();
    for kind in kinds {
        names.push(kind.mangle_ident("foo"));
        names.push(kind.mangle_ident("bar"));
    }
    for i in 0..names.len() {
        for j in 0..names.len() {
            if i != j {
                assert_ne!(names[i], names[j]);
            }
        }
    }
}

#[test]
fn nest_inside_nest_arguments_expands_both() {
    let inner = Expr::MacroCall {
        path: path(&["nest"]),
        has_attrs: false,
        payload: Box::new(Expr::Call { func: path(&["bar"]), args: Vec::new() }),
    };
    let body = vec![Expr::MacroCall {
        path: path(&["nest"]),
        has_attrs: false,
        payload: Box::new(Expr::Call { func: path(&["foo"]), args: vec![inner] }),
    }];
    let generated = nested_slots_impl(Args::default(), fn_decl("foo", Some(body)));
    let bar_type = {
        let req = InterfaceReq { interface: InterfaceTy::Type, path: Some(path(&["bar"])) };
        local_slots_interface_impl(req).unwrap().segments.last().unwrap().clone()
    };
    let foo_type = interface_name(InterfaceTy::Type, Some("foo"));
    let foo_enter = interface_name(InterfaceTy::EnterFn, Some("foo"));
    let bar_enter = {
        let req = InterfaceReq { interface: InterfaceTy::EnterFn, path: Some(path(&["bar"])) };
        local_slots_interface_impl(req).unwrap().segments.last().unwrap().clone()
    };
    // pre-order: the inner call's slot is met first, then the outer one
    assert_eq!(
        generated.ty.ty,
        Some(Ty::Tuple(vec![Ty::Path(path(&[&bar_type])), Ty::Path(path(&[&foo_type]))]))
    );
    assert_eq!(
        generated.enter_fn.block,
        Some(vec![Expr::Call {
            func: path(&[&foo_enter]),
            args: vec![
                Expr::Call {
                    func: path(&[&bar_enter]),
                    args: vec![Expr::MutRef(Box::new(ctx_field(0)))],
                },
                Expr::MutRef(Box::new(ctx_field(1))),
            ],
        }])
    );
}

#[test]
fn mangled_names_have_the_documented_shape() {
    assert_eq!(
        InterfaceTy::Type.mangle_ident("foo"),
        "foo_type_local_slots_e67dd0c1_f2a8_4161_aa1b_18cdaec4e496"
    );
    assert_eq!(
        InterfaceTy::EnterCtx.into_mangled_ident(),
        "context_local_slots_e67dd0c1_f2a8_4161_aa1b_18cdaec4e496"
    );
}
