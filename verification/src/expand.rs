//! The nest expander.
//!
//! A pre-pass over a function body that rewrites every nest marker
//! `nest!(target(arguments))` into a call to `target`'s generated entry
//! function, with the original arguments in their written order and one
//! synthesized trailing argument: a mutable reference to a fresh slot
//! whose declared type is `target`'s context type and whose initializer
//! is a call to `target`'s initializer function.  The slot collector
//! then picks that marker up like any written one.
//!
//! The walk skips nested item definitions and unrecognized macro
//! payloads exactly as the collector does.  A nest marker whose payload
//! is not a path call — or whose target path has no segments — is
//! replaced by an inline diagnostic at that site, and the walk goes on.

use crate::ast::{
    Expr, ExprV, Ty, TyV, clone_path, exprs_view, lemma_exprs_view_drop_first,
    lemma_exprs_view_push, path_of_ident,
};
use crate::collect::{is_marker, path_is, slot_marker_name};
use crate::mangle::{InterfaceTy, empty_path_msg, spec_mangle_path};
use vstd::prelude::*;

verus! {

/// The path that marks a nested invocation.
pub open spec fn nest_marker_name() -> Seq<char> {
    "nest"@
}

/// The message left at the site of a nest marker whose payload is not
/// `target(arguments)`.
pub open spec fn nest_payload_msg() -> Seq<char> {
    "expected `target(arguments)` in nest marker"@
}

/// The synthesized trailing argument of an expanded nest marker: a
/// mutable reference to a fresh slot holding `target`'s context,
/// declared with `target`'s mangled context type and initialized by a
/// call to `target`'s mangled initializer.
pub open spec fn synth_slot_arg(func: Seq<Seq<char>>) -> ExprV {
    ExprV::MutRef(
        Box::new(
            ExprV::MacroCall {
                path: seq![slot_marker_name()],
                has_attrs: false,
                payload: Box::new(
                    ExprV::Cast {
                        value: Box::new(
                            ExprV::Call {
                                func: spec_mangle_path(InterfaceTy::InitFn, func),
                                args: Seq::empty(),
                            },
                        ),
                        ty: TyV::Path(spec_mangle_path(InterfaceTy::Type, func)),
                    },
                ),
            },
        ),
    )
}

/// One expression with every nest marker expanded.  A well-formed
/// marker becomes the entry call with its arguments expanded in order
/// and the synthesized slot argument appended; a malformed one becomes
/// a diagnostic; everything else keeps its shape with its children
/// expanded in order.
pub open spec fn expand_nests(e: ExprV) -> ExprV
    decreases e,
{
    match e {
        ExprV::MacroCall { path, has_attrs, payload } => if is_marker(
            path,
            has_attrs,
            nest_marker_name(),
        ) {
            match *payload {
                ExprV::Call { func, args } => if func.len() == 0 {
                    ExprV::Diag(empty_path_msg())
                } else {
                    ExprV::Call {
                        func: spec_mangle_path(InterfaceTy::EnterFn, func),
                        args: expand_nests_list(args).push(synth_slot_arg(func)),
                    }
                },
                _ => ExprV::Diag(nest_payload_msg()),
            }
        } else {
            e
        },
        ExprV::Cast { value, ty } => ExprV::Cast {
            value: Box::new(expand_nests(*value)),
            ty,
        },
        ExprV::Call { func, args } => ExprV::Call { func, args: expand_nests_list(args) },
        ExprV::Tuple(es) => ExprV::Tuple(expand_nests_list(es)),
        ExprV::MutRef(inner) => ExprV::MutRef(Box::new(expand_nests(*inner))),
        ExprV::FieldIndex { base, index } => ExprV::FieldIndex {
            base: Box::new(expand_nests(*base)),
            index,
        },
        ExprV::Closure(body) => ExprV::Closure(Box::new(expand_nests(*body))),
        ExprV::Node(es) => ExprV::Node(expand_nests_list(es)),
        _ => e,
    }
}

/// A list of expressions with every nest marker expanded, in order.
pub open spec fn expand_nests_list(es: Seq<ExprV>) -> Seq<ExprV>
    decreases es,
{
    if es.len() == 0 {
        Seq::empty()
    } else {
        seq![expand_nests(es[0])] + expand_nests_list(es.drop_first())
    }
}

/// Expands every nest marker in one expression.
pub fn nest_expand(e: Expr) -> (r: Expr)
    ensures
        r@ == expand_nests(e@),
    decreases e,
{
    let ghost e0 = e;
    match e {
        Expr::MacroCall { path, has_attrs, payload } => {
            if !has_attrs && path_is(&path, "nest") {
                let ghost pay0 = *payload;
                match *payload {
                    Expr::Call { func, args } => {
                        let ghost func0 = func;
                        let ghost args0 = args;
                        if func.segments.len() == 0 {
                            Expr::Diag(String::from_str("Expected nonempty path"))
                        } else {
                            let init_res = InterfaceTy::InitFn.mangle_path(clone_path(&func));
                            let type_res = InterfaceTy::Type.mangle_path(clone_path(&func));
                            let enter_res = InterfaceTy::EnterFn.mangle_path(func);
                            match (init_res, type_res, enter_res) {
                                (Ok(init_path), Ok(type_path), Ok(enter_path)) => {
                                    let mut new_args = nest_expand_list(args);
                                    let ghost new_args0 = new_args@;
                                    let init_args: Vec<Expr> = Vec::new();
                                    proof {
                                        assert(exprs_view(init_args@) =~= Seq::<ExprV>::empty());
                                    }
                                    let inner_call = Expr::Call {
                                        func: init_path,
                                        args: init_args,
                                    };
                                    let ghost ic0 = inner_call;
                                    proof {
                                        assert(ic0@ == ExprV::Call {
                                            func: spec_mangle_path(InterfaceTy::InitFn, func0@),
                                            args: Seq::empty(),
                                        });
                                    }
                                    let cast = Expr::Cast {
                                        value: Box::new(inner_call),
                                        ty: Ty::Path(type_path),
                                    };
                                    let ghost cast0 = cast;
                                    proof {
                                        assert(cast0@ == ExprV::Cast {
                                            value: Box::new(ic0@),
                                            ty: TyV::Path(
                                                spec_mangle_path(InterfaceTy::Type, func0@),
                                            ),
                                        });
                                    }
                                    let mac = Expr::MacroCall {
                                        path: path_of_ident(String::from_str("local_slot")),
                                        has_attrs: false,
                                        payload: Box::new(cast),
                                    };
                                    let ghost mac0 = mac;
                                    proof {
                                        assert(mac0@ == ExprV::MacroCall {
                                            path: seq![slot_marker_name()],
                                            has_attrs: false,
                                            payload: Box::new(cast0@),
                                        });
                                    }
                                    let synth = Expr::MutRef(Box::new(mac));
                                    let ghost synth0 = synth;
                                    proof {
                                        assert(synth0@ == ExprV::MutRef(Box::new(mac0@)));
                                        assert(synth0@ == synth_slot_arg(func0@));
                                        lemma_exprs_view_push(new_args0, synth0);
                                    }
                                    new_args.push(synth);
                                    proof {
                                        assert(new_args@ == new_args0.push(synth0));
                                        assert(exprs_view(new_args@) =~= expand_nests_list(
                                            exprs_view(args0@),
                                        ).push(synth_slot_arg(func0@)));
                                        assert(pay0@ == ExprV::Call {
                                            func: func0@,
                                            args: exprs_view(args0@),
                                        });
                                        assert(e0@ == ExprV::MacroCall {
                                            path: path@,
                                            has_attrs: false,
                                            payload: Box::new(pay0@),
                                        });
                                    }
                                    Expr::Call { func: enter_path, args: new_args }
                                },
                                _ => {
                                    // the target path has a segment, so every
                                    // mangling above returned a path
                                    proof {
                                        assert(false);
                                    }
                                    Expr::Diag(String::new())
                                },
                            }
                        }
                    },
                    _ => Expr::Diag(
                        String::from_str("expected `target(arguments)` in nest marker"),
                    ),
                }
            } else {
                Expr::MacroCall { path, has_attrs, payload }
            }
        },
        Expr::Cast { value, ty } => Expr::Cast { value: Box::new(nest_expand(*value)), ty },
        Expr::Call { func, args } => Expr::Call { func, args: nest_expand_list(args) },
        Expr::Tuple(es) => Expr::Tuple(nest_expand_list(es)),
        Expr::MutRef(inner) => Expr::MutRef(Box::new(nest_expand(*inner))),
        Expr::FieldIndex { base, index } => Expr::FieldIndex {
            base: Box::new(nest_expand(*base)),
            index,
        },
        Expr::Closure(body) => Expr::Closure(Box::new(nest_expand(*body))),
        Expr::Node(es) => Expr::Node(nest_expand_list(es)),
        other => other,
    }
}

/// Expands every nest marker in a list of expressions, in order.
#[verifier::loop_isolation(false)]
pub fn nest_expand_list(es: Vec<Expr>) -> (r: Vec<Expr>)
    ensures
        exprs_view(r@) == expand_nests_list(exprs_view(es@)),
    decreases es@,
{
    let mut rest = es;
    let ghost es0 = rest;
    let mut out: Vec<Expr> = Vec::new();
    proof {
        assert(exprs_view(out@) =~= Seq::<ExprV>::empty());
    }
    while rest.len() > 0
        invariant
            exprs_view(out@) + expand_nests_list(exprs_view(rest@)) == expand_nests_list(
                exprs_view(es0@),
            ),
            rest@.len() <= es0@.len(),
            rest@ == es0@.subrange(es0@.len() - rest@.len(), es0@.len() as int),
        decreases rest@.len(),
    {
        let ghost rest_pre = rest@;
        let x = rest.remove(0);
        proof {
            assert(rest@ =~= rest_pre.drop_first());
            assert(x == rest_pre[0]);
            assert(rest_pre[0] == es0@[es0@.len() - rest_pre.len()]);
            assert(decreases_to!(es0@ => es0@[es0@.len() - rest_pre.len()]));
            lemma_exprs_view_drop_first(rest_pre);
        }
        let ghost out_pre = out@;
        let y = nest_expand(x);
        out.push(y);
        proof {
            lemma_exprs_view_push(out_pre, y);
            assert(out@ == out_pre.push(y));
            assert(exprs_view(out@) == exprs_view(out_pre) + seq![y@]);
            assert(exprs_view(rest_pre) == seq![x@] + exprs_view(rest_pre.drop_first()));
            assert(exprs_view(rest_pre)[0] == x@);
            assert(exprs_view(rest_pre).drop_first() =~= exprs_view(rest@));
            assert(expand_nests_list(exprs_view(rest_pre)) == seq![expand_nests(x@)]
                + expand_nests_list(exprs_view(rest@)));
            assert(exprs_view(out@) + expand_nests_list(exprs_view(rest@)) =~= expand_nests_list(
                exprs_view(es0@),
            ));
            assert(rest@ =~= es0@.subrange(es0@.len() - rest@.len(), es0@.len() as int));
        }
    }
    proof {
        assert(exprs_view(out@) =~= exprs_view(out@) + expand_nests_list(exprs_view(rest@)));
    }
    out
}

} // verus!
