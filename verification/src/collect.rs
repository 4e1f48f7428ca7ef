//! The slot collector.
//!
//! A pre-order walk over a function body that finds every slot marker
//! `local_slot!(value as type)`, records the pair of declared type and
//! initializer expression in encounter order, and replaces the marker
//! with an indexed field access into the context parameter.  The index
//! of each access is the position of its entry in the collected
//! sequence.
//!
//! The walk does not descend into nested item definitions — a slot
//! belongs to the top-level statement sequence of the transformed
//! function, and an unrelated inner function's markers must not be
//! captured — but it does descend into every ordinary sub-expression,
//! closures included.  It also leaves the payload of an unrecognized
//! macro invocation alone.  A marker whose payload is not a cast is
//! replaced by an inline diagnostic at that exact site, and the walk
//! continues: one malformed marker does not stop the others from being
//! collected.

use crate::ast::{
    Expr, ExprV, Path, SlotEntry, SlotEntryV, entries_view, exprs_view, lemma_exprs_view_drop_first,
    lemma_exprs_view_push, path_of_ident,
};
use crate::mangle::{InterfaceTy, mangled_base};
use vstd::prelude::*;

verus! {

/// The path that marks a slot.
pub open spec fn slot_marker_name() -> Seq<char> {
    "local_slot"@
}

/// A macro invocation is a recognized marker when it carries no
/// attributes and its path is exactly the one-segment marker name.
pub open spec fn is_marker(path: Seq<Seq<char>>, has_attrs: bool, name: Seq<char>) -> bool {
    &&& !has_attrs
    &&& path.len() == 1
    &&& path[0] == name
}

/// The message left at the site of a slot marker whose payload is not
/// `value as type`.
pub open spec fn slot_payload_msg() -> Seq<char> {
    "expected `value as type` in slot marker"@
}

/// The expression that reads the context parameter.
pub open spec fn ctx_expr() -> ExprV {
    ExprV::PathExpr(seq![mangled_base(InterfaceTy::EnterCtx)])
}

/// The slots of one expression, in pre-order.  A well-formed marker
/// contributes its declared type and initializer and nothing below it;
/// a malformed marker contributes nothing; item definitions and
/// unrecognized macro payloads are not entered.
pub open spec fn slot_entries(e: ExprV) -> Seq<SlotEntryV>
    decreases e,
{
    match e {
        ExprV::MacroCall { path, has_attrs, payload } => if is_marker(
            path,
            has_attrs,
            slot_marker_name(),
        ) {
            match *payload {
                ExprV::Cast { value, ty } => seq![SlotEntryV { ty, init: *value }],
                _ => Seq::empty(),
            }
        } else {
            Seq::empty()
        },
        ExprV::Cast { value, ty } => slot_entries(*value),
        ExprV::Call { func, args } => slot_entries_list(args),
        ExprV::Tuple(es) => slot_entries_list(es),
        ExprV::MutRef(inner) => slot_entries(*inner),
        ExprV::FieldIndex { base, index } => slot_entries(*base),
        ExprV::Closure(body) => slot_entries(*body),
        ExprV::Node(es) => slot_entries_list(es),
        _ => Seq::empty(),
    }
}

/// The slots of a list of expressions, in order.
pub open spec fn slot_entries_list(es: Seq<ExprV>) -> Seq<SlotEntryV>
    decreases es,
{
    if es.len() == 0 {
        Seq::empty()
    } else {
        slot_entries(es[0]) + slot_entries_list(es.drop_first())
    }
}

/// One expression rewritten, its first slot getting index `k`.  A
/// well-formed marker becomes `context.k`; a malformed one becomes a
/// diagnostic; everything else keeps its shape with its children
/// rewritten in order, indices threaded left to right.
pub open spec fn rewrite_slots(e: ExprV, k: int) -> ExprV
    decreases e,
{
    match e {
        ExprV::MacroCall { path, has_attrs, payload } => if is_marker(
            path,
            has_attrs,
            slot_marker_name(),
        ) {
            match *payload {
                ExprV::Cast { value, ty } => ExprV::FieldIndex {
                    base: Box::new(ctx_expr()),
                    index: k,
                },
                _ => ExprV::Diag(slot_payload_msg()),
            }
        } else {
            e
        },
        ExprV::Cast { value, ty } => ExprV::Cast {
            value: Box::new(rewrite_slots(*value, k)),
            ty,
        },
        ExprV::Call { func, args } => ExprV::Call { func, args: rewrite_slots_list(args, k) },
        ExprV::Tuple(es) => ExprV::Tuple(rewrite_slots_list(es, k)),
        ExprV::MutRef(inner) => ExprV::MutRef(Box::new(rewrite_slots(*inner, k))),
        ExprV::FieldIndex { base, index } => ExprV::FieldIndex {
            base: Box::new(rewrite_slots(*base, k)),
            index,
        },
        ExprV::Closure(body) => ExprV::Closure(Box::new(rewrite_slots(*body, k))),
        ExprV::Node(es) => ExprV::Node(rewrite_slots_list(es, k)),
        _ => e,
    }
}

/// A list of expressions rewritten, the first slot getting index `k`
/// and each later expression starting where the ones before it ended.
pub open spec fn rewrite_slots_list(es: Seq<ExprV>, k: int) -> Seq<ExprV>
    decreases es,
{
    if es.len() == 0 {
        Seq::empty()
    } else {
        seq![rewrite_slots(es[0], k)] + rewrite_slots_list(
            es.drop_first(),
            k + slot_entries(es[0]).len(),
        )
    }
}

/// Whether `p` is the bare one-segment path spelled `name`.
pub fn path_is(p: &Path, name: &str) -> (b: bool)
    ensures
        b == (p@.len() == 1 && p@[0] == name@),
{
    if p.segments.len() == 1 {
        let want = String::from_str(name);
        p.segments[0] == want
    } else {
        false
    }
}

/// The expression that reads the context parameter, as a tree.
pub fn ctx_param_expr() -> (r: Expr)
    ensures
        r@ == ctx_expr(),
{
    Expr::PathExpr(path_of_ident(InterfaceTy::EnterCtx.into_mangled_ident()))
}

/// Walks one expression, appending its slots to `entries` and returning
/// the rewritten expression, whose first slot index is the number of
/// entries already collected.
pub fn collect_slots(e: Expr, entries: &mut Vec<SlotEntry>) -> (r: Expr)
    ensures
        r@ == rewrite_slots(e@, old(entries)@.len() as int),
        entries_view(final(entries)@) == entries_view(old(entries)@) + slot_entries(e@),
    decreases e,
{
    let ghost e0 = e;
    let result = match e {
        Expr::MacroCall { path, has_attrs, payload } => {
            if !has_attrs && path_is(&path, "local_slot") {
                let ghost pay0 = *payload;
                match *payload {
                    Expr::Cast { value, ty } => {
                        let ghost ty0 = ty;
                        let ghost v0 = *value;
                        let index = entries.len();
                        entries.push(SlotEntry { ty, init: *value });
                        proof {
                            assert(is_marker(path@, has_attrs, slot_marker_name()));
                            assert(pay0@ == ExprV::Cast { value: Box::new(v0@), ty: ty0@ });
                            assert(e0@ == ExprV::MacroCall {
                                path: path@,
                                has_attrs: false,
                                payload: Box::new(pay0@),
                            });
                            assert(slot_entries(e0@) =~= seq![
                                SlotEntryV { ty: ty0@, init: v0@ },
                            ]);
                            assert(entries_view(entries@) =~= entries_view(old(entries)@)
                                + slot_entries(e0@));
                        }
                        Expr::FieldIndex { base: Box::new(ctx_param_expr()), index }
                    },
                    _ => Expr::Diag(String::from_str("expected `value as type` in slot marker")),
                }
            } else {
                Expr::MacroCall { path, has_attrs, payload }
            }
        },
        Expr::Cast { value, ty } => {
            let v = collect_slots(*value, entries);
            Expr::Cast { value: Box::new(v), ty }
        },
        Expr::Call { func, args } => {
            let new_args = collect_slots_list(args, entries);
            Expr::Call { func, args: new_args }
        },
        Expr::Tuple(es) => Expr::Tuple(collect_slots_list(es, entries)),
        Expr::MutRef(inner) => Expr::MutRef(Box::new(collect_slots(*inner, entries))),
        Expr::FieldIndex { base, index } => Expr::FieldIndex {
            base: Box::new(collect_slots(*base, entries)),
            index,
        },
        Expr::Closure(body) => Expr::Closure(Box::new(collect_slots(*body, entries))),
        Expr::Node(es) => Expr::Node(collect_slots_list(es, entries)),
        other => other,
    };
    proof {
        assert(entries_view(entries@) =~= entries_view(entries@) + Seq::<SlotEntryV>::empty());
    }
    result
}

/// Walks a list of expressions in order, threading the entry sequence
/// through, so that indices keep counting across the list.
#[verifier::loop_isolation(false)]
pub fn collect_slots_list(es: Vec<Expr>, entries: &mut Vec<SlotEntry>) -> (r: Vec<Expr>)
    ensures
        exprs_view(r@) == rewrite_slots_list(exprs_view(es@), old(entries)@.len() as int),
        entries_view(final(entries)@) == entries_view(old(entries)@) + slot_entries_list(
            exprs_view(es@),
        ),
    decreases es@,
{
    let mut rest = es;
    let ghost es0 = rest;
    let ghost k0 = old(entries)@.len() as int;
    let mut out: Vec<Expr> = Vec::new();
    proof {
        assert(exprs_view(out@) =~= Seq::<ExprV>::empty());
        assert(entries_view(entries@) =~= entries_view(old(entries)@) + Seq::<
            SlotEntryV,
        >::empty());
    }
    while rest.len() > 0
        invariant
            exprs_view(out@) + rewrite_slots_list(exprs_view(rest@), entries@.len() as int)
                == rewrite_slots_list(exprs_view(es0@), k0),
            entries_view(entries@) + slot_entries_list(exprs_view(rest@)) == entries_view(
                old(entries)@,
            ) + slot_entries_list(exprs_view(es0@)),
            entries@.len() >= old(entries)@.len(),
            rest@.len() <= es0@.len(),
            rest@ == es0@.subrange(es0@.len() - rest@.len(), es0@.len() as int),
        decreases rest@.len(),
    {
        let ghost rest_pre = rest@;
        let x = rest.remove(0);
        proof {
            assert(rest@ =~= rest_pre.drop_first());
            assert(x == rest_pre[0]);
            assert(rest_pre[0] == es0@[es0@.len() - rest_pre.len()]);
            assert(decreases_to!(es0@ => es0@[es0@.len() - rest_pre.len()]));
            lemma_exprs_view_drop_first(rest_pre);
        }
        let ghost k_here = entries@.len() as int;
        let ghost out_pre = out@;
        let ghost entries_pre = entries@;
        let y = collect_slots(x, entries);
        out.push(y);
        proof {
            lemma_exprs_view_push(out_pre, y);
            assert(out@ == out_pre.push(y));
            assert(exprs_view(out@) == exprs_view(out_pre) + seq![y@]);
            assert(entries_view(entries@) == entries_view(entries_pre) + slot_entries(x@));
            assert(entries_view(entries@).len() == entries@.len());
            assert(entries_view(entries_pre).len() == entries_pre.len());
            assert(entries@.len() as int == k_here + slot_entries(x@).len() as int);
            assert(exprs_view(rest_pre) == seq![x@] + exprs_view(rest_pre.drop_first()));
            assert(exprs_view(rest_pre)[0] == x@);
            assert(exprs_view(rest_pre).drop_first() =~= exprs_view(rest@));
            assert(rewrite_slots_list(exprs_view(rest_pre), k_here) == seq![
                rewrite_slots(x@, k_here),
            ] + rewrite_slots_list(exprs_view(rest@), k_here + slot_entries(x@).len() as int));
            assert(slot_entries_list(exprs_view(rest_pre)) == slot_entries(x@)
                + slot_entries_list(exprs_view(rest@)));
            assert(exprs_view(out@) + rewrite_slots_list(exprs_view(rest@), entries@.len() as int)
                =~= rewrite_slots_list(exprs_view(es0@), k0));
            assert(entries_view(entries@) + slot_entries_list(exprs_view(rest@)) =~= entries_view(
                old(entries)@,
            ) + slot_entries_list(exprs_view(es0@)));
            assert(rest@ =~= es0@.subrange(es0@.len() - rest@.len(), es0@.len() as int));
        }
    }
    proof {
        assert(exprs_view(out@) =~= exprs_view(out@) + rewrite_slots_list(
            exprs_view(rest@),
            entries@.len() as int,
        ));
        assert(entries_view(entries@) =~= entries_view(entries@) + slot_entries_list(
            exprs_view(rest@),
        ));
    }
    out
}

} // verus!
