//! The transformation entry points and the assembler.
//!
//! `local_slots_impl` runs the slot collector over a function and
//! assembles the three generated declarations: the context type (a
//! tuple of the collected declared types, in encounter order), the
//! initializer function (returning the tuple of the collected
//! initializer expressions, positionally matching the type), and the
//! entry function (the original signature plus a trailing mutable
//! context parameter, with the rewritten body).  A signature-only
//! input yields signature-only output: no bodies are invented.
//!
//! `nested_slots_impl` first runs the nest expander, turning every
//! nested invocation into an ordinary slot, then does the same.

use crate::ast::{
    Api, ApiV, Expr, ExprV, Param, ParamV, Path, SlotEntry, SlotEntryV, Ty, TyV, UniversalItemFn,
    UniversalItemFnV, UniversalItemType, UniversalItemTypeV, entries_view, exprs_view,
    lemma_tys_view, tys_view,
};
use crate::collect::{collect_slots_list, rewrite_slots_list, slot_entries_list};
use crate::expand::{expand_nests_list, nest_expand_list};
use crate::mangle::{InterfaceTy, Namespace, mangled_base, namespace_name, spec_mangle_ident};
use vstd::prelude::*;

verus! {

/// Configuration of one transform invocation.
#[derive(Debug, Clone, PartialEq, Eq)]
pub struct Args {
    pub namespace: Namespace,
}

impl Default for Args {
    /// With no configuration the enclosing module is the namespace.
    fn default() -> (r: Self)
        ensures
            r.namespace == Namespace::SelfModule,
    {
        Args { namespace: Namespace::SelfModule }
    }
}

/// The context type's fields: the declared types of the collected
/// slots, in encounter order.
pub open spec fn context_fields(entries: Seq<SlotEntryV>) -> Seq<TyV> {
    entries.map_values(|en: SlotEntryV| en.ty)
}

/// The initializer's values: the initializer expressions of the
/// collected slots, positionally matching the context type's fields.
pub open spec fn init_values(entries: Seq<SlotEntryV>) -> Seq<ExprV> {
    entries.map_values(|en: SlotEntryV| en.init)
}

/// The namespace-qualified reference to the generated context type of
/// the function named `ident`.
pub open spec fn qualified_type_path(ns: Namespace, ident: Seq<char>) -> Seq<Seq<char>> {
    seq![namespace_name(ns), spec_mangle_ident(InterfaceTy::Type, ident)]
}

/// The entry function's parameters: the original ones, then the
/// context, a mutable reference to the generated context type.
pub open spec fn enter_params(inputs: Seq<ParamV>, ns: Namespace, ident: Seq<char>) -> Seq<
    ParamV,
> {
    inputs.push(
        ParamV {
            name: mangled_base(InterfaceTy::EnterCtx),
            ty: TyV::MutRef(Box::new(TyV::Path(qualified_type_path(ns, ident)))),
        },
    )
}

/// What transforming a function yields.  With a body, the slots are
/// collected and the three declarations carry bodies; without one,
/// all three are signature-only.
pub open spec fn spec_local_slots(ns: Namespace, f: UniversalItemFnV) -> ApiV {
    let entries = match f.block {
        Some(stmts) => slot_entries_list(stmts),
        None => Seq::empty(),
    };
    ApiV {
        ty: UniversalItemTypeV {
            ident: spec_mangle_ident(InterfaceTy::Type, f.ident),
            ty: match f.block {
                Some(stmts) => Some(TyV::Tuple(context_fields(entries))),
                None => None,
            },
        },
        init_fn: UniversalItemFnV {
            ident: spec_mangle_ident(InterfaceTy::InitFn, f.ident),
            inputs: Seq::empty(),
            output: Some(TyV::Path(qualified_type_path(ns, f.ident))),
            block: match f.block {
                Some(stmts) => Some(seq![ExprV::Tuple(init_values(entries))]),
                None => None,
            },
        },
        enter_fn: UniversalItemFnV {
            ident: spec_mangle_ident(InterfaceTy::EnterFn, f.ident),
            inputs: enter_params(f.inputs, ns, f.ident),
            output: f.output,
            block: match f.block {
                Some(stmts) => Some(rewrite_slots_list(stmts, 0)),
                None => None,
            },
        },
    }
}

/// What the nesting-aware transform yields: the body's nest markers
/// are expanded first, then the slots are collected.
pub open spec fn spec_nested_slots(ns: Namespace, f: UniversalItemFnV) -> ApiV {
    spec_local_slots(
        ns,
        UniversalItemFnV {
            ident: f.ident,
            inputs: f.inputs,
            output: f.output,
            block: match f.block {
                Some(stmts) => Some(expand_nests_list(stmts)),
                None => None,
            },
        },
    )
}

/// Builds the qualified reference `ns :: <mangled type name>`.
fn qualified_type_ref(ns: Namespace, ident: &str) -> (r: Path)
    ensures
        r@ == qualified_type_path(ns, ident@),
{
    let mut segments: Vec<String> = Vec::new();
    segments.push(ns.as_ident());
    segments.push(InterfaceTy::Type.mangle_ident(ident));
    proof {
        assert(segments.deep_view() =~= qualified_type_path(ns, ident@));
    }
    Path { segments }
}

/// Transforms one function: collects its slots and assembles the
/// context type, the initializer and the entry function.
#[verifier::loop_isolation(false)]
pub fn local_slots_impl(args: Args, input: UniversalItemFn) -> (r: Api)
    ensures
        r@ == spec_local_slots(args.namespace, input@),
{
    let UniversalItemFn { ident, mut inputs, output, block } = input;
    let ty_name = InterfaceTy::Type.mangle_ident(ident.as_str());
    let init_name = InterfaceTy::InitFn.mangle_ident(ident.as_str());
    let enter_name = InterfaceTy::EnterFn.mangle_ident(ident.as_str());
    let ghost inputs0 = inputs@;
    let ctx_inner = Ty::Path(qualified_type_ref(args.namespace, ident.as_str()));
    let ghost ctx_inner0 = ctx_inner;
    proof {
        assert(ctx_inner0@ == TyV::Path(qualified_type_path(args.namespace, ident@)));
    }
    let ctx_ty = Ty::MutRef(Box::new(ctx_inner));
    let ghost ctx_ty0 = ctx_ty;
    proof {
        assert(ctx_ty0@ == TyV::MutRef(Box::new(ctx_inner0@)));
    }
    let ctx_param = Param { name: InterfaceTy::EnterCtx.into_mangled_ident(), ty: ctx_ty };
    let ghost ctx_param0 = ctx_param;
    proof {
        assert(ctx_param0@ == ParamV {
            name: mangled_base(InterfaceTy::EnterCtx),
            ty: TyV::MutRef(Box::new(TyV::Path(qualified_type_path(args.namespace, ident@)))),
        });
    }
    inputs.push(ctx_param);
    proof {
        assert(inputs@ == inputs0.push(ctx_param0));
        assert(inputs@.map_values(|p: Param| p@) =~= enter_params(
            inputs0.map_values(|p: Param| p@),
            args.namespace,
            ident@,
        ));
    }
    match block {
        None => {
            let r = Api {
                ty: UniversalItemType { ident: ty_name, ty: None },
                init_fn: UniversalItemFn {
                    ident: init_name,
                    inputs: Vec::new(),
                    output: Some(
                        Ty::Path(qualified_type_ref(args.namespace, ident.as_str())),
                    ),
                    block: None,
                },
                enter_fn: UniversalItemFn {
                    ident: enter_name,
                    inputs,
                    output,
                    block: None,
                },
            };
            proof {
                assert(r.init_fn@.inputs =~= Seq::<ParamV>::empty());
            }
            r
        },
        Some(stmts) => {
            let mut entries: Vec<SlotEntry> = Vec::new();
            let new_stmts = collect_slots_list(stmts, &mut entries);
            let ghost ent0 = entries@;
            let ghost n = entries@.len();
            let mut tys: Vec<Ty> = Vec::new();
            let mut inits: Vec<Expr> = Vec::new();
            while entries.len() > 0
                invariant
                    tys@.len() == inits@.len(),
                    tys@.len() + entries@.len() == n,
                    entries@ == ent0.subrange(tys@.len() as int, n as int),
                    forall|j: int| 0 <= j < tys@.len() ==> #[trigger] tys@[j] == ent0[j].ty,
                    forall|j: int| 0 <= j < inits@.len() ==> #[trigger] inits@[j] == ent0[j].init,
                decreases entries@.len(),
            {
                let en = entries.remove(0);
                proof {
                    assert(en == ent0[tys@.len() as int]);
                    assert(entries@ =~= ent0.subrange(tys@.len() as int + 1, n as int));
                }
                tys.push(en.ty);
                inits.push(en.init);
            }
            proof {
                lemma_tys_view(tys@);
                crate::ast::lemma_exprs_view(inits@);
                assert(tys_view(tys@) =~= context_fields(entries_view(ent0)));
                assert(exprs_view(inits@) =~= init_values(entries_view(ent0)));
            }
            let mut init_body: Vec<Expr> = Vec::new();
            let init_tuple = Expr::Tuple(inits);
            let ghost init_tuple0 = init_tuple;
            proof {
                assert(init_tuple0@ == ExprV::Tuple(init_values(entries_view(ent0))));
            }
            init_body.push(init_tuple);
            proof {
                assert(init_body@ == seq![init_tuple0]);
                crate::ast::lemma_exprs_view(init_body@);
                assert(exprs_view(init_body@) =~= seq![
                    ExprV::Tuple(init_values(entries_view(ent0))),
                ]);
            }
            let r = Api {
                ty: UniversalItemType { ident: ty_name, ty: Some(Ty::Tuple(tys)) },
                init_fn: UniversalItemFn {
                    ident: init_name,
                    inputs: Vec::new(),
                    output: Some(
                        Ty::Path(qualified_type_ref(args.namespace, ident.as_str())),
                    ),
                    block: Some(init_body),
                },
                enter_fn: UniversalItemFn {
                    ident: enter_name,
                    inputs,
                    output,
                    block: Some(new_stmts),
                },
            };
            proof {
                assert(r.init_fn@.inputs =~= Seq::<ParamV>::empty());
            }
            r
        },
    }
}

/// Transforms one function with nesting: expands every nest marker
/// into an ordinary slot, then collects the slots and assembles the
/// three declarations.
pub fn nested_slots_impl(args: Args, input: UniversalItemFn) -> (r: Api)
    ensures
        r@ == spec_nested_slots(args.namespace, input@),
{
    let ghost f0 = input@;
    let UniversalItemFn { ident, inputs, output, block } = input;
    let expanded = match block {
        Some(stmts) => Some(nest_expand_list(stmts)),
        None => None,
    };
    let pre = UniversalItemFn { ident, inputs, output, block: expanded };
    proof {
        assert(pre@ == (UniversalItemFnV {
            ident: f0.ident,
            inputs: f0.inputs,
            output: f0.output,
            block: match f0.block {
                Some(stmts) => Some(expand_nests_list(stmts)),
                None => None,
            },
        }));
    }
    local_slots_impl(args, pre)
}

/// Order preservation: the context type's field order and the
/// initializer's value order both equal the order in which the slots
/// were encountered, whatever the nesting depth of the markers.
pub proof fn lemma_order_preservation(ns: Namespace, f: UniversalItemFnV, stmts: Seq<ExprV>)
    requires
        f.block == Some(stmts),
    ensures
        ({
            let entries = slot_entries_list(stmts);
            let api = spec_local_slots(ns, f);
            &&& api.ty.ty == Some(TyV::Tuple(context_fields(entries)))
            &&& api.init_fn.block == Some(seq![ExprV::Tuple(init_values(entries))])
            &&& context_fields(entries).len() == entries.len()
            &&& init_values(entries).len() == entries.len()
            &&& forall|i: int|
                0 <= i < entries.len() ==> #[trigger] context_fields(entries)[i] == entries[i].ty
                    && init_values(entries)[i] == entries[i].init
        }),
{
}

/// No-slot identity: a function with an empty body yields the unit
/// context type, an initializer returning the unit value, and an entry
/// function whose body is unchanged — empty.
pub proof fn lemma_no_slot_identity(ns: Namespace, f: UniversalItemFnV)
    requires
        f.block == Some(Seq::<ExprV>::empty()),
    ensures
        spec_nested_slots(ns, f).ty.ty == Some(TyV::Tuple(Seq::<TyV>::empty())),
        spec_nested_slots(ns, f).init_fn.block == Some(
            seq![ExprV::Tuple(Seq::<ExprV>::empty())],
        ),
        spec_nested_slots(ns, f).enter_fn.block == f.block,
{
    assert(expand_nests_list(Seq::<ExprV>::empty()) =~= Seq::<ExprV>::empty());
    assert(slot_entries_list(Seq::<ExprV>::empty()) =~= Seq::<SlotEntryV>::empty());
    assert(rewrite_slots_list(Seq::<ExprV>::empty(), 0) =~= Seq::<ExprV>::empty());
    assert(context_fields(Seq::<SlotEntryV>::empty()) =~= Seq::<TyV>::empty());
    assert(init_values(Seq::<SlotEntryV>::empty()) =~= Seq::<ExprV>::empty());
}

/// No-body identity: a signature-only declaration yields a
/// signature-only context type, initializer and entry function — none
/// of the three carries a body.
pub proof fn lemma_no_body_identity(ns: Namespace, f: UniversalItemFnV)
    requires
        f.block is None,
    ensures
        spec_nested_slots(ns, f).ty.ty is None,
        spec_nested_slots(ns, f).init_fn.block is None,
        spec_nested_slots(ns, f).enter_fn.block is None,
{
}

/// The namespace affects only how qualified references are prefixed:
/// the generated names and the generated bodies are the same under
/// both namespaces, and each qualified reference is the namespace's
/// identifier followed by the mangled type name.
pub proof fn lemma_namespace_prefix(ns: Namespace, f: UniversalItemFnV)
    ensures
        spec_local_slots(Namespace::SelfType, f).ty == spec_local_slots(
            Namespace::SelfModule,
            f,
        ).ty,
        spec_local_slots(Namespace::SelfType, f).init_fn.ident == spec_local_slots(
            Namespace::SelfModule,
            f,
        ).init_fn.ident,
        spec_local_slots(Namespace::SelfType, f).enter_fn.ident == spec_local_slots(
            Namespace::SelfModule,
            f,
        ).enter_fn.ident,
        spec_local_slots(Namespace::SelfType, f).init_fn.block == spec_local_slots(
            Namespace::SelfModule,
            f,
        ).init_fn.block,
        spec_local_slots(Namespace::SelfType, f).enter_fn.block == spec_local_slots(
            Namespace::SelfModule,
            f,
        ).enter_fn.block,
        spec_local_slots(ns, f).init_fn.output == Some(
            TyV::Path(seq![namespace_name(ns), spec_mangle_ident(InterfaceTy::Type, f.ident)]),
        ),
{
}

} // verus!
