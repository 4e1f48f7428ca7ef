//! The abstract syntax tree the transformer works on.
//!
//! The transformer reads and rewrites expression trees; it never parses
//! source text.  Each executable type here has a mathematical view (the
//! `*V` types, built from `Seq` and `Seq<char>`) that the contracts and
//! the transformation specifications speak about.
//!
//! The tree distinguishes exactly the shapes the transformation reacts
//! to: macro invocations (the slot and nest markers), casts (`value as
//! type`, the payload of a slot marker), calls with a path callee (the
//! payload of a nest marker), and nested item definitions (which the
//! slot walk must not enter).  Every other expression is either an
//! opaque `Atom` or a `Node` whose children are walked in order.

use vstd::prelude::*;

verus! {

/// A `::`-separated path, stored as its segments in order.
#[derive(Debug, PartialEq, Eq)]
pub struct Path {
    pub segments: Vec<String>,
}

impl View for Path {
    type V = Seq<Seq<char>>;

    open spec fn view(&self) -> Seq<Seq<char>> {
        self.segments.deep_view()
    }
}

/// Makes an equal path, so one source path can feed several mangled names.
pub fn clone_path(p: &Path) -> (r: Path)
    ensures
        r@ == p@,
{
    let mut segments: Vec<String> = Vec::new();
    let n = p.segments.len();
    let mut i: usize = 0;
    while i < n
        invariant
            i <= n,
            n == p.segments.len(),
            segments.len() == i,
            forall|j: int| 0 <= j < i ==> segments@[j]@ == p.segments@[j]@,
        decreases n - i,
    {
        segments.push(p.segments[i].clone());
        i = i + 1;
    }
    proof {
        assert(segments.deep_view() =~= p.segments.deep_view());
    }
    Path { segments }
}

/// Builds a path from one identifier.
pub fn path_of_ident(ident: String) -> (r: Path)
    ensures
        r@ == seq![ident@],
{
    let mut segments: Vec<String> = Vec::new();
    segments.push(ident);
    proof {
        assert(segments.deep_view() =~= seq![segments@[0]@]);
    }
    Path { segments }
}

/// The view of a type expression.
pub enum TyV {
    /// A path type, such as a named type.
    Path(Seq<Seq<char>>),
    /// A mutable reference type.
    MutRef(Box<TyV>),
    /// A tuple type; the empty tuple is the unit type.
    Tuple(Seq<TyV>),
    /// Any other type, kept as opaque text.
    Opaque(Seq<char>),
}

/// A type expression.  The transformation only ever builds path types,
/// mutable references and tuples; anything the user wrote is carried
/// through unread, possibly as an `Opaque`.
#[derive(Debug, PartialEq, Eq)]
pub enum Ty {
    Path(Path),
    MutRef(Box<Ty>),
    Tuple(Vec<Ty>),
    Opaque(String),
}

/// The view of a list of types, elementwise.
pub open spec fn tys_view(ts: Seq<Ty>) -> Seq<TyV>
    decreases ts,
{
    if ts.len() == 0 {
        Seq::empty()
    } else {
        seq![ts[0]@] + tys_view(ts.drop_first())
    }
}

impl View for Ty {
    type V = TyV;

    open spec fn view(&self) -> TyV
        decreases self,
    {
        match self {
            Ty::Path(p) => TyV::Path(p@),
            Ty::MutRef(t) => TyV::MutRef(Box::new((**t)@)),
            Ty::Tuple(ts) => TyV::Tuple(tys_view(ts@)),
            Ty::Opaque(s) => TyV::Opaque(s@),
        }
    }
}

/// The list view is the elementwise view.
pub broadcast proof fn lemma_tys_view(ts: Seq<Ty>)
    ensures
        (#[trigger] tys_view(ts)).len() == ts.len(),
        forall|i: int| 0 <= i < ts.len() ==> tys_view(ts)[i] == ts[i]@,
    decreases ts,
{
    if ts.len() > 0 {
        lemma_tys_view(ts.drop_first());
        assert(tys_view(ts) == seq![ts[0]@] + tys_view(ts.drop_first()));
        assert forall|i: int| 0 <= i < ts.len() implies tys_view(ts)[i] == ts[i]@ by {
            if i > 0 {
                assert(tys_view(ts)[i] == tys_view(ts.drop_first())[i - 1]);
                assert(ts.drop_first()[i - 1] == ts[i]);
            }
        }
    }
}

/// The view of an expression.
pub enum ExprV {
    Atom(Seq<char>),
    PathExpr(Seq<Seq<char>>),
    MacroCall { path: Seq<Seq<char>>, has_attrs: bool, payload: Box<ExprV> },
    Cast { value: Box<ExprV>, ty: TyV },
    Call { func: Seq<Seq<char>>, args: Seq<ExprV> },
    Tuple(Seq<ExprV>),
    MutRef(Box<ExprV>),
    FieldIndex { base: Box<ExprV>, index: int },
    Closure(Box<ExprV>),
    ItemDecl(Box<ExprV>),
    Node(Seq<ExprV>),
    Diag(Seq<char>),
}

/// An expression.
#[derive(Debug, PartialEq, Eq)]
pub enum Expr {
    /// An opaque leaf: a literal, a variable, any token run the walk
    /// has no interest in.
    Atom(String),
    /// A path in expression position.
    PathExpr(Path),
    /// A macro invocation `path!(payload)`.  The payload stands for the
    /// parsed token argument; a walk only looks at it when the path
    /// names a marker.
    MacroCall { path: Path, has_attrs: bool, payload: Box<Expr> },
    /// A cast `value as ty` — the required shape of a slot payload.
    Cast { value: Box<Expr>, ty: Ty },
    /// A call `func(args)` whose callee is a path — the required shape
    /// of a nest payload.
    Call { func: Path, args: Vec<Expr> },
    /// A tuple `(e, ...)`; the empty tuple is the unit value.
    Tuple(Vec<Expr>),
    /// A mutable borrow `&mut inner`.
    MutRef(Box<Expr>),
    /// A positional field access `base.index`.
    FieldIndex { base: Box<Expr>, index: usize },
    /// A closure value; the walk descends into its body.
    Closure(Box<Expr>),
    /// A nested item definition; the walk does not descend into it.
    ItemDecl(Box<Expr>),
    /// Any other composite expression; the walk descends into the
    /// children in their written order.
    Node(Vec<Expr>),
    /// An inline diagnostic carrying an error message, standing where
    /// a malformed marker stood.
    Diag(String),
}

/// The view of a list of expressions, elementwise.
pub open spec fn exprs_view(es: Seq<Expr>) -> Seq<ExprV>
    decreases es,
{
    if es.len() == 0 {
        Seq::empty()
    } else {
        seq![es[0]@] + exprs_view(es.drop_first())
    }
}

impl View for Expr {
    type V = ExprV;

    open spec fn view(&self) -> ExprV
        decreases self,
    {
        match self {
            Expr::Atom(s) => ExprV::Atom(s@),
            Expr::PathExpr(p) => ExprV::PathExpr(p@),
            Expr::MacroCall { path, has_attrs, payload } => ExprV::MacroCall {
                path: path@,
                has_attrs: *has_attrs,
                payload: Box::new((**payload)@),
            },
            Expr::Cast { value, ty } => ExprV::Cast { value: Box::new((**value)@), ty: ty@ },
            Expr::Call { func, args } => ExprV::Call { func: func@, args: exprs_view(args@) },
            Expr::Tuple(es) => ExprV::Tuple(exprs_view(es@)),
            Expr::MutRef(e) => ExprV::MutRef(Box::new((**e)@)),
            Expr::FieldIndex { base, index } => ExprV::FieldIndex {
                base: Box::new((**base)@),
                index: *index as int,
            },
            Expr::Closure(e) => ExprV::Closure(Box::new((**e)@)),
            Expr::ItemDecl(e) => ExprV::ItemDecl(Box::new((**e)@)),
            Expr::Node(es) => ExprV::Node(exprs_view(es@)),
            Expr::Diag(s) => ExprV::Diag(s@),
        }
    }
}

/// The list view is the elementwise view.
pub broadcast proof fn lemma_exprs_view(es: Seq<Expr>)
    ensures
        (#[trigger] exprs_view(es)).len() == es.len(),
        forall|i: int| 0 <= i < es.len() ==> exprs_view(es)[i] == es[i]@,
    decreases es,
{
    if es.len() > 0 {
        lemma_exprs_view(es.drop_first());
        assert(exprs_view(es) == seq![es[0]@] + exprs_view(es.drop_first()));
        assert forall|i: int| 0 <= i < es.len() implies exprs_view(es)[i] == es[i]@ by {
            if i > 0 {
                assert(exprs_view(es)[i] == exprs_view(es.drop_first())[i - 1]);
                assert(es.drop_first()[i - 1] == es[i]);
            }
        }
    }
}

/// Appending one expression appends its view.
pub proof fn lemma_exprs_view_push(es: Seq<Expr>, x: Expr)
    ensures
        exprs_view(es.push(x)) == exprs_view(es) + seq![x@],
{
    lemma_exprs_view(es.push(x));
    lemma_exprs_view(es);
    assert(exprs_view(es.push(x)) =~= exprs_view(es) + seq![x@]);
}

/// Dropping the first expression drops its view.
pub proof fn lemma_exprs_view_drop_first(es: Seq<Expr>)
    requires
        es.len() > 0,
    ensures
        exprs_view(es.drop_first()) == exprs_view(es).drop_first(),
{
    lemma_exprs_view(es.drop_first());
    lemma_exprs_view(es);
    assert(exprs_view(es.drop_first()) =~= exprs_view(es).drop_first());
}

/// The view of one collected slot.
pub struct SlotEntryV {
    pub ty: TyV,
    pub init: ExprV,
}

/// One collected slot: its declared type and its initializer expression.
/// The position of an entry in the collected sequence is the index of the
/// context field that replaced the marker.
#[derive(Debug, PartialEq, Eq)]
pub struct SlotEntry {
    pub ty: Ty,
    pub init: Expr,
}

impl View for SlotEntry {
    type V = SlotEntryV;

    open spec fn view(&self) -> SlotEntryV {
        SlotEntryV { ty: self.ty@, init: self.init@ }
    }
}

/// The view of a list of slot entries, elementwise.
pub open spec fn entries_view(es: Seq<SlotEntry>) -> Seq<SlotEntryV> {
    es.map_values(|e: SlotEntry| e@)
}

/// The view of one function parameter.
pub struct ParamV {
    pub name: Seq<char>,
    pub ty: TyV,
}

/// A function parameter: a name and a type.
#[derive(Debug, PartialEq, Eq)]
pub struct Param {
    pub name: String,
    pub ty: Ty,
}

impl View for Param {
    type V = ParamV;

    open spec fn view(&self) -> ParamV {
        ParamV { name: self.name@, ty: self.ty@ }
    }
}

/// The view of a function declaration.
pub struct UniversalItemFnV {
    pub ident: Seq<char>,
    pub inputs: Seq<ParamV>,
    pub output: Option<TyV>,
    pub block: Option<Seq<ExprV>>,
}

/// A function declaration, with or without a body.  `block` is `None`
/// for a signature-only declaration (`fn f();`); `Some` holds the
/// top-level statement expressions of the body in order.
#[derive(Debug, PartialEq, Eq)]
pub struct UniversalItemFn {
    pub ident: String,
    pub inputs: Vec<Param>,
    pub output: Option<Ty>,
    pub block: Option<Vec<Expr>>,
}

impl View for UniversalItemFn {
    type V = UniversalItemFnV;

    open spec fn view(&self) -> UniversalItemFnV {
        UniversalItemFnV {
            ident: self.ident@,
            inputs: self.inputs@.map_values(|p: Param| p@),
            output: match self.output {
                Some(t) => Some(t@),
                None => None,
            },
            block: match self.block {
                Some(es) => Some(exprs_view(es@)),
                None => None,
            },
        }
    }
}

/// The view of a type alias declaration.
pub struct UniversalItemTypeV {
    pub ident: Seq<char>,
    pub ty: Option<TyV>,
}

/// A type alias declaration, with or without a right-hand side.  `ty`
/// is `None` for a signature-only declaration (`type T;`).
#[derive(Debug, PartialEq, Eq)]
pub struct UniversalItemType {
    pub ident: String,
    pub ty: Option<Ty>,
}

impl View for UniversalItemType {
    type V = UniversalItemTypeV;

    open spec fn view(&self) -> UniversalItemTypeV {
        UniversalItemTypeV {
            ident: self.ident@,
            ty: match self.ty {
                Some(t) => Some(t@),
                None => None,
            },
        }
    }
}

/// The view of the transformer's output.
pub struct ApiV {
    pub ty: UniversalItemTypeV,
    pub init_fn: UniversalItemFnV,
    pub enter_fn: UniversalItemFnV,
}

/// The transformer's output: the context type declaration, the
/// initializer function and the rewritten entry function, emitted
/// together in place of the original function.
#[derive(Debug, PartialEq, Eq)]
pub struct Api {
    pub ty: UniversalItemType,
    pub init_fn: UniversalItemFn,
    pub enter_fn: UniversalItemFn,
}

impl View for Api {
    type V = ApiV;

    open spec fn view(&self) -> ApiV {
        ApiV { ty: self.ty@, init_fn: self.init_fn@, enter_fn: self.enter_fn@ }
    }
}

/// An error carried out of a rejected request, with its message.
#[derive(Debug, Clone, PartialEq, Eq)]
pub struct TransformError {
    pub msg: String,
}

} // verus!
