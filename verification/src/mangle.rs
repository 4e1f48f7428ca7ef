//! Deterministic name mangling for the four generated symbols.
//!
//! Every transformed function gives rise to a context type, an initializer
//! function and an entry function; the entry function also has a context
//! parameter.  Separately transformed functions must agree on each other's
//! generated names without sharing any state, so each name is a pure
//! function of the symbol role and the user identifier, suffixed with a
//! fixed crate-scoped salt.

use crate::ast::{Path, TransformError, path_of_ident};
use vstd::prelude::*;

verus! {

/// Which of the four generated symbols a reference names.
#[derive(Clone, Copy, PartialEq, Eq, Structural, Debug)]
pub enum InterfaceTy {
    /// The generated context type.
    Type,
    /// The generated initializer function.
    InitFn,
    /// The generated entry function.
    EnterFn,
    /// The entry function's context parameter.
    EnterCtx,
}

/// The short role name that starts a mangled identifier.
pub open spec fn kind_name(k: InterfaceTy) -> Seq<char> {
    match k {
        InterfaceTy::Type => "type"@,
        InterfaceTy::InitFn => "init"@,
        InterfaceTy::EnterFn => "enter"@,
        InterfaceTy::EnterCtx => "context"@,
    }
}

/// The crate-scoped tag embedded in every mangled identifier.
pub open spec fn crate_tag() -> Seq<char> {
    "local_slots"@
}

/// The fixed salt that keeps generated names out of the user's namespace.
pub open spec fn salt() -> Seq<char> {
    "e67dd0c1_f2a8_4161_aa1b_18cdaec4e496"@
}

/// The base mangled identifier for a role: `<role>_<tag>_<salt>`.
pub open spec fn mangled_base(k: InterfaceTy) -> Seq<char> {
    kind_name(k) + "_"@ + crate_tag() + "_"@ + salt()
}

/// The mangled identifier for a role applied to a user identifier:
/// `<ident>_<role>_<tag>_<salt>`.
pub open spec fn spec_mangle_ident(k: InterfaceTy, ident: Seq<char>) -> Seq<char> {
    ident + "_"@ + mangled_base(k)
}

impl InterfaceTy {
    /// The role name as an executable string slice.
    pub fn kind_str(self) -> (r: &'static str)
        ensures
            r@ == kind_name(self),
    {
        match self {
            InterfaceTy::Type => "type",
            InterfaceTy::InitFn => "init",
            InterfaceTy::EnterFn => "enter",
            InterfaceTy::EnterCtx => "context",
        }
    }

    /// The base mangled identifier from the role alone.  This is the name
    /// of the entry function's context parameter, which needs no
    /// per-function part because it is a local binding, not an exported
    /// symbol.
    pub fn into_mangled_ident(self) -> (r: String)
        ensures
            r@ == mangled_base(self),
    {
        let mut s = String::new();
        s.append(self.kind_str());
        s.append("_");
        s.append("local_slots");
        s.append("_");
        s.append("e67dd0c1_f2a8_4161_aa1b_18cdaec4e496");
        s
    }

    /// The mangled identifier for this role of the function named `ident`:
    /// the user identifier followed by the base mangled form.
    pub fn mangle_ident(self, ident: &str) -> (r: String)
        ensures
            r@ == spec_mangle_ident(self, ident@),
    {
        let mut s = String::from_str(ident);
        s.append("_");
        let base = self.into_mangled_ident();
        s.append(base.as_str());
        s
    }

    /// Replaces the final segment of `path` with its mangled form for
    /// this role; a path with no segments is a usage error, reported
    /// with a message and no output.
    pub fn mangle_path(self, path: Path) -> (r: Result<Path, TransformError>)
        ensures
            path@.len() == 0 ==> (r matches Err(e) && e.msg@ == empty_path_msg()),
            path@.len() > 0 ==> (r matches Ok(p) && p@ == spec_mangle_path(self, path@)),
    {
        let Path { mut segments } = path;
        match segments.pop() {
            None => Err(TransformError { msg: String::from_str("Expected nonempty path") }),
            Some(last) => {
                let mangled = self.mangle_ident(last.as_str());
                segments.push(mangled);
                proof {
                    assert(segments.deep_view() =~= spec_mangle_path(self, path@));
                }
                Ok(Path { segments })
            },
        }
    }
}

/// The message reported for an interface request on a path with no
/// segments.
pub open spec fn empty_path_msg() -> Seq<char> {
    "Expected nonempty path"@
}

/// A path with its final segment replaced by the mangled form of that
/// segment for role `k`.
pub open spec fn spec_mangle_path(k: InterfaceTy, p: Seq<Seq<char>>) -> Seq<Seq<char>> {
    p.update(p.len() - 1, spec_mangle_ident(k, p.last()))
}

/// Whether a generated reference is qualified against the enclosing
/// type (`Self`) or the enclosing module (`self`).
#[derive(Debug, Clone, Copy, PartialEq, Eq, Structural)]
pub enum Namespace {
    SelfType,
    SelfModule,
}

/// The identifier a namespace prefixes qualified references with.
pub open spec fn namespace_name(ns: Namespace) -> Seq<char> {
    match ns {
        Namespace::SelfType => "Self"@,
        Namespace::SelfModule => "self"@,
    }
}

impl Namespace {
    /// The namespace prefix as an executable string.
    pub fn as_ident(&self) -> (r: String)
        ensures
            r@ == namespace_name(*self),
    {
        match self {
            Namespace::SelfType => String::from_str("Self"),
            Namespace::SelfModule => String::from_str("self"),
        }
    }
}

impl Default for Namespace {
    /// With no configuration the enclosing module is the namespace.
    fn default() -> (r: Self)
        ensures
            r == Namespace::SelfModule,
    {
        Namespace::SelfModule
    }
}

/// A request for one of the four generated symbols: the role, and
/// optionally an explicit path whose final segment names the function.
#[derive(Debug, PartialEq, Eq)]
pub struct InterfaceReq {
    pub interface: InterfaceTy,
    pub path: Option<Path>,
}

/// Resolves an interface request.  With an explicit path, the final
/// segment is replaced by its mangled form and the prefix is kept;
/// an explicit path with no segments is reported as an error.  With no
/// path, the bare base mangled identifier for the role is produced.
pub fn local_slots_interface_impl(req: InterfaceReq) -> (r: Result<Path, TransformError>)
    ensures
        (match req.path {
            Some(p) => {
                &&& p@.len() == 0 ==> (r matches Err(e) && e.msg@ == empty_path_msg())
                &&& p@.len() > 0 ==> (r matches Ok(q) && q@ == spec_mangle_path(
                    req.interface,
                    p@,
                ))
            },
            None => r matches Ok(q) && q@ == seq![mangled_base(req.interface)],
        }),
{
    match req.path {
        Some(p) => req.interface.mangle_path(p),
        None => Ok(path_of_ident(req.interface.into_mangled_ident())),
    }
}

/// Resolving an interface reference through an explicit path touches
/// only the final segment: every earlier segment comes through
/// unchanged, and the last segment becomes the role-mangled form of the
/// original last segment.
pub proof fn lemma_mangle_path_round_trip(k: InterfaceTy, p: Seq<Seq<char>>)
    requires
        p.len() > 0,
    ensures
        spec_mangle_path(k, p).len() == p.len(),
        forall|i: int| 0 <= i < p.len() - 1 ==> spec_mangle_path(k, p)[i] == p[i],
        spec_mangle_path(k, p).last() == spec_mangle_ident(k, p.last()),
{
}

/// Mangling is collision-free as well as deterministic: two
/// role-and-identifier pairs produce the same mangled identifier exactly
/// when the roles are equal and the identifiers are equal.  Separately
/// transformed functions therefore never clash, and agree on each
/// other's generated names without any shared state.
pub proof fn lemma_mangle_injective(k1: InterfaceTy, i1: Seq<char>, k2: InterfaceTy, i2: Seq<char>)
    ensures
        spec_mangle_ident(k1, i1) == spec_mangle_ident(k2, i2) <==> (k1 == k2 && i1 == i2),
{
    reveal_strlit("type");
    reveal_strlit("init");
    reveal_strlit("enter");
    reveal_strlit("context");
    reveal_strlit("_");
    reveal_strlit("local_slots");
    reveal_strlit("e67dd0c1_f2a8_4161_aa1b_18cdaec4e496");
    let s1 = spec_mangle_ident(k1, i1);
    let s2 = spec_mangle_ident(k2, i2);
    let n1 = kind_name(k1);
    let n2 = kind_name(k2);
    if s1 == s2 {
        let len = s1.len() as int;
        assert(s1[len - 50] == n1[n1.len() - 1]);
        assert(s1[len - 51] == n1[n1.len() - 2]);
        assert(s2[len - 50] == n2[n2.len() - 1]);
        assert(s2[len - 51] == n2[n2.len() - 2]);
        assert(k1 == k2);
        assert(i1.len() == i2.len());
        assert forall|j: int| 0 <= j < i1.len() implies i1[j] == i2[j] by {
            assert(s1[j] == i1[j]);
            assert(s2[j] == i2[j]);
        }
        assert(i1 =~= i2);
    }
}

} // verus!
