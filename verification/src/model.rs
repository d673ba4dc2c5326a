//! The type-expression model: the closed set of node kinds the renderer
//! operates over.
//!
//! A tree of these nodes arrives pre-built from the item graph; the renderer
//! reads it and never mutates it. The unions are closed: kinds outside the
//! grammar the renderer covers (a const generic argument, an outlives or
//! precise-capturing bound, a const generic parameter) are explicit variants,
//! and rendering one fails with [`RenderError::UnsupportedNodeKind`].

use vstd::prelude::*;

verus! {

/// A type expression: a type, written structurally.
#[derive(Debug, PartialEq, Eq)]
pub enum TypeExpr {
    /// A built-in scalar or textual type, by name (`"u8"`, `"bool"`, `"str"`).
    Primitive(String),
    /// A named, possibly generic path (`Vec<u8>`).
    ResolvedPath(PathExpr),
    /// A function pointer type.
    FunctionPointer(Box<FunctionSignature>),
    /// One or more object-boxed trait bounds, with an optional lifetime bound.
    DynTrait(DynTraitExpr),
    /// An opaque type satisfying a bound set.
    ImplTrait(Vec<GenericBound>),
    /// A borrowed reference.
    BorrowedRef { lifetime: Option<String>, mutable: bool, inner: Box<TypeExpr> },
    /// A raw pointer.
    RawPointer { mutable: bool, inner: Box<TypeExpr> },
    /// A slice.
    Slice(Box<TypeExpr>),
    /// An array with a length expression, kept verbatim as text.
    Array { inner: Box<TypeExpr>, len: String },
    /// A tuple of element types. A one-element tuple renders exactly like a
    /// single parenthesized type, with no disambiguating trailing separator:
    /// a known representational ambiguity of the output, kept as is.
    Tuple(Vec<TypeExpr>),
    /// An elided type.
    Infer,
    /// A reference to an enclosing generic parameter, by name.
    Generic(String),
    /// An associated-item projection, optionally trait-qualified.
    QualifiedPath {
        name: String,
        args: Option<Box<GenericArgs>>,
        self_type: Box<TypeExpr>,
        trait_path: Option<PathExpr>,
    },
    /// A refined/patterned wrapper that renders identically to its inner type.
    Pat(Box<TypeExpr>),
}

/// A named path with optional generic arguments.
#[derive(Debug, PartialEq, Eq)]
pub struct PathExpr {
    pub name: String,
    pub args: Option<Box<GenericArgs>>,
}

/// The generic arguments attached to a path.
#[derive(Debug, PartialEq, Eq)]
pub enum GenericArgs {
    /// `<arg, ...>`; an empty list renders as nothing at all.
    AngleBracketed(Vec<GenericArg>),
    /// Callable-trait sugar `(T, ...) -> U`; dialect-independent.
    Parenthesized { inputs: Vec<TypeExpr>, output: Option<Box<TypeExpr>> },
    /// The fixed marker `(..)`.
    ReturnTypeNotation,
}

/// One generic argument.
#[derive(Debug, PartialEq, Eq)]
pub enum GenericArg {
    Type(TypeExpr),
    /// A lifetime, rendered verbatim.
    Lifetime(String),
    /// A const generic argument: outside the supported set.
    Const(String),
    Infer,
}

/// A bound on a generic parameter or an opaque type.
#[derive(Debug, PartialEq, Eq)]
pub enum GenericBound {
    /// A trait bound, universally quantified over `generic_params` when that
    /// list is non-empty.
    TraitBound { trait_path: PathExpr, generic_params: Vec<GenericParamDef> },
    /// An outlives bound: outside the supported set.
    Outlives(String),
    /// A precise-capturing bound: outside the supported set.
    Use(Vec<String>),
}

/// A trait path together with its higher-ranked parameters.
#[derive(Debug, PartialEq, Eq)]
pub struct PolyTrait {
    pub trait_path: PathExpr,
    pub generic_params: Vec<GenericParamDef>,
}

/// A generic parameter definition.
#[derive(Debug, PartialEq, Eq)]
pub struct GenericParamDef {
    pub name: String,
    pub kind: GenericParamDefKind,
}

/// The kind of a generic parameter definition.
#[derive(Debug, PartialEq, Eq)]
pub enum GenericParamDefKind {
    Lifetime { outlives: Vec<String> },
    Type { bounds: Vec<GenericBound>, default: Option<Box<TypeExpr>> },
    /// A const generic parameter: outside the supported set.
    Const { type_expr: Box<TypeExpr>, default_expr: Option<String> },
}

/// The `dyn` payload: the bounded traits and an optional lifetime bound.
#[derive(Debug, PartialEq, Eq)]
pub struct DynTraitExpr {
    pub traits: Vec<PolyTrait>,
    pub lifetime: Option<String>,
}

/// An ordered parameter list of named inputs plus an optional output type.
#[derive(Debug, PartialEq, Eq)]
pub struct FunctionSignature {
    pub inputs: Vec<(String, TypeExpr)>,
    pub output: Option<TypeExpr>,
}

/// Whether a type expression lies within the supported node-kind set: no
/// const generic argument or parameter, and no outlives or precise-capturing
/// bound, anywhere in the tree.
pub open spec fn supported_type(ty: TypeExpr) -> bool
    decreases ty,
{
    match ty {
        TypeExpr::Primitive(_) => true,
        TypeExpr::ResolvedPath(path) => supported_path(path),
        TypeExpr::FunctionPointer(sig) => supported_fn_sig(*sig),
        TypeExpr::DynTrait(dt) => supported_poly_trait_list(dt.traits@),
        TypeExpr::ImplTrait(bounds) => supported_bound_list(bounds@),
        TypeExpr::BorrowedRef { inner, .. } => supported_type(*inner),
        TypeExpr::RawPointer { inner, .. } => supported_type(*inner),
        TypeExpr::Slice(inner) => supported_type(*inner),
        TypeExpr::Array { inner, .. } => supported_type(*inner),
        TypeExpr::Tuple(elems) => supported_type_list(elems@),
        TypeExpr::Infer => true,
        TypeExpr::Generic(_) => true,
        TypeExpr::QualifiedPath { args, self_type, trait_path, .. } => supported_type(*self_type)
            && supported_opt_args(args) && (match trait_path {
            Some(tp) => supported_path(tp),
            None => true,
        }),
        TypeExpr::Pat(inner) => supported_type(*inner),
    }
}

/// Whether a path's generic arguments lie within the supported set.
pub open spec fn supported_path(p: PathExpr) -> bool
    decreases p,
{
    supported_opt_args(p.args)
}

/// Whether optional generic arguments lie within the supported set.
pub open spec fn supported_opt_args(args: Option<Box<GenericArgs>>) -> bool
    decreases args,
{
    match args {
        None => true,
        Some(ga) => supported_generic_args(*ga),
    }
}

/// Whether generic arguments lie within the supported set.
pub open spec fn supported_generic_args(ga: GenericArgs) -> bool
    decreases ga,
{
    match ga {
        GenericArgs::AngleBracketed(list) => supported_arg_list(list@),
        GenericArgs::Parenthesized { inputs, output } => supported_type_list(inputs@) && (
        match output {
            Some(o) => supported_type(*o),
            None => true,
        }),
        GenericArgs::ReturnTypeNotation => true,
    }
}

/// Whether one generic argument lies within the supported set: a const
/// generic argument does not.
pub open spec fn supported_generic_arg(a: GenericArg) -> bool
    decreases a,
{
    match a {
        GenericArg::Type(ty) => supported_type(ty),
        GenericArg::Lifetime(_) => true,
        GenericArg::Const(_) => false,
        GenericArg::Infer => true,
    }
}

/// Whether a bound lies within the supported set: only trait bounds do.
pub open spec fn supported_bound(b: GenericBound) -> bool
    decreases b,
{
    match b {
        GenericBound::TraitBound { trait_path, generic_params } => supported_path(trait_path)
            && supported_param_def_list(generic_params@),
        GenericBound::Outlives(_) => false,
        GenericBound::Use(_) => false,
    }
}

/// Whether a poly trait lies within the supported set.
pub open spec fn supported_poly_trait(pt: PolyTrait) -> bool
    decreases pt,
{
    supported_path(pt.trait_path) && supported_param_def_list(pt.generic_params@)
}

/// Whether a generic parameter definition lies within the supported set: a
/// const generic parameter does not.
pub open spec fn supported_param_def(p: GenericParamDef) -> bool
    decreases p,
{
    match p.kind {
        GenericParamDefKind::Lifetime { .. } => true,
        GenericParamDefKind::Type { bounds, default } => supported_bound_list(bounds@) && (
        match default {
            Some(ty) => supported_type(*ty),
            None => true,
        }),
        GenericParamDefKind::Const { .. } => false,
    }
}

/// Whether a function signature lies within the supported set.
pub open spec fn supported_fn_sig(sig: FunctionSignature) -> bool
    decreases sig,
{
    supported_input_list(sig.inputs@) && (match sig.output {
        Some(o) => supported_type(o),
        None => true,
    })
}

/// Whether every type of a list lies within the supported set.
pub open spec fn supported_type_list(ts: Seq<TypeExpr>) -> bool
    decreases ts,
{
    if ts.len() == 0 {
        true
    } else {
        supported_type_list(ts.drop_last()) && supported_type(ts.last())
    }
}

/// Whether every generic argument of a list lies within the supported set.
pub open spec fn supported_arg_list(args: Seq<GenericArg>) -> bool
    decreases args,
{
    if args.len() == 0 {
        true
    } else {
        supported_arg_list(args.drop_last()) && supported_generic_arg(args.last())
    }
}

/// Whether every bound of a list lies within the supported set.
pub open spec fn supported_bound_list(bs: Seq<GenericBound>) -> bool
    decreases bs,
{
    if bs.len() == 0 {
        true
    } else {
        supported_bound_list(bs.drop_last()) && supported_bound(bs.last())
    }
}

/// Whether every poly trait of a list lies within the supported set.
pub open spec fn supported_poly_trait_list(ps: Seq<PolyTrait>) -> bool
    decreases ps,
{
    if ps.len() == 0 {
        true
    } else {
        supported_poly_trait_list(ps.drop_last()) && supported_poly_trait(ps.last())
    }
}

/// Whether every parameter definition of a list lies within the supported
/// set.
pub open spec fn supported_param_def_list(ps: Seq<GenericParamDef>) -> bool
    decreases ps,
{
    if ps.len() == 0 {
        true
    } else {
        supported_param_def_list(ps.drop_last()) && supported_param_def(ps.last())
    }
}

/// Whether every parameter type of a signature lies within the supported
/// set.
pub open spec fn supported_input_list(ins: Seq<(String, TypeExpr)>) -> bool
    decreases ins,
{
    if ins.len() == 0 {
        true
    } else {
        supported_input_list(ins.drop_last()) && supported_type(ins.last().1)
    }
}

/// Why a render failed.
///
/// Rendering is deterministic, so a failure is never worth retrying; it is
/// reported to the immediate caller and must not abort the hosting process.
#[derive(PartialEq, Eq, Structural, Clone, Copy, Debug)]
pub enum RenderError {
    /// The tree holds a closed-union member outside the grammar the renderer
    /// covers, such as a const generic argument or parameter.
    UnsupportedNodeKind,
}

} // verus!
