//! Laws of the renderer, stated and proved over its specification functions.

use vstd::prelude::*;

use crate::dialect::{Dialect, QualifiedPathStyle};
use crate::format::{
    render_matches, spec_render_arg_list, spec_render_bound, spec_render_bound_list,
    spec_render_dyn_trait, spec_render_fn_sig, spec_render_generic_arg, spec_render_generic_args,
    spec_render_input_list, spec_render_opt_args, spec_render_param_def,
    spec_render_param_def_list, spec_render_path, spec_render_poly_trait,
    spec_render_poly_trait_list, spec_render_qp_args, spec_render_trait_qualifier,
    spec_render_type, spec_render_type_list,
};
use crate::model::{
    supported_arg_list, supported_bound, supported_bound_list, supported_fn_sig,
    supported_generic_arg, supported_generic_args, supported_input_list, supported_opt_args,
    supported_param_def, supported_param_def_list, supported_path, supported_poly_trait,
    supported_poly_trait_list, supported_type, supported_type_list, DynTraitExpr,
    FunctionSignature, GenericArg, GenericArgs, GenericBound, GenericParamDef,
    GenericParamDefKind, PathExpr, PolyTrait, RenderError, TypeExpr,
};

verus! {

/// Rendering is deterministic: two render results for the same node and the
/// same dialect are the same text, or the same failure.
pub proof fn lemma_render_deterministic(
    node: TypeExpr,
    d: Dialect,
    r1: Result<String, RenderError>,
    r2: Result<String, RenderError>,
)
    requires
        render_matches(r1, spec_render_type(node, d)),
        render_matches(r2, spec_render_type(node, d)),
    ensures
        r1 is Ok <==> r2 is Ok,
        r1 matches Ok(s1) ==> (r2 matches Ok(s2) && s1@ == s2@),
        r1 matches Err(e1) ==> (r2 matches Err(e2) && e1 == e2),
{
}

/// An empty angle-bracketed generic argument list is invisible: it renders
/// as the empty string, with no enclosure tokens at all, in every dialect.
pub proof fn lemma_empty_generics_elision(args: GenericArgs, d: Dialect)
    requires
        args matches GenericArgs::AngleBracketed(list) && list@.len() == 0,
    ensures
        spec_render_generic_args(args, d) == Some(Seq::<char>::empty()),
{
}

/// Renderings of a list of types depend on the dialect only through the
/// renderings of its elements.
proof fn lemma_type_list_dialect_independent(ts: Seq<TypeExpr>, d1: Dialect, d2: Dialect)
    requires
        forall|i: int|
            0 <= i < ts.len() ==> spec_render_type(#[trigger] ts[i], d1) == spec_render_type(
                ts[i],
                d2,
            ),
    ensures
        spec_render_type_list(ts, d1) == spec_render_type_list(ts, d2),
    decreases ts.len(),
{
    if ts.len() > 0 {
        assert(forall|i: int|
            0 <= i < ts.drop_last().len() ==> #[trigger] ts.drop_last()[i] == ts[i]);
        lemma_type_list_dialect_independent(ts.drop_last(), d1, d2);
    }
}

/// The array, slice and tuple frames are dialect-independent: two dialects
/// that render the element types alike render the whole node alike. (The
/// elements themselves may still differ between dialects, for instance when
/// a primitive element name is remapped.)
pub proof fn lemma_array_slice_tuple_dialect_independent(ty: TypeExpr, d1: Dialect, d2: Dialect)
    requires
        ty is Array || ty is Slice || ty is Tuple,
        ty matches TypeExpr::Array { inner, .. } ==> spec_render_type(*inner, d1)
            == spec_render_type(*inner, d2),
        ty matches TypeExpr::Slice(inner) ==> spec_render_type(*inner, d1) == spec_render_type(
            *inner,
            d2,
        ),
        ty matches TypeExpr::Tuple(elems) ==> forall|i: int|
            0 <= i < elems@.len() ==> spec_render_type(#[trigger] elems@[i], d1)
                == spec_render_type(elems@[i], d2),
    ensures
        spec_render_type(ty, d1) == spec_render_type(ty, d2),
{
    match ty {
        TypeExpr::Tuple(elems) => {
            lemma_type_list_dialect_independent(elems@, d1, d2);
        },
        _ => {},
    }
}

/// Rendering is total over the supported node-kind set: a render yields text
/// exactly when the tree lies within the set, in every dialect, and the one
/// possible failure is the unsupported-kind error.
pub proof fn lemma_render_succeeds_iff_supported(
    node: TypeExpr,
    d: Dialect,
    r: Result<String, RenderError>,
)
    requires
        render_matches(r, spec_render_type(node, d)),
    ensures
        r is Ok <==> supported_type(node),
        r matches Err(e) ==> e == RenderError::UnsupportedNodeKind,
{
    lemma_total_type(node, d);
}

/// The specified rendering of a type yields text exactly on the supported
/// node-kind set, whatever the dialect.
pub proof fn lemma_total_type(ty: TypeExpr, d: Dialect)
    ensures
        spec_render_type(ty, d) is Some <==> supported_type(ty),
    decreases ty,
{
    match ty {
        TypeExpr::Primitive(_) => {},
        TypeExpr::ResolvedPath(path) => {
            lemma_total_path(path, d);
        },
        TypeExpr::FunctionPointer(sig) => {
            lemma_total_fn_sig(*sig, d);
        },
        TypeExpr::DynTrait(dt) => {
            lemma_total_dyn_trait(dt, d);
        },
        TypeExpr::ImplTrait(bounds) => {
            lemma_total_bound_list(bounds@, d);
        },
        TypeExpr::BorrowedRef { inner, .. } => {
            lemma_total_type(*inner, d);
        },
        TypeExpr::RawPointer { inner, .. } => {
            lemma_total_type(*inner, d);
        },
        TypeExpr::Slice(inner) => {
            lemma_total_type(*inner, d);
        },
        TypeExpr::Array { inner, .. } => {
            lemma_total_type(*inner, d);
        },
        TypeExpr::Tuple(elems) => {
            lemma_total_type_list(elems@, d);
        },
        TypeExpr::Infer => {},
        TypeExpr::Generic(_) => {},
        TypeExpr::QualifiedPath { args, self_type, trait_path, .. } => {
            lemma_total_type(*self_type, d);
            lemma_total_opt_args(args, d);
            lemma_total_trait_qualifier(trait_path, d);
        },
        TypeExpr::Pat(inner) => {
            lemma_total_type(*inner, d);
        },
    }
}

/// A `dyn` node renders exactly when its poly traits are supported.
proof fn lemma_total_dyn_trait(dt: DynTraitExpr, d: Dialect)
    ensures
        spec_render_dyn_trait(dt, d) is Some <==> supported_poly_trait_list(
            dt.traits@,
        ),
    decreases dt,
{
    lemma_total_poly_trait_list(dt.traits@, d);
}

/// The trait-qualifier segment renders exactly when the trait path, if any,
/// is supported.
proof fn lemma_total_trait_qualifier(trait_path: Option<PathExpr>, d: Dialect)
    ensures
        spec_render_trait_qualifier(trait_path, d) is Some <==> (match trait_path {
            Some(tp) => supported_path(tp),
            None => true,
        }),
    decreases trait_path,
{
    match trait_path {
        Some(tp) => {
            lemma_total_path(tp, d);
        },
        None => {},
    }
}

/// A path renders exactly when its generic arguments are supported.
proof fn lemma_total_path(p: PathExpr, d: Dialect)
    ensures
        spec_render_path(p, d) is Some <==> supported_path(p),
    decreases p,
{
    lemma_total_opt_args(p.args, d);
}

/// Optional generic arguments render, in either position of a qualified
/// path, exactly when they are supported.
proof fn lemma_total_opt_args(args: Option<Box<GenericArgs>>, d: Dialect)
    ensures
        spec_render_opt_args(args, d) is Some <==> supported_opt_args(args),
        spec_render_qp_args(args, d) is Some <==> supported_opt_args(args),
    decreases args,
{
    match args {
        None => {},
        Some(ga) => {
            lemma_total_generic_args(*ga, d);
            match *ga {
                GenericArgs::AngleBracketed(list) => {
                    lemma_total_arg_list(list@, d);
                },
                _ => {},
            }
        },
    }
}

/// Generic arguments render exactly when they are supported.
proof fn lemma_total_generic_args(ga: GenericArgs, d: Dialect)
    ensures
        spec_render_generic_args(ga, d) is Some <==> supported_generic_args(ga),
    decreases ga,
{
    match ga {
        GenericArgs::AngleBracketed(list) => {
            lemma_total_arg_list(list@, d);
        },
        GenericArgs::Parenthesized { inputs, output } => {
            lemma_total_type_list(inputs@, d);
            match output {
                Some(o) => {
                    lemma_total_type(*o, d);
                },
                None => {},
            }
        },
        GenericArgs::ReturnTypeNotation => {},
    }
}

/// One generic argument renders exactly when it is supported.
proof fn lemma_total_arg(a: GenericArg, d: Dialect)
    ensures
        spec_render_generic_arg(a, d) is Some <==> supported_generic_arg(a),
    decreases a,
{
    match a {
        GenericArg::Type(ty) => {
            lemma_total_type(ty, d);
        },
        _ => {},
    }
}

/// A bound renders exactly when it is supported.
proof fn lemma_total_bound(b: GenericBound, d: Dialect)
    ensures
        spec_render_bound(b, d) is Some <==> supported_bound(b),
    decreases b,
{
    match b {
        GenericBound::TraitBound { trait_path, generic_params } => {
            lemma_total_path(trait_path, d);
            lemma_total_param_def_list(generic_params@, d);
        },
        _ => {},
    }
}

/// A poly trait renders exactly when it is supported.
proof fn lemma_total_poly_trait(pt: PolyTrait, d: Dialect)
    ensures
        spec_render_poly_trait(pt, d) is Some <==> supported_poly_trait(pt),
    decreases pt,
{
    lemma_total_path(pt.trait_path, d);
    lemma_total_param_def_list(pt.generic_params@, d);
}

/// A generic parameter definition renders exactly when it is supported.
proof fn lemma_total_param_def(p: GenericParamDef, d: Dialect)
    ensures
        spec_render_param_def(p, d) is Some <==> supported_param_def(p),
    decreases p,
{
    match p.kind {
        GenericParamDefKind::Type { bounds, default } => {
            lemma_total_bound_list(bounds@, d);
            match default {
                Some(ty) => {
                    lemma_total_type(*ty, d);
                },
                None => {},
            }
        },
        _ => {},
    }
}

/// A function signature renders exactly when it is supported.
proof fn lemma_total_fn_sig(sig: FunctionSignature, d: Dialect)
    ensures
        spec_render_fn_sig(sig, d) is Some <==> supported_fn_sig(sig),
    decreases sig,
{
    lemma_total_input_list(sig.inputs@, d);
    match sig.output {
        Some(o) => {
            lemma_total_type(o, d);
        },
        None => {},
    }
}

/// A list of types renders exactly when every element does.
proof fn lemma_total_type_list(ts: Seq<TypeExpr>, d: Dialect)
    ensures
        spec_render_type_list(ts, d) is Some <==> supported_type_list(ts),
    decreases ts,
{
    if ts.len() > 0 {
        lemma_total_type_list(ts.drop_last(), d);
        lemma_total_type(ts.last(), d);
    }
}

/// A list of generic arguments renders exactly when every element does.
proof fn lemma_total_arg_list(args: Seq<GenericArg>, d: Dialect)
    ensures
        spec_render_arg_list(args, d) is Some <==> supported_arg_list(args),
    decreases args,
{
    if args.len() > 0 {
        lemma_total_arg_list(args.drop_last(), d);
        lemma_total_arg(args.last(), d);
    }
}

/// A list of bounds renders exactly when every element does.
proof fn lemma_total_bound_list(bs: Seq<GenericBound>, d: Dialect)
    ensures
        spec_render_bound_list(bs, d) is Some <==> supported_bound_list(bs),
    decreases bs,
{
    if bs.len() > 0 {
        lemma_total_bound_list(bs.drop_last(), d);
        lemma_total_bound(bs.last(), d);
    }
}

/// A list of poly traits renders exactly when every element does.
proof fn lemma_total_poly_trait_list(ps: Seq<PolyTrait>, d: Dialect)
    ensures
        spec_render_poly_trait_list(ps, d) is Some <==> supported_poly_trait_list(ps),
    decreases ps,
{
    if ps.len() > 0 {
        lemma_total_poly_trait_list(ps.drop_last(), d);
        lemma_total_poly_trait(ps.last(), d);
    }
}

/// A list of parameter definitions renders exactly when every element does.
proof fn lemma_total_param_def_list(ps: Seq<GenericParamDef>, d: Dialect)
    ensures
        spec_render_param_def_list(ps, d) is Some <==> supported_param_def_list(ps),
    decreases ps,
{
    if ps.len() > 0 {
        lemma_total_param_def_list(ps.drop_last(), d);
        lemma_total_param_def(ps.last(), d);
    }
}

/// A signature's parameter list renders exactly when every parameter's type
/// does.
proof fn lemma_total_input_list(ins: Seq<(String, TypeExpr)>, d: Dialect)
    ensures
        spec_render_input_list(ins, d) is Some <==> supported_input_list(ins),
    decreases ins,
{
    if ins.len() > 0 {
        lemma_total_input_list(ins.drop_last(), d);
        lemma_total_type(ins.last().1, d);
    }
}

/// A qualified path without a trait qualifier renders with the trait segment
/// omitted entirely: no stray separator tokens appear, in either style.
pub proof fn lemma_trait_absent_qualified_path(ty: TypeExpr, d: Dialect)
    requires
        ty matches TypeExpr::QualifiedPath { trait_path, .. } && trait_path is None,
    ensures
        ty matches TypeExpr::QualifiedPath { name, args, self_type, trait_path } ==> (
        match spec_render_type(*self_type, d) {
            Some(selfs) => {
                if d.qualified_path_style == QualifiedPathStyle::Dotted {
                    spec_render_type(ty, d) == (match spec_render_qp_args(args, d) {
                        Some(argss) => Some(selfs + "."@ + name@ + argss),
                        None => None::<Seq<char>>,
                    })
                } else {
                    spec_render_type(ty, d) == (match spec_render_opt_args(args, d) {
                        Some(argss) => Some("<"@ + selfs + ">::"@ + name@ + argss),
                        None => None::<Seq<char>>,
                    })
                }
            },
            None => spec_render_type(ty, d) is None,
        }),
{
    match ty {
        TypeExpr::QualifiedPath { name, args, self_type, trait_path } => {
            assert(spec_render_trait_qualifier(trait_path, d) == Some(Seq::<char>::empty()));
            match spec_render_type(*self_type, d) {
                Some(selfs) => {
                    if d.qualified_path_style == QualifiedPathStyle::Dotted {
                        match spec_render_qp_args(args, d) {
                            Some(argss) => {
                                assert(selfs + Seq::<char>::empty() + "."@ + name@ + argss
                                    =~= selfs + "."@ + name@ + argss);
                            },
                            None => {},
                        }
                    } else {
                        match spec_render_opt_args(args, d) {
                            Some(argss) => {
                                assert("<"@ + selfs + Seq::<char>::empty() + ">::"@ + name@
                                    + argss =~= "<"@ + selfs + ">::"@ + name@ + argss);
                            },
                            None => {},
                        }
                    }
                },
                None => {},
            }
        },
        _ => {},
    }
}

} // verus!
