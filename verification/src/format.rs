//! The renderer: mutually recursive pure functions, one per node-kind family,
//! that assemble output text by dialect-driven string concatenation.
//!
//! Every rendering function is total over the supported node kinds and fails
//! with [`RenderError::UnsupportedNodeKind`] on the closed-union members the
//! grammar does not cover; it never guesses and never aborts the process.
//! Each function's result is pinned exactly by a specification function over
//! the node and the dialect, so rendering is deterministic by construction.
//!
//! Recursion depth equals the nesting depth of the input tree, in the
//! executable functions and in their specifications alike.

use vstd::prelude::*;
use vstd::string::StringExecFns;

use crate::dialect::{spec_primitive_name, Dialect, QualifiedPathStyle, RefStyle};
use crate::model::{
    DynTraitExpr, FunctionSignature, GenericArg, GenericArgs, GenericBound, GenericParamDef,
    GenericParamDefKind, PathExpr, PolyTrait, RenderError, TypeExpr,
};
use crate::text::{dotted, join_with, lemma_join_push, spec_dotted};

verus! {

/// The views of a list of strings.
pub open spec fn string_views(ss: Seq<String>) -> Seq<Seq<char>> {
    ss.map_values(|s: String| s@)
}

/// How an executable rendering result relates to its specification: `Ok` with
/// exactly the specified text, or the unsupported-kind failure exactly when
/// the specification has no text.
pub open spec fn render_matches(r: Result<String, RenderError>, o: Option<Seq<char>>) -> bool {
    match r {
        Ok(s) => o matches Some(t) && s@ == t,
        Err(e) => o is None && e == RenderError::UnsupportedNodeKind,
    }
}

/// The text a type expression renders to, or `None` on an unsupported kind.
pub open spec fn spec_render_type(ty: TypeExpr, d: Dialect) -> Option<Seq<char>>
    decreases ty,
{
    match ty {
        TypeExpr::Primitive(name) => Some(spec_primitive_name(d.primitives@, name@)),
        TypeExpr::ResolvedPath(path) => spec_render_path(path, d),
        TypeExpr::FunctionPointer(sig) => match spec_render_fn_sig(*sig, d) {
            Some(s) => Some(
                if d.impl_trait_prefix {
                    "fn"@ + s
                } else {
                    s
                },
            ),
            None => None,
        },
        TypeExpr::DynTrait(dt) => spec_render_dyn_trait(dt, d),
        TypeExpr::ImplTrait(bounds) => match spec_render_bound_list(bounds@, d) {
            Some(parts) => Some(
                if d.impl_trait_prefix {
                    "impl "@ + join_with(parts, d.conjunction@)
                } else {
                    join_with(parts, d.conjunction@)
                },
            ),
            None => None,
        },
        TypeExpr::BorrowedRef { lifetime, mutable, inner } => match spec_render_type(*inner, d) {
            Some(s) => Some(spec_render_ref(lifetime, mutable, s, d)),
            None => None,
        },
        TypeExpr::RawPointer { mutable, inner } => match spec_render_type(*inner, d) {
            Some(s) => Some(
                if mutable {
                    "*"@ + "mut "@ + s
                } else {
                    "*"@ + s
                },
            ),
            None => None,
        },
        TypeExpr::Slice(inner) => match spec_render_type(*inner, d) {
            Some(s) => Some("["@ + s + "]"@),
            None => None,
        },
        TypeExpr::Array { inner, len } => match spec_render_type(*inner, d) {
            Some(s) => Some("["@ + s + "; "@ + len@ + "]"@),
            None => None,
        },
        TypeExpr::Tuple(elems) => match spec_render_type_list(elems@, d) {
            Some(parts) => Some("("@ + join_with(parts, ", "@) + ")"@),
            None => None,
        },
        TypeExpr::Infer => Some("_"@),
        TypeExpr::Generic(name) => Some(name@),
        TypeExpr::QualifiedPath { name, args, self_type, trait_path } => {
            match (spec_render_type(*self_type, d), spec_render_trait_qualifier(trait_path, d)) {
                (Some(selfs), Some(tps)) => {
                    if d.qualified_path_style == QualifiedPathStyle::Dotted {
                        match spec_render_qp_args(args, d) {
                            Some(argss) => Some(selfs + tps + "."@ + name@ + argss),
                            None => None,
                        }
                    } else {
                        match spec_render_opt_args(args, d) {
                            Some(argss) => Some("<"@ + selfs + tps + ">::"@ + name@ + argss),
                            None => None,
                        }
                    }
                },
                _ => None,
            }
        },
        TypeExpr::Pat(inner) => spec_render_type(*inner, d),
    }
}

/// The borrowed-reference rendering around an already rendered inner type.
/// In both reference styles the lifetime appears only when the dialect emits
/// lifetimes and the reference carries one, and a single separating space
/// always stands before the inner type, lifetime or not.
pub open spec fn spec_render_ref(
    lifetime: Option<String>,
    mutable: bool,
    inner: Seq<char>,
    d: Dialect,
) -> Seq<char> {
    let lt = if d.emit_lifetimes {
        match lifetime {
            Some(l) => l@,
            None => Seq::empty(),
        }
    } else {
        Seq::empty()
    };
    match d.ref_style {
        RefStyle::Prefix => if mutable {
            "&"@ + "mut "@ + lt + " "@ + inner
        } else {
            "&"@ + lt + " "@ + inner
        },
        RefStyle::Wrapper => if mutable {
            "RefMut("@ + lt + " "@ + inner + ")"@
        } else {
            "Ref("@ + lt + " "@ + inner + ")"@
        },
    }
}

/// The `dyn` rendering: the poly traits joined by the dialect's conjunction,
/// the lifetime bound appended (again by the conjunction) only when emitted,
/// and the `dyn ` keyword only when the dialect writes keyword prefixes.
pub open spec fn spec_render_dyn_trait(dt: DynTraitExpr, d: Dialect) -> Option<Seq<char>>
    decreases dt,
{
    match spec_render_poly_trait_list(dt.traits@, d) {
        Some(parts) => {
            let joined = join_with(parts, d.conjunction@);
            let with_lt = if d.emit_lifetimes {
                match dt.lifetime {
                    Some(l) => joined + d.conjunction@ + l@,
                    None => joined,
                }
            } else {
                joined
            };
            Some(
                if d.impl_trait_prefix {
                    "dyn "@ + with_lt
                } else {
                    with_lt
                },
            )
        },
        None => None,
    }
}

/// The trait-qualifier segment of a qualified path: omitted entirely when no
/// trait is present (never emitted as an empty pair of separator tokens);
/// ` as Trait` in the bracketed style, `|<: Trait|` in the dotted style.
pub open spec fn spec_render_trait_qualifier(trait_path: Option<PathExpr>, d: Dialect) -> Option<
    Seq<char>,
>
    decreases trait_path,
{
    match trait_path {
        None => Some(Seq::<char>::empty()),
        Some(tp) => match spec_render_path(tp, d) {
            Some(ts) => Some(
                if d.qualified_path_style == QualifiedPathStyle::Dotted {
                    "|<: "@ + ts + "|"@
                } else {
                    " as "@ + ts
                },
            ),
            None => None,
        },
    }
}

/// A path: its display name (with `::` rewritten to `.` in the dotted style,
/// uniformly for all plain paths) followed by its generic arguments.
pub open spec fn spec_render_path(p: PathExpr, d: Dialect) -> Option<Seq<char>>
    decreases p,
{
    let nm = if d.qualified_path_style == QualifiedPathStyle::Dotted {
        spec_dotted(p.name@)
    } else {
        p.name@
    };
    match spec_render_opt_args(p.args, d) {
        Some(a) => Some(nm + a),
        None => None,
    }
}

/// Absent generic arguments render as nothing.
pub open spec fn spec_render_opt_args(args: Option<Box<GenericArgs>>, d: Dialect) -> Option<
    Seq<char>,
>
    decreases args,
{
    match args {
        None => Some(Seq::<char>::empty()),
        Some(ga) => spec_render_generic_args(*ga, d),
    }
}

/// Generic arguments. An empty angle-bracketed list is invisible: no
/// enclosure tokens at all. The parenthesized (callable-trait sugar) and
/// return-type-notation forms are dialect-independent.
pub open spec fn spec_render_generic_args(ga: GenericArgs, d: Dialect) -> Option<Seq<char>>
    decreases ga,
{
    match ga {
        GenericArgs::AngleBracketed(list) => {
            if list@.len() == 0 {
                Some(Seq::<char>::empty())
            } else {
                match spec_render_arg_list(list@, d) {
                    Some(parts) => Some(
                        d.generic_open@ + join_with(parts, ", "@) + d.generic_close@,
                    ),
                    None => None,
                }
            }
        },
        GenericArgs::Parenthesized { inputs, output } => match spec_render_type_list(inputs@, d) {
            Some(parts) => {
                let base = "("@ + join_with(parts, ", "@) + ")"@;
                match output {
                    Some(o) => match spec_render_type(*o, d) {
                        Some(os) => Some(base + " -> "@ + os),
                        None => None,
                    },
                    None => Some(base),
                }
            },
            None => None,
        },
        GenericArgs::ReturnTypeNotation => Some("(..)"@),
    }
}

/// The trailing argument list of a dotted-style qualified path: always plain
/// parentheses around the angle-bracketed arguments (empty or absent ones
/// give `()`); the other argument forms keep their own shape.
pub open spec fn spec_render_qp_args(args: Option<Box<GenericArgs>>, d: Dialect) -> Option<
    Seq<char>,
>
    decreases args,
{
    match args {
        None => Some("()"@),
        Some(ga) => match *ga {
            GenericArgs::AngleBracketed(list) => match spec_render_arg_list(list@, d) {
                Some(parts) => Some("("@ + join_with(parts, ", "@) + ")"@),
                None => None,
            },
            _ => spec_render_generic_args(*ga, d),
        },
    }
}

/// One generic argument: a type renders as itself, a lifetime verbatim, an
/// explicitly inferred argument as `_`; a const generic argument is
/// unsupported.
pub open spec fn spec_render_generic_arg(a: GenericArg, d: Dialect) -> Option<Seq<char>>
    decreases a,
{
    match a {
        GenericArg::Type(ty) => spec_render_type(ty, d),
        GenericArg::Lifetime(l) => Some(l@),
        GenericArg::Const(_) => None,
        GenericArg::Infer => Some("_"@),
    }
}

/// A bound: a trait bound renders its higher-ranked parameters as a
/// `for<...> ` prefix (only when any are present) before the trait path;
/// outlives and precise-capturing bounds are unsupported.
pub open spec fn spec_render_bound(b: GenericBound, d: Dialect) -> Option<Seq<char>>
    decreases b,
{
    match b {
        GenericBound::TraitBound { trait_path, generic_params } => {
            match spec_render_param_def_list(generic_params@, d) {
                Some(parts) => {
                    let prefix = if generic_params@.len() == 0 {
                        Seq::<char>::empty()
                    } else {
                        "for<"@ + join_with(parts, ", "@) + "> "@
                    };
                    match spec_render_path(trait_path, d) {
                        Some(ps) => Some(prefix + ps),
                        None => None,
                    }
                },
                None => None,
            }
        },
        GenericBound::Outlives(_) => None,
        GenericBound::Use(_) => None,
    }
}

/// A poly trait: its trait path followed immediately, with no separator, by
/// the concatenated renderings of its higher-ranked parameters.
pub open spec fn spec_render_poly_trait(pt: PolyTrait, d: Dialect) -> Option<Seq<char>>
    decreases pt,
{
    match spec_render_param_def_list(pt.generic_params@, d) {
        Some(parts) => match spec_render_path(pt.trait_path, d) {
            Some(ps) => Some(ps + join_with(parts, Seq::empty())),
            None => None,
        },
        None => None,
    }
}

/// A generic parameter definition: always the parameter's name; a lifetime
/// kind appends `: ` and its outlived lifetimes (joined by the conjunction)
/// only when any exist; a type kind appends its bounds the same way, then
/// ` = ` and the default type when one exists; a const kind is unsupported.
pub open spec fn spec_render_param_def(p: GenericParamDef, d: Dialect) -> Option<Seq<char>>
    decreases p,
{
    match p.kind {
        GenericParamDefKind::Lifetime { outlives } => Some(
            if outlives@.len() == 0 {
                p.name@
            } else {
                p.name@ + ": "@ + join_with(string_views(outlives@), d.conjunction@)
            },
        ),
        GenericParamDefKind::Type { bounds, default } => {
            match spec_render_bound_list(bounds@, d) {
                Some(parts) => {
                    let base = if bounds@.len() == 0 {
                        p.name@
                    } else {
                        p.name@ + ": "@ + join_with(parts, d.conjunction@)
                    };
                    match default {
                        Some(ty) => match spec_render_type(*ty, d) {
                            Some(ds) => Some(base + " = "@ + ds),
                            None => None,
                        },
                        None => Some(base),
                    }
                },
                None => None,
            }
        },
        GenericParamDefKind::Const { .. } => None,
    }
}

/// A function signature: the parenthesized `name: type` parameter list, then
/// ` -> ` and the output type when one exists; with no output type, ` -> `
/// and the dialect's no-output marker when it has one, and nothing at all
/// otherwise.
pub open spec fn spec_render_fn_sig(sig: FunctionSignature, d: Dialect) -> Option<Seq<char>>
    decreases sig,
{
    match spec_render_input_list(sig.inputs@, d) {
        Some(parts) => {
            let base = "("@ + join_with(parts, ", "@) + ")"@;
            match sig.output {
                Some(o) => match spec_render_type(o, d) {
                    Some(os) => Some(base + " -> "@ + os),
                    None => None,
                },
                None => match d.no_output_marker {
                    Some(m) => Some(base + " -> "@ + m@),
                    None => Some(base),
                },
            }
        },
        None => None,
    }
}

/// The renderings of a list of types; `None` as soon as any element fails.
pub open spec fn spec_render_type_list(ts: Seq<TypeExpr>, d: Dialect) -> Option<Seq<Seq<char>>>
    decreases ts,
{
    if ts.len() == 0 {
        Some(Seq::empty())
    } else {
        match (spec_render_type_list(ts.drop_last(), d), spec_render_type(ts.last(), d)) {
            (Some(parts), Some(p)) => Some(parts.push(p)),
            _ => None,
        }
    }
}

/// The renderings of a list of generic arguments.
pub open spec fn spec_render_arg_list(args: Seq<GenericArg>, d: Dialect) -> Option<Seq<Seq<char>>>
    decreases args,
{
    if args.len() == 0 {
        Some(Seq::empty())
    } else {
        match (
            spec_render_arg_list(args.drop_last(), d),
            spec_render_generic_arg(args.last(), d),
        ) {
            (Some(parts), Some(p)) => Some(parts.push(p)),
            _ => None,
        }
    }
}

/// The renderings of a list of bounds.
pub open spec fn spec_render_bound_list(bs: Seq<GenericBound>, d: Dialect) -> Option<
    Seq<Seq<char>>,
>
    decreases bs,
{
    if bs.len() == 0 {
        Some(Seq::empty())
    } else {
        match (spec_render_bound_list(bs.drop_last(), d), spec_render_bound(bs.last(), d)) {
            (Some(parts), Some(p)) => Some(parts.push(p)),
            _ => None,
        }
    }
}

/// The renderings of a list of poly traits.
pub open spec fn spec_render_poly_trait_list(ps: Seq<PolyTrait>, d: Dialect) -> Option<
    Seq<Seq<char>>,
>
    decreases ps,
{
    if ps.len() == 0 {
        Some(Seq::empty())
    } else {
        match (
            spec_render_poly_trait_list(ps.drop_last(), d),
            spec_render_poly_trait(ps.last(), d),
        ) {
            (Some(parts), Some(p)) => Some(parts.push(p)),
            _ => None,
        }
    }
}

/// The renderings of a list of generic parameter definitions.
pub open spec fn spec_render_param_def_list(ps: Seq<GenericParamDef>, d: Dialect) -> Option<
    Seq<Seq<char>>,
>
    decreases ps,
{
    if ps.len() == 0 {
        Some(Seq::empty())
    } else {
        match (
            spec_render_param_def_list(ps.drop_last(), d),
            spec_render_param_def(ps.last(), d),
        ) {
            (Some(parts), Some(p)) => Some(parts.push(p)),
            _ => None,
        }
    }
}

/// The renderings of a signature's parameters, each as `name: type`.
pub open spec fn spec_render_input_list(ins: Seq<(String, TypeExpr)>, d: Dialect) -> Option<
    Seq<Seq<char>>,
>
    decreases ins,
{
    if ins.len() == 0 {
        Some(Seq::empty())
    } else {
        match (
            spec_render_input_list(ins.drop_last(), d),
            spec_render_type(ins.last().1, d),
        ) {
            (Some(parts), Some(p)) => Some(parts.push(ins.last().0@ + ": "@ + p)),
            _ => None,
        }
    }
}

/// A list of types fails as soon as one element fails.
proof fn lemma_type_list_fails(ts: Seq<TypeExpr>, d: Dialect, j: int)
    requires
        0 <= j < ts.len(),
        spec_render_type(ts[j], d) is None,
    ensures
        spec_render_type_list(ts, d) is None,
    decreases ts.len(),
{
    if j < ts.len() - 1 {
        assert(ts.drop_last()[j] == ts[j]);
        lemma_type_list_fails(ts.drop_last(), d, j);
    }
}

/// A list of generic arguments fails as soon as one element fails.
proof fn lemma_arg_list_fails(args: Seq<GenericArg>, d: Dialect, j: int)
    requires
        0 <= j < args.len(),
        spec_render_generic_arg(args[j], d) is None,
    ensures
        spec_render_arg_list(args, d) is None,
    decreases args.len(),
{
    if j < args.len() - 1 {
        assert(args.drop_last()[j] == args[j]);
        lemma_arg_list_fails(args.drop_last(), d, j);
    }
}

/// A list of bounds fails as soon as one element fails.
proof fn lemma_bound_list_fails(bs: Seq<GenericBound>, d: Dialect, j: int)
    requires
        0 <= j < bs.len(),
        spec_render_bound(bs[j], d) is None,
    ensures
        spec_render_bound_list(bs, d) is None,
    decreases bs.len(),
{
    if j < bs.len() - 1 {
        assert(bs.drop_last()[j] == bs[j]);
        lemma_bound_list_fails(bs.drop_last(), d, j);
    }
}

/// A list of poly traits fails as soon as one element fails.
proof fn lemma_poly_trait_list_fails(ps: Seq<PolyTrait>, d: Dialect, j: int)
    requires
        0 <= j < ps.len(),
        spec_render_poly_trait(ps[j], d) is None,
    ensures
        spec_render_poly_trait_list(ps, d) is None,
    decreases ps.len(),
{
    if j < ps.len() - 1 {
        assert(ps.drop_last()[j] == ps[j]);
        lemma_poly_trait_list_fails(ps.drop_last(), d, j);
    }
}

/// A list of parameter definitions fails as soon as one element fails.
proof fn lemma_param_def_list_fails(ps: Seq<GenericParamDef>, d: Dialect, j: int)
    requires
        0 <= j < ps.len(),
        spec_render_param_def(ps[j], d) is None,
    ensures
        spec_render_param_def_list(ps, d) is None,
    decreases ps.len(),
{
    if j < ps.len() - 1 {
        assert(ps.drop_last()[j] == ps[j]);
        lemma_param_def_list_fails(ps.drop_last(), d, j);
    }
}

/// A parameter list fails as soon as one parameter's type fails.
proof fn lemma_input_list_fails(ins: Seq<(String, TypeExpr)>, d: Dialect, j: int)
    requires
        0 <= j < ins.len(),
        spec_render_type(ins[j].1, d) is None,
    ensures
        spec_render_input_list(ins, d) is None,
    decreases ins.len(),
{
    if j < ins.len() - 1 {
        assert(ins.drop_last()[j] == ins[j]);
        lemma_input_list_fails(ins.drop_last(), d, j);
    }
}

/// Renders one type expression in the given dialect. This is the renderer's
/// public entry point; the helper entry points below render the other node
/// families.
pub fn render(node: &TypeExpr, dialect: &Dialect) -> (r: Result<String, RenderError>)
    ensures
        render_matches(r, spec_render_type(*node, *dialect)),
{
    type_to_string(node, dialect)
}

/// Renders a type expression.
#[verifier::loop_isolation(false)]
pub fn type_to_string(ty: &TypeExpr, dialect: &Dialect) -> (r: Result<String, RenderError>)
    ensures
        render_matches(r, spec_render_type(*ty, *dialect)),
    decreases *ty,
{
    match ty {
        TypeExpr::Primitive(name) => Ok(dialect.primitive_name(name)),
        TypeExpr::ResolvedPath(path) => path_to_string(path, dialect),
        TypeExpr::FunctionPointer(sig) => match fn_sig_to_string(sig, dialect) {
            Ok(sigs) => {
                if dialect.impl_trait_prefix {
                    let mut s = "fn".to_owned();
                    s.append(sigs.as_str());
                    Ok(s)
                } else {
                    Ok(sigs)
                }
            },
            Err(e) => Err(e),
        },
        TypeExpr::DynTrait(dt) => {
            let mut joined = String::new();
            let ghost mut parts: Seq<Seq<char>> = Seq::empty();
            let mut j: usize = 0;
            proof {
                assert(dt.traits@.take(0) =~= Seq::<PolyTrait>::empty());
            }
            while j < dt.traits.len()
                invariant
                    j <= dt.traits@.len(),
                    parts.len() == j,
                    spec_render_poly_trait_list(dt.traits@.take(j as int), *dialect) == Some(
                        parts,
                    ),
                    joined@ == join_with(parts, dialect.conjunction@),
                decreases dt.traits@.len() - j,
            {
                proof {
                    assert(decreases_to!(*ty => dt.traits@[j as int]));
                }
                match poly_trait_to_string(&dt.traits[j], dialect) {
                    Ok(piece) => {
                        if j > 0 {
                            joined.append(dialect.conjunction.as_str());
                        }
                        joined.append(piece.as_str());
                        proof {
                            lemma_join_push(parts, dialect.conjunction@, piece@);
                            parts = parts.push(piece@);
                            assert(dt.traits@.take(j as int + 1).drop_last() =~= dt.traits@.take(
                                j as int,
                            ));
                            assert(dt.traits@.take(j as int + 1).last() == dt.traits@[j as int]);
                            assert(joined@ =~= join_with(parts, dialect.conjunction@));
                        }
                    },
                    Err(e) => {
                        proof {
                            lemma_poly_trait_list_fails(dt.traits@, *dialect, j as int);
                            assert(spec_render_poly_trait_list(dt.traits@, *dialect) is None);
                            assert(*ty == TypeExpr::DynTrait(*dt));
                            assert(spec_render_dyn_trait(*dt, *dialect) is None);
                            assert(spec_render_type(*ty, *dialect) is None);
                        }
                        return Err(e);
                    },
                }
                j = j + 1;
            }
            proof {
                assert(dt.traits@.take(dt.traits@.len() as int) =~= dt.traits@);
            }
            if dialect.emit_lifetimes {
                match &dt.lifetime {
                    Some(l) => {
                        joined.append(dialect.conjunction.as_str());
                        joined.append(l.as_str());
                    },
                    None => {},
                }
            }
            if dialect.impl_trait_prefix {
                let mut s = "dyn ".to_owned();
                s.append(joined.as_str());
                Ok(s)
            } else {
                Ok(joined)
            }
        },
        TypeExpr::ImplTrait(bounds) => {
            let mut joined = String::new();
            let ghost mut parts: Seq<Seq<char>> = Seq::empty();
            let mut j: usize = 0;
            proof {
                assert(bounds@.take(0) =~= Seq::<GenericBound>::empty());
            }
            while j < bounds.len()
                invariant
                    j <= bounds@.len(),
                    parts.len() == j,
                    spec_render_bound_list(bounds@.take(j as int), *dialect) == Some(parts),
                    joined@ == join_with(parts, dialect.conjunction@),
                decreases bounds@.len() - j,
            {
                proof {
                    assert(decreases_to!(*ty => bounds@[j as int]));
                }
                match bound_to_string(&bounds[j], dialect) {
                    Ok(piece) => {
                        if j > 0 {
                            joined.append(dialect.conjunction.as_str());
                        }
                        joined.append(piece.as_str());
                        proof {
                            lemma_join_push(parts, dialect.conjunction@, piece@);
                            parts = parts.push(piece@);
                            assert(bounds@.take(j as int + 1).drop_last() =~= bounds@.take(
                                j as int,
                            ));
                            assert(bounds@.take(j as int + 1).last() == bounds@[j as int]);
                            assert(joined@ =~= join_with(parts, dialect.conjunction@));
                        }
                    },
                    Err(e) => {
                        proof {
                            lemma_bound_list_fails(bounds@, *dialect, j as int);
                        }
                        return Err(e);
                    },
                }
                j = j + 1;
            }
            proof {
                assert(bounds@.take(bounds@.len() as int) =~= bounds@);
            }
            if dialect.impl_trait_prefix {
                let mut s = "impl ".to_owned();
                s.append(joined.as_str());
                Ok(s)
            } else {
                Ok(joined)
            }
        },
        TypeExpr::BorrowedRef { lifetime, mutable, inner } => {
            match type_to_string(inner, dialect) {
                Ok(inners) => {
                    let mut s = String::new();
                    match dialect.ref_style {
                        RefStyle::Prefix => {
                            s.append("&");
                            if *mutable {
                                s.append("mut ");
                            }
                        },
                        RefStyle::Wrapper => {
                            if *mutable {
                                s.append("RefMut(");
                            } else {
                                s.append("Ref(");
                            }
                        },
                    }
                    if dialect.emit_lifetimes {
                        match lifetime {
                            Some(l) => {
                                s.append(l.as_str());
                            },
                            None => {},
                        }
                    }
                    s.append(" ");
                    s.append(inners.as_str());
                    match dialect.ref_style {
                        RefStyle::Prefix => {},
                        RefStyle::Wrapper => {
                            s.append(")");
                        },
                    }
                    proof {
                        assert(s@ =~= spec_render_ref(*lifetime, *mutable, inners@, *dialect));
                    }
                    Ok(s)
                },
                Err(e) => Err(e),
            }
        },
        TypeExpr::RawPointer { mutable, inner } => match type_to_string(inner, dialect) {
            Ok(inners) => {
                let mut s = "*".to_owned();
                if *mutable {
                    s.append("mut ");
                }
                s.append(inners.as_str());
                Ok(s)
            },
            Err(e) => Err(e),
        },
        TypeExpr::Slice(inner) => match type_to_string(inner, dialect) {
            Ok(inners) => {
                let mut s = "[".to_owned();
                s.append(inners.as_str());
                s.append("]");
                Ok(s)
            },
            Err(e) => Err(e),
        },
        TypeExpr::Array { inner, len } => match type_to_string(inner, dialect) {
            Ok(inners) => {
                let mut s = "[".to_owned();
                s.append(inners.as_str());
                s.append("; ");
                s.append(len.as_str());
                s.append("]");
                Ok(s)
            },
            Err(e) => Err(e),
        },
        TypeExpr::Tuple(elems) => {
            let mut joined = String::new();
            let ghost mut parts: Seq<Seq<char>> = Seq::empty();
            let mut j: usize = 0;
            proof {
                assert(elems@.take(0) =~= Seq::<TypeExpr>::empty());
            }
            while j < elems.len()
                invariant
                    j <= elems@.len(),
                    parts.len() == j,
                    spec_render_type_list(elems@.take(j as int), *dialect) == Some(parts),
                    joined@ == join_with(parts, ", "@),
                decreases elems@.len() - j,
            {
                proof {
                    assert(decreases_to!(*ty => elems@[j as int]));
                }
                match type_to_string(&elems[j], dialect) {
                    Ok(piece) => {
                        if j > 0 {
                            joined.append(", ");
                        }
                        joined.append(piece.as_str());
                        proof {
                            lemma_join_push(parts, ", "@, piece@);
                            parts = parts.push(piece@);
                            assert(elems@.take(j as int + 1).drop_last() =~= elems@.take(
                                j as int,
                            ));
                            assert(elems@.take(j as int + 1).last() == elems@[j as int]);
                            assert(joined@ =~= join_with(parts, ", "@));
                        }
                    },
                    Err(e) => {
                        proof {
                            lemma_type_list_fails(elems@, *dialect, j as int);
                        }
                        return Err(e);
                    },
                }
                j = j + 1;
            }
            proof {
                assert(elems@.take(elems@.len() as int) =~= elems@);
            }
            let mut s = "(".to_owned();
            s.append(joined.as_str());
            s.append(")");
            Ok(s)
        },
        TypeExpr::Infer => Ok("_".to_owned()),
        TypeExpr::Generic(name) => Ok(name.clone()),
        TypeExpr::QualifiedPath { name, args, self_type, trait_path } => {
            match type_to_string(self_type, dialect) {
                Ok(selfs) => match trait_qualifier_to_string(trait_path, dialect) {
                    Ok(tps) => {
                        if dialect.qualified_path_style == QualifiedPathStyle::Dotted {
                            match qp_args_to_string(args, dialect) {
                                Ok(argss) => {
                                    let mut s = selfs;
                                    s.append(tps.as_str());
                                    s.append(".");
                                    s.append(name.as_str());
                                    s.append(argss.as_str());
                                    Ok(s)
                                },
                                Err(e) => Err(e),
                            }
                        } else {
                            match opt_args_to_string(args, dialect) {
                                Ok(argss) => {
                                    let mut s = "<".to_owned();
                                    s.append(selfs.as_str());
                                    s.append(tps.as_str());
                                    s.append(">::");
                                    s.append(name.as_str());
                                    s.append(argss.as_str());
                                    Ok(s)
                                },
                                Err(e) => Err(e),
                            }
                        }
                    },
                    Err(e) => Err(e),
                },
                Err(e) => Err(e),
            }
        },
        TypeExpr::Pat(inner) => type_to_string(inner, dialect),
    }
}

/// Renders a path: its display name, then its generic arguments.
pub fn path_to_string(path: &PathExpr, dialect: &Dialect) -> (r: Result<String, RenderError>)
    ensures
        render_matches(r, spec_render_path(*path, *dialect)),
    decreases *path,
{
    let mut s = if dialect.qualified_path_style == QualifiedPathStyle::Dotted {
        dotted(path.name.as_str())
    } else {
        path.name.clone()
    };
    match opt_args_to_string(&path.args, dialect) {
        Ok(a) => {
            s.append(a.as_str());
            Ok(s)
        },
        Err(e) => Err(e),
    }
}

/// Renders optional generic arguments; absent ones render as nothing.
fn opt_args_to_string(args: &Option<Box<GenericArgs>>, dialect: &Dialect) -> (r: Result<
    String,
    RenderError,
>)
    ensures
        render_matches(r, spec_render_opt_args(*args, *dialect)),
    decreases *args,
{
    match args {
        None => Ok(String::new()),
        Some(ga) => generic_args_to_string(ga, dialect),
    }
}

/// Renders the trait-qualifier segment of a qualified path; absent traits
/// render as nothing at all.
fn trait_qualifier_to_string(trait_path: &Option<PathExpr>, dialect: &Dialect) -> (r: Result<
    String,
    RenderError,
>)
    ensures
        render_matches(r, spec_render_trait_qualifier(*trait_path, *dialect)),
    decreases *trait_path,
{
    match trait_path {
        None => Ok(String::new()),
        Some(tp) => match path_to_string(tp, dialect) {
            Ok(ts) => {
                if dialect.qualified_path_style == QualifiedPathStyle::Dotted {
                    let mut s = "|<: ".to_owned();
                    s.append(ts.as_str());
                    s.append("|");
                    Ok(s)
                } else {
                    let mut s = " as ".to_owned();
                    s.append(ts.as_str());
                    Ok(s)
                }
            },
            Err(e) => Err(e),
        },
    }
}

/// Renders the trailing argument list of a dotted-style qualified path.
#[verifier::loop_isolation(false)]
fn qp_args_to_string(args: &Option<Box<GenericArgs>>, dialect: &Dialect) -> (r: Result<
    String,
    RenderError,
>)
    ensures
        render_matches(r, spec_render_qp_args(*args, *dialect)),
    decreases *args,
{
    match args {
        None => Ok("()".to_owned()),
        Some(ga) => match &**ga {
            GenericArgs::AngleBracketed(list) => {
                let mut joined = String::new();
                let ghost mut parts: Seq<Seq<char>> = Seq::empty();
                let mut j: usize = 0;
                proof {
                    assert(list@.take(0) =~= Seq::<GenericArg>::empty());
                }
                while j < list.len()
                    invariant
                        j <= list@.len(),
                        parts.len() == j,
                        spec_render_arg_list(list@.take(j as int), *dialect) == Some(parts),
                        joined@ == join_with(parts, ", "@),
                    decreases list@.len() - j,
                {
                    proof {
                        assert(decreases_to!(*args => list@[j as int]));
                    }
                    match generic_arg_to_string(&list[j], dialect) {
                        Ok(piece) => {
                            if j > 0 {
                                joined.append(", ");
                            }
                            joined.append(piece.as_str());
                            proof {
                                lemma_join_push(parts, ", "@, piece@);
                                parts = parts.push(piece@);
                                assert(list@.take(j as int + 1).drop_last() =~= list@.take(
                                    j as int,
                                ));
                                assert(list@.take(j as int + 1).last() == list@[j as int]);
                                assert(joined@ =~= join_with(parts, ", "@));
                            }
                        },
                        Err(e) => {
                            proof {
                                lemma_arg_list_fails(list@, *dialect, j as int);
                            }
                            return Err(e);
                        },
                    }
                    j = j + 1;
                }
                proof {
                    assert(list@.take(list@.len() as int) =~= list@);
                }
                let mut s = "(".to_owned();
                s.append(joined.as_str());
                s.append(")");
                Ok(s)
            },
            _ => {
                proof {
                    assert(decreases_to!(*args => **ga));
                }
                generic_args_to_string(ga, dialect)
            },
        },
    }
}

/// Renders generic arguments. An empty angle-bracketed list renders as the
/// empty string, with no enclosure tokens at all.
#[verifier::loop_isolation(false)]
pub fn generic_args_to_string(args: &GenericArgs, dialect: &Dialect) -> (r: Result<
    String,
    RenderError,
>)
    ensures
        render_matches(r, spec_render_generic_args(*args, *dialect)),
    decreases *args,
{
    match args {
        GenericArgs::AngleBracketed(list) => {
            if list.len() == 0 {
                return Ok(String::new());
            }
            let mut joined = String::new();
            let ghost mut parts: Seq<Seq<char>> = Seq::empty();
            let mut j: usize = 0;
            proof {
                assert(list@.take(0) =~= Seq::<GenericArg>::empty());
            }
            while j < list.len()
                invariant
                    j <= list@.len(),
                    parts.len() == j,
                    spec_render_arg_list(list@.take(j as int), *dialect) == Some(parts),
                    joined@ == join_with(parts, ", "@),
                decreases list@.len() - j,
            {
                proof {
                    assert(decreases_to!(*args => list@[j as int]));
                }
                match generic_arg_to_string(&list[j], dialect) {
                    Ok(piece) => {
                        if j > 0 {
                            joined.append(", ");
                        }
                        joined.append(piece.as_str());
                        proof {
                            lemma_join_push(parts, ", "@, piece@);
                            parts = parts.push(piece@);
                            assert(list@.take(j as int + 1).drop_last() =~= list@.take(j as int));
                            assert(list@.take(j as int + 1).last() == list@[j as int]);
                            assert(joined@ =~= join_with(parts, ", "@));
                        }
                    },
                    Err(e) => {
                        proof {
                            lemma_arg_list_fails(list@, *dialect, j as int);
                        }
                        return Err(e);
                    },
                }
                j = j + 1;
            }
            proof {
                assert(list@.take(list@.len() as int) =~= list@);
            }
            let mut s = dialect.generic_open.clone();
            s.append(joined.as_str());
            s.append(dialect.generic_close.as_str());
            Ok(s)
        },
        GenericArgs::Parenthesized { inputs, output } => {
            let mut joined = String::new();
            let ghost mut parts: Seq<Seq<char>> = Seq::empty();
            let mut j: usize = 0;
            proof {
                assert(inputs@.take(0) =~= Seq::<TypeExpr>::empty());
            }
            while j < inputs.len()
                invariant
                    j <= inputs@.len(),
                    parts.len() == j,
                    spec_render_type_list(inputs@.take(j as int), *dialect) == Some(parts),
                    joined@ == join_with(parts, ", "@),
                decreases inputs@.len() - j,
            {
                proof {
                    assert(decreases_to!(*args => inputs@[j as int]));
                }
                match type_to_string(&inputs[j], dialect) {
                    Ok(piece) => {
                        if j > 0 {
                            joined.append(", ");
                        }
                        joined.append(piece.as_str());
                        proof {
                            lemma_join_push(parts, ", "@, piece@);
                            parts = parts.push(piece@);
                            assert(inputs@.take(j as int + 1).drop_last() =~= inputs@.take(
                                j as int,
                            ));
                            assert(inputs@.take(j as int + 1).last() == inputs@[j as int]);
                            assert(joined@ =~= join_with(parts, ", "@));
                        }
                    },
                    Err(e) => {
                        proof {
                            lemma_type_list_fails(inputs@, *dialect, j as int);
                        }
                        return Err(e);
                    },
                }
                j = j + 1;
            }
            proof {
                assert(inputs@.take(inputs@.len() as int) =~= inputs@);
            }
            let mut s = "(".to_owned();
            s.append(joined.as_str());
            s.append(")");
            match output {
                Some(o) => {
                    proof {
                        assert(decreases_to!(*args => **o));
                    }
                    match type_to_string(o, dialect) {
                        Ok(os) => {
                            s.append(" -> ");
                            s.append(os.as_str());
                            Ok(s)
                        },
                        Err(e) => Err(e),
                    }
                },
                None => Ok(s),
            }
        },
        GenericArgs::ReturnTypeNotation => Ok("(..)".to_owned()),
    }
}

/// Renders one generic argument.
pub fn generic_arg_to_string(arg: &GenericArg, dialect: &Dialect) -> (r: Result<
    String,
    RenderError,
>)
    ensures
        render_matches(r, spec_render_generic_arg(*arg, *dialect)),
    decreases *arg,
{
    match arg {
        GenericArg::Type(ty) => type_to_string(ty, dialect),
        GenericArg::Lifetime(l) => Ok(l.clone()),
        GenericArg::Const(_) => Err(RenderError::UnsupportedNodeKind),
        GenericArg::Infer => Ok("_".to_owned()),
    }
}

/// Renders a bound.
#[verifier::loop_isolation(false)]
pub fn bound_to_string(bound: &GenericBound, dialect: &Dialect) -> (r: Result<String, RenderError>)
    ensures
        render_matches(r, spec_render_bound(*bound, *dialect)),
    decreases *bound,
{
    match bound {
        GenericBound::TraitBound { trait_path, generic_params } => {
            let mut joined = String::new();
            let ghost mut parts: Seq<Seq<char>> = Seq::empty();
            let mut j: usize = 0;
            proof {
                assert(generic_params@.take(0) =~= Seq::<GenericParamDef>::empty());
            }
            while j < generic_params.len()
                invariant
                    j <= generic_params@.len(),
                    parts.len() == j,
                    spec_render_param_def_list(generic_params@.take(j as int), *dialect) == Some(
                        parts,
                    ),
                    joined@ == join_with(parts, ", "@),
                decreases generic_params@.len() - j,
            {
                proof {
                    assert(decreases_to!(*bound => generic_params@[j as int]));
                }
                match generic_param_def_to_string(&generic_params[j], dialect) {
                    Ok(piece) => {
                        if j > 0 {
                            joined.append(", ");
                        }
                        joined.append(piece.as_str());
                        proof {
                            lemma_join_push(parts, ", "@, piece@);
                            parts = parts.push(piece@);
                            assert(generic_params@.take(j as int + 1).drop_last()
                                =~= generic_params@.take(j as int));
                            assert(generic_params@.take(j as int + 1).last()
                                == generic_params@[j as int]);
                            assert(joined@ =~= join_with(parts, ", "@));
                        }
                    },
                    Err(e) => {
                        proof {
                            lemma_param_def_list_fails(generic_params@, *dialect, j as int);
                        }
                        return Err(e);
                    },
                }
                j = j + 1;
            }
            proof {
                assert(generic_params@.take(generic_params@.len() as int) =~= generic_params@);
            }
            match path_to_string(trait_path, dialect) {
                Ok(ps) => {
                    let mut s = String::new();
                    if generic_params.len() > 0 {
                        s.append("for<");
                        s.append(joined.as_str());
                        s.append("> ");
                    }
                    s.append(ps.as_str());
                    proof {
                        if generic_params@.len() == 0 {
                            assert(s@ =~= ps@);
                        } else {
                            assert(s@ =~= ("for<"@ + join_with(parts, ", "@) + "> "@) + ps@);
                        }
                    }
                    Ok(s)
                },
                Err(e) => Err(e),
            }
        },
        GenericBound::Outlives(_) => Err(RenderError::UnsupportedNodeKind),
        GenericBound::Use(_) => Err(RenderError::UnsupportedNodeKind),
    }
}

/// Renders a poly trait: its trait path, then its higher-ranked parameters
/// concatenated with no separator.
#[verifier::loop_isolation(false)]
pub fn poly_trait_to_string(poly_trait: &PolyTrait, dialect: &Dialect) -> (r: Result<
    String,
    RenderError,
>)
    ensures
        render_matches(r, spec_render_poly_trait(*poly_trait, *dialect)),
    decreases *poly_trait,
{
    let mut joined = String::new();
    let ghost mut parts: Seq<Seq<char>> = Seq::empty();
    let mut j: usize = 0;
    proof {
        assert(poly_trait.generic_params@.take(0) =~= Seq::<GenericParamDef>::empty());
    }
    while j < poly_trait.generic_params.len()
        invariant
            j <= poly_trait.generic_params@.len(),
            parts.len() == j,
            spec_render_param_def_list(poly_trait.generic_params@.take(j as int), *dialect)
                == Some(parts),
            joined@ == join_with(parts, Seq::<char>::empty()),
        decreases poly_trait.generic_params@.len() - j,
    {
        proof {
            assert(decreases_to!(*poly_trait => poly_trait.generic_params@[j as int]));
        }
        match generic_param_def_to_string(&poly_trait.generic_params[j], dialect) {
            Ok(piece) => {
                joined.append(piece.as_str());
                proof {
                    lemma_join_push(parts, Seq::<char>::empty(), piece@);
                    parts = parts.push(piece@);
                    assert(poly_trait.generic_params@.take(j as int + 1).drop_last()
                        =~= poly_trait.generic_params@.take(j as int));
                    assert(poly_trait.generic_params@.take(j as int + 1).last()
                        == poly_trait.generic_params@[j as int]);
                    assert(joined@ =~= join_with(parts, Seq::<char>::empty()));
                }
            },
            Err(e) => {
                proof {
                    lemma_param_def_list_fails(poly_trait.generic_params@, *dialect, j as int);
                }
                return Err(e);
            },
        }
        j = j + 1;
    }
    proof {
        assert(poly_trait.generic_params@.take(poly_trait.generic_params@.len() as int)
            =~= poly_trait.generic_params@);
    }
    match path_to_string(&poly_trait.trait_path, dialect) {
        Ok(ps) => {
            let mut s = ps;
            s.append(joined.as_str());
            Ok(s)
        },
        Err(e) => Err(e),
    }
}

/// Renders a generic parameter definition.
#[verifier::loop_isolation(false)]
pub fn generic_param_def_to_string(param: &GenericParamDef, dialect: &Dialect) -> (r: Result<
    String,
    RenderError,
>)
    ensures
        render_matches(r, spec_render_param_def(*param, *dialect)),
    decreases *param,
{
    match &param.kind {
        GenericParamDefKind::Lifetime { outlives } => {
            let mut s = param.name.clone();
            if outlives.len() > 0 {
                let mut joined = String::new();
                let mut j: usize = 0;
                proof {
                    assert(string_views(outlives@.take(0)) =~= Seq::<Seq<char>>::empty());
                }
                while j < outlives.len()
                    invariant
                        j <= outlives@.len(),
                        joined@ == join_with(
                            string_views(outlives@.take(j as int)),
                            dialect.conjunction@,
                        ),
                    decreases outlives@.len() - j,
                {
                    if j > 0 {
                        joined.append(dialect.conjunction.as_str());
                    }
                    joined.append(outlives[j].as_str());
                    proof {
                        let sv = string_views(outlives@.take(j as int));
                        lemma_join_push(sv, dialect.conjunction@, outlives@[j as int]@);
                        assert(string_views(outlives@.take(j as int + 1)) =~= sv.push(
                            outlives@[j as int]@,
                        ));
                        assert(joined@ =~= join_with(
                            string_views(outlives@.take(j as int + 1)),
                            dialect.conjunction@,
                        ));
                    }
                    j = j + 1;
                }
                proof {
                    assert(outlives@.take(outlives@.len() as int) =~= outlives@);
                }
                s.append(": ");
                s.append(joined.as_str());
            }
            Ok(s)
        },
        GenericParamDefKind::Type { bounds, default } => {
            let mut joined = String::new();
            let ghost mut parts: Seq<Seq<char>> = Seq::empty();
            let mut j: usize = 0;
            proof {
                assert(bounds@.take(0) =~= Seq::<GenericBound>::empty());
            }
            while j < bounds.len()
                invariant
                    j <= bounds@.len(),
                    parts.len() == j,
                    spec_render_bound_list(bounds@.take(j as int), *dialect) == Some(parts),
                    joined@ == join_with(parts, dialect.conjunction@),
                decreases bounds@.len() - j,
            {
                proof {
                    assert(decreases_to!(*param => bounds@[j as int]));
                }
                match bound_to_string(&bounds[j], dialect) {
                    Ok(piece) => {
                        if j > 0 {
                            joined.append(dialect.conjunction.as_str());
                        }
                        joined.append(piece.as_str());
                        proof {
                            lemma_join_push(parts, dialect.conjunction@, piece@);
                            parts = parts.push(piece@);
                            assert(bounds@.take(j as int + 1).drop_last() =~= bounds@.take(
                                j as int,
                            ));
                            assert(bounds@.take(j as int + 1).last() == bounds@[j as int]);
                            assert(joined@ =~= join_with(parts, dialect.conjunction@));
                        }
                    },
                    Err(e) => {
                        proof {
                            lemma_bound_list_fails(bounds@, *dialect, j as int);
                        }
                        return Err(e);
                    },
                }
                j = j + 1;
            }
            proof {
                assert(bounds@.take(bounds@.len() as int) =~= bounds@);
            }
            let mut s = param.name.clone();
            if bounds.len() > 0 {
                s.append(": ");
                s.append(joined.as_str());
            }
            match default {
                Some(ty) => {
                    proof {
                        assert(decreases_to!(*param => **ty));
                    }
                    match type_to_string(ty, dialect) {
                        Ok(ds) => {
                            s.append(" = ");
                            s.append(ds.as_str());
                            Ok(s)
                        },
                        Err(e) => Err(e),
                    }
                },
                None => Ok(s),
            }
        },
        GenericParamDefKind::Const { .. } => Err(RenderError::UnsupportedNodeKind),
    }
}

/// Renders a function signature: the parenthesized `name: type` parameter
/// list, then the output type after an arrow when one exists; with no output
/// type, the dialect's no-output marker after an arrow when it has one, and
/// nothing otherwise.
#[verifier::loop_isolation(false)]
pub fn fn_sig_to_string(decl: &FunctionSignature, dialect: &Dialect) -> (r: Result<
    String,
    RenderError,
>)
    ensures
        render_matches(r, spec_render_fn_sig(*decl, *dialect)),
    decreases *decl,
{
    let mut joined = String::new();
    let ghost mut parts: Seq<Seq<char>> = Seq::empty();
    let mut j: usize = 0;
    proof {
        assert(decl.inputs@.take(0) =~= Seq::<(String, TypeExpr)>::empty());
    }
    while j < decl.inputs.len()
        invariant
            j <= decl.inputs@.len(),
            parts.len() == j,
            spec_render_input_list(decl.inputs@.take(j as int), *dialect) == Some(parts),
            joined@ == join_with(parts, ", "@),
        decreases decl.inputs@.len() - j,
    {
        proof {
            assert(decreases_to!(*decl => decl.inputs@[j as int].1));
        }
        let pair = &decl.inputs[j];
        match type_to_string(&pair.1, dialect) {
            Ok(ts) => {
                if j > 0 {
                    joined.append(", ");
                }
                joined.append(pair.0.as_str());
                joined.append(": ");
                joined.append(ts.as_str());
                proof {
                    let piece = pair.0@ + ": "@ + ts@;
                    lemma_join_push(parts, ", "@, piece);
                    parts = parts.push(piece);
                    assert(decl.inputs@.take(j as int + 1).drop_last() =~= decl.inputs@.take(
                        j as int,
                    ));
                    assert(decl.inputs@.take(j as int + 1).last() == decl.inputs@[j as int]);
                    assert(joined@ =~= join_with(parts, ", "@));
                }
            },
            Err(e) => {
                proof {
                    lemma_input_list_fails(decl.inputs@, *dialect, j as int);
                }
                return Err(e);
            },
        }
        j = j + 1;
    }
    proof {
        assert(decl.inputs@.take(decl.inputs@.len() as int) =~= decl.inputs@);
    }
    let mut s = "(".to_owned();
    s.append(joined.as_str());
    s.append(")");
    match &decl.output {
        Some(o) => {
            proof {
                assert(decreases_to!(*decl => *o));
            }
            match type_to_string(o, dialect) {
                Ok(os) => {
                    s.append(" -> ");
                    s.append(os.as_str());
                    Ok(s)
                },
                Err(e) => Err(e),
            }
        },
        None => match &dialect.no_output_marker {
            Some(m) => {
                s.append(" -> ");
                s.append(m.as_str());
                Ok(s)
            },
            None => Ok(s),
        },
    }
}

} // verus!
