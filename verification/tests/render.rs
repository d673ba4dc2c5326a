use crate_inspector::dialect::Dialect;
use crate_inspector::format::{
    bound_to_string, fn_sig_to_string, generic_arg_to_string, generic_args_to_string,
    generic_param_def_to_string, path_to_string, poly_trait_to_string, render, type_to_string,
};
use crate_inspector::model::{
    FunctionSignature, GenericArg, GenericArgs, GenericBound, GenericParamDef,
    GenericParamDefKind, PathExpr, RenderError, TypeExpr,
};

fn prim(name: &str) -> TypeExpr {
    TypeExpr::Primitive(name.to_string())
}

fn plain_path(name: &str) -> PathExpr {
    PathExpr { name: name.to_string(), args: None }
}

#[test]
fn render_called_twice_is_identical() {
    let ty = TypeExpr::Slice(Box::new(prim("u8")));
    let d = Dialect::native();
    let first = render(&ty, &d).unwrap();
    let second = render(&ty, &d).unwrap();
    assert_eq!(first, second);
    assert_eq!(first, "[u8]");
}

#[test]
fn empty_angle_bracketed_generics_render_as_nothing() {
    let args = GenericArgs::AngleBracketed(Vec::new());
    assert_eq!(generic_args_to_string(&args, &Dialect::native()).unwrap(), "");
    assert_eq!(generic_args_to_string(&args, &Dialect::alternate()).unwrap(), "");
}

#[test]
fn signature_without_output_native() {
    let sig = FunctionSignature { inputs: vec![("x".to_string(), prim("i32"))], output: None };
    assert_eq!(fn_sig_to_string(&sig, &Dialect::native()).unwrap(), "(x: i32)");
}

#[test]
fn signature_without_output_alternate_gets_marker() {
    let sig = FunctionSignature { inputs: vec![("x".to_string(), prim("i32"))], output: None };
    assert_eq!(fn_sig_to_string(&sig, &Dialect::alternate()).unwrap(), "(x: Int) -> NoneType");
}

#[test]
fn signature_with_output() {
    let sig = FunctionSignature {
        inputs: vec![("a".to_string(), prim("u8")), ("b".to_string(), prim("bool"))],
        output: Some(prim("u8")),
    };
    assert_eq!(fn_sig_to_string(&sig, &Dialect::native()).unwrap(), "(a: u8, b: bool) -> u8");
    assert_eq!(
        fn_sig_to_string(&sig, &Dialect::alternate()).unwrap(),
        "(a: Nat, b: Bool) -> Nat"
    );
}

#[test]
fn dyn_trait_joining() {
    let ty = TypeExpr::DynTrait(crate_inspector::model::DynTraitExpr {
        traits: vec![
            crate_inspector::model::PolyTrait {
                trait_path: plain_path("Send"),
                generic_params: Vec::new(),
            },
            crate_inspector::model::PolyTrait {
                trait_path: plain_path("Sync"),
                generic_params: Vec::new(),
            },
        ],
        lifetime: None,
    });
    assert_eq!(render(&ty, &Dialect::native()).unwrap(), "dyn Send + Sync");
    assert_eq!(render(&ty, &Dialect::alternate()).unwrap(), "Send and Sync");
}

#[test]
fn dyn_trait_lifetime_only_when_emitted() {
    let ty = TypeExpr::DynTrait(crate_inspector::model::DynTraitExpr {
        traits: vec![crate_inspector::model::PolyTrait {
            trait_path: plain_path("Send"),
            generic_params: Vec::new(),
        }],
        lifetime: Some("'static".to_string()),
    });
    assert_eq!(render(&ty, &Dialect::native()).unwrap(), "dyn Send + 'static");
    assert_eq!(render(&ty, &Dialect::alternate()).unwrap(), "Send");
}

#[test]
fn path_with_generics() {
    let ty = TypeExpr::ResolvedPath(PathExpr {
        name: "Vec".to_string(),
        args: Some(Box::new(GenericArgs::AngleBracketed(vec![GenericArg::Type(prim("u8"))]))),
    });
    assert_eq!(render(&ty, &Dialect::native()).unwrap(), "Vec<u8>");
    assert_eq!(render(&ty, &Dialect::alternate()).unwrap(), "Vec(Nat)");
}

#[test]
fn array_frame_is_dialect_independent() {
    let native = TypeExpr::Array { inner: Box::new(prim("u8")), len: "4".to_string() };
    assert_eq!(render(&native, &Dialect::native()).unwrap(), "[u8; 4]");
    // The frame is shared; only the remapped element name differs.
    assert_eq!(render(&native, &Dialect::alternate()).unwrap(), "[Nat; 4]");
    // With an element no dialect touches, the whole rendering is identical.
    let neutral = TypeExpr::Array {
        inner: Box::new(TypeExpr::Generic("T".to_string())),
        len: "4".to_string(),
    };
    assert_eq!(render(&neutral, &Dialect::native()).unwrap(), "[T; 4]");
    assert_eq!(render(&neutral, &Dialect::alternate()).unwrap(), "[T; 4]");
}

#[test]
fn slice_and_tuple_frames_are_dialect_independent() {
    let slice = TypeExpr::Slice(Box::new(TypeExpr::Generic("T".to_string())));
    assert_eq!(render(&slice, &Dialect::native()).unwrap(), "[T]");
    assert_eq!(render(&slice, &Dialect::alternate()).unwrap(), "[T]");
    let tuple = TypeExpr::Tuple(vec![
        TypeExpr::Generic("T".to_string()),
        TypeExpr::Generic("U".to_string()),
    ]);
    assert_eq!(render(&tuple, &Dialect::native()).unwrap(), "(T, U)");
    assert_eq!(render(&tuple, &Dialect::alternate()).unwrap(), "(T, U)");
}

#[test]
fn one_element_tuple_is_ambiguous_with_a_parenthesized_type() {
    let tuple = TypeExpr::Tuple(vec![prim("u8")]);
    assert_eq!(render(&tuple, &Dialect::native()).unwrap(), "(u8)");
    let empty = TypeExpr::Tuple(Vec::new());
    assert_eq!(render(&empty, &Dialect::native()).unwrap(), "()");
}

#[test]
fn const_generic_param_def_is_unsupported() {
    let param = GenericParamDef {
        name: "N".to_string(),
        kind: GenericParamDefKind::Const {
            type_expr: Box::new(prim("usize")),
            default_expr: None,
        },
    };
    let r = generic_param_def_to_string(&param, &Dialect::native());
    assert_eq!(r, Err(RenderError::UnsupportedNodeKind));
    // A successful render is distinguishable from the failure.
    let ok = generic_param_def_to_string(
        &GenericParamDef {
            name: "T".to_string(),
            kind: GenericParamDefKind::Type { bounds: Vec::new(), default: None },
        },
        &Dialect::native(),
    );
    assert_eq!(ok, Ok("T".to_string()));
}

#[test]
fn const_generic_argument_is_unsupported() {
    let arg = GenericArg::Const("640 * 1024".to_string());
    assert_eq!(
        generic_arg_to_string(&arg, &Dialect::native()),
        Err(RenderError::UnsupportedNodeKind)
    );
}

#[test]
fn outlives_and_use_bounds_are_unsupported() {
    assert_eq!(
        bound_to_string(&GenericBound::Outlives("'a".to_string()), &Dialect::native()),
        Err(RenderError::UnsupportedNodeKind)
    );
    assert_eq!(
        bound_to_string(&GenericBound::Use(vec!["'a".to_string()]), &Dialect::native()),
        Err(RenderError::UnsupportedNodeKind)
    );
}

#[test]
fn unsupported_kind_fails_the_whole_tree() {
    let ty = TypeExpr::Tuple(vec![
        prim("u8"),
        TypeExpr::ResolvedPath(PathExpr {
            name: "A".to_string(),
            args: Some(Box::new(GenericArgs::AngleBracketed(vec![GenericArg::Const(
                "3".to_string(),
            )]))),
        }),
    ]);
    assert_eq!(render(&ty, &Dialect::native()), Err(RenderError::UnsupportedNodeKind));
}

#[test]
fn qualified_path_without_trait_has_no_stray_tokens() {
    let ty = TypeExpr::QualifiedPath {
        name: "Item".to_string(),
        args: None,
        self_type: Box::new(TypeExpr::Generic("T".to_string())),
        trait_path: None,
    };
    assert_eq!(render(&ty, &Dialect::native()).unwrap(), "<T>::Item");
    assert_eq!(render(&ty, &Dialect::alternate()).unwrap(), "T.Item()");
}

#[test]
fn qualified_path_with_trait() {
    let ty = TypeExpr::QualifiedPath {
        name: "Item".to_string(),
        args: None,
        self_type: Box::new(TypeExpr::Generic("T".to_string())),
        trait_path: Some(plain_path("Iterator")),
    };
    assert_eq!(render(&ty, &Dialect::native()).unwrap(), "<T as Iterator>::Item");
    assert_eq!(render(&ty, &Dialect::alternate()).unwrap(), "T|<: Iterator|.Item()");
}

#[test]
fn qualified_path_with_generic_args() {
    let ty = TypeExpr::QualifiedPath {
        name: "Output".to_string(),
        args: Some(Box::new(GenericArgs::AngleBracketed(vec![GenericArg::Lifetime(
            "'a".to_string(),
        )]))),
        self_type: Box::new(TypeExpr::Generic("S".to_string())),
        trait_path: None,
    };
    assert_eq!(render(&ty, &Dialect::native()).unwrap(), "<S>::Output<'a>");
    assert_eq!(render(&ty, &Dialect::alternate()).unwrap(), "S.Output('a)");
}

#[test]
fn function_pointer_prefix_is_gated() {
    let ty = TypeExpr::FunctionPointer(Box::new(FunctionSignature {
        inputs: vec![("x".to_string(), prim("u32"))],
        output: Some(prim("u32")),
    }));
    assert_eq!(render(&ty, &Dialect::native()).unwrap(), "fn(x: u32) -> u32");
    assert_eq!(render(&ty, &Dialect::alternate()).unwrap(), "(x: Nat) -> Nat");
}

#[test]
fn borrowed_ref_prefix_style() {
    let shared = TypeExpr::BorrowedRef {
        lifetime: Some("'a".to_string()),
        mutable: false,
        inner: Box::new(prim("str")),
    };
    assert_eq!(render(&shared, &Dialect::native()).unwrap(), "&'a str");
    let exclusive = TypeExpr::BorrowedRef {
        lifetime: None,
        mutable: true,
        inner: Box::new(prim("u8")),
    };
    assert_eq!(render(&exclusive, &Dialect::native()).unwrap(), "&mut  u8");
}

#[test]
fn borrowed_ref_wrapper_style() {
    let shared = TypeExpr::BorrowedRef {
        lifetime: Some("'a".to_string()),
        mutable: false,
        inner: Box::new(prim("str")),
    };
    // The alternate dialect drops lifetimes; the separating space stays.
    assert_eq!(render(&shared, &Dialect::alternate()).unwrap(), "Ref( Str)");
    let exclusive = TypeExpr::BorrowedRef {
        lifetime: None,
        mutable: true,
        inner: Box::new(prim("u8")),
    };
    assert_eq!(render(&exclusive, &Dialect::alternate()).unwrap(), "RefMut( Nat)");
}

#[test]
fn raw_pointer_is_dialect_independent() {
    let konst = TypeExpr::RawPointer { mutable: false, inner: Box::new(prim("u8")) };
    let mutable = TypeExpr::RawPointer {
        mutable: true,
        inner: Box::new(TypeExpr::Generic("T".to_string())),
    };
    assert_eq!(render(&konst, &Dialect::native()).unwrap(), "*u8");
    assert_eq!(render(&mutable, &Dialect::native()).unwrap(), "*mut T");
    assert_eq!(render(&mutable, &Dialect::alternate()).unwrap(), "*mut T");
}

#[test]
fn infer_and_generic_render_verbatim() {
    assert_eq!(render(&TypeExpr::Infer, &Dialect::native()).unwrap(), "_");
    assert_eq!(
        render(&TypeExpr::Generic("Self".to_string()), &Dialect::native()).unwrap(),
        "Self"
    );
    assert_eq!(
        generic_arg_to_string(&GenericArg::Infer, &Dialect::native()).unwrap(),
        "_"
    );
    assert_eq!(
        generic_arg_to_string(&GenericArg::Lifetime("'de".to_string()), &Dialect::native())
            .unwrap(),
        "'de"
    );
}

#[test]
fn pattern_wrapper_renders_as_its_inner_type() {
    let ty = TypeExpr::Pat(Box::new(prim("u32")));
    assert_eq!(render(&ty, &Dialect::native()).unwrap(), "u32");
}

#[test]
fn parenthesized_args_are_dialect_independent() {
    let args = GenericArgs::Parenthesized {
        inputs: vec![TypeExpr::Generic("A".to_string()), TypeExpr::Generic("B".to_string())],
        output: Some(Box::new(TypeExpr::Generic("C".to_string()))),
    };
    assert_eq!(generic_args_to_string(&args, &Dialect::native()).unwrap(), "(A, B) -> C");
    assert_eq!(generic_args_to_string(&args, &Dialect::alternate()).unwrap(), "(A, B) -> C");
    let no_output = GenericArgs::Parenthesized { inputs: Vec::new(), output: None };
    assert_eq!(generic_args_to_string(&no_output, &Dialect::native()).unwrap(), "()");
}

#[test]
fn return_type_notation_is_fixed() {
    assert_eq!(
        generic_args_to_string(&GenericArgs::ReturnTypeNotation, &Dialect::native()).unwrap(),
        "(..)"
    );
    assert_eq!(
        generic_args_to_string(&GenericArgs::ReturnTypeNotation, &Dialect::alternate()).unwrap(),
        "(..)"
    );
}

#[test]
fn higher_ranked_trait_bound() {
    let bound = GenericBound::TraitBound {
        trait_path: plain_path("Fn"),
        generic_params: vec![GenericParamDef {
            name: "'a".to_string(),
            kind: GenericParamDefKind::Lifetime { outlives: Vec::new() },
        }],
    };
    assert_eq!(bound_to_string(&bound, &Dialect::native()).unwrap(), "for<'a> Fn");
    let plain = GenericBound::TraitBound {
        trait_path: plain_path("Clone"),
        generic_params: Vec::new(),
    };
    assert_eq!(bound_to_string(&plain, &Dialect::native()).unwrap(), "Clone");
}

#[test]
fn poly_trait_concatenates_params_without_separator() {
    let pt = crate_inspector::model::PolyTrait {
        trait_path: plain_path("Fn"),
        generic_params: vec![
            GenericParamDef {
                name: "'a".to_string(),
                kind: GenericParamDefKind::Lifetime { outlives: Vec::new() },
            },
            GenericParamDef {
                name: "'b".to_string(),
                kind: GenericParamDefKind::Lifetime { outlives: Vec::new() },
            },
        ],
    };
    assert_eq!(poly_trait_to_string(&pt, &Dialect::native()).unwrap(), "Fn'a'b");
}

#[test]
fn lifetime_param_def_joins_outlives_with_conjunction() {
    let param = GenericParamDef {
        name: "'r".to_string(),
        kind: GenericParamDefKind::Lifetime {
            outlives: vec!["'a".to_string(), "'b".to_string()],
        },
    };
    assert_eq!(
        generic_param_def_to_string(&param, &Dialect::native()).unwrap(),
        "'r: 'a + 'b"
    );
    assert_eq!(
        generic_param_def_to_string(&param, &Dialect::alternate()).unwrap(),
        "'r: 'a and 'b"
    );
}

#[test]
fn type_param_def_with_bounds_and_default() {
    let param = GenericParamDef {
        name: "T".to_string(),
        kind: GenericParamDefKind::Type {
            bounds: vec![
                GenericBound::TraitBound {
                    trait_path: plain_path("Clone"),
                    generic_params: Vec::new(),
                },
                GenericBound::TraitBound {
                    trait_path: plain_path("Send"),
                    generic_params: Vec::new(),
                },
            ],
            default: Some(Box::new(prim("u8"))),
        },
    };
    assert_eq!(
        generic_param_def_to_string(&param, &Dialect::native()).unwrap(),
        "T: Clone + Send = u8"
    );
}

#[test]
fn impl_trait_prefix_is_gated() {
    let ty = TypeExpr::ImplTrait(vec![GenericBound::TraitBound {
        trait_path: plain_path("Iterator"),
        generic_params: Vec::new(),
    }]);
    assert_eq!(render(&ty, &Dialect::native()).unwrap(), "impl Iterator");
    assert_eq!(render(&ty, &Dialect::alternate()).unwrap(), "Iterator");
}

#[test]
fn nested_generics_render_recursively() {
    let inner = TypeExpr::ResolvedPath(PathExpr {
        name: "Option".to_string(),
        args: Some(Box::new(GenericArgs::AngleBracketed(vec![GenericArg::Type(prim("u8"))]))),
    });
    let ty = TypeExpr::ResolvedPath(PathExpr {
        name: "Vec".to_string(),
        args: Some(Box::new(GenericArgs::AngleBracketed(vec![GenericArg::Type(inner)]))),
    });
    assert_eq!(render(&ty, &Dialect::native()).unwrap(), "Vec<Option<u8>>");
    assert_eq!(render(&ty, &Dialect::alternate()).unwrap(), "Vec(Option(Nat))");
}

#[test]
fn type_to_string_and_render_agree() {
    let ty = TypeExpr::Tuple(vec![prim("u8"), prim("i32")]);
    let d = Dialect::native();
    assert_eq!(render(&ty, &d).unwrap(), type_to_string(&ty, &d).unwrap());
}

#[test]
fn path_to_string_without_args() {
    assert_eq!(
        path_to_string(&plain_path("Widget"), &Dialect::native()).unwrap(),
        "Widget"
    );
}
