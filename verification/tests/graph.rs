use crate_inspector::graph::{Crate, GraphError, HasName, HasType, ImplFilter, Item, ItemKind};
use crate_inspector::model::{FunctionSignature, PathExpr, TypeExpr};

fn item(id: u64, name: Option<&str>, inner: ItemKind) -> Item {
    Item { id, crate_id: 0, name: name.map(|n| n.to_string()), public: true, inner }
}

fn prim(name: &str) -> TypeExpr {
    TypeExpr::Primitive(name.to_string())
}

fn fn_item(id: u64, name: &str, self_param: bool) -> Item {
    let mut inputs = Vec::new();
    if self_param {
        inputs.push(("self".to_string(), prim("u8")));
    }
    inputs.push(("x".to_string(), prim("i32")));
    item(
        id,
        Some(name),
        ItemKind::Function { sig: FunctionSignature { inputs, output: None }, has_body: true },
    )
}

/// A small graph: a root module holding a struct, an enum, a plain function,
/// a submodule, a trait, a method-shaped function and an associated function;
/// plus field, variant, impl and external items, a struct with a dangling
/// field reference, and a pair of items sharing one identifier.
fn sample() -> Crate {
    let items = vec![
        // 0
        item(0, Some("root"), ItemKind::Module { items: vec![1, 2, 3, 4, 5, 10, 12] }),
        // 1
        item(1, Some("Widget"), ItemKind::Struct { fields: Some(vec![6]) }),
        // 2
        item(6, Some("w"), ItemKind::StructField { type_expr: prim("u8") }),
        // 3
        item(2, Some("Color"), ItemKind::Enum { variants: vec![7, 8] }),
        // 4
        item(7, Some("Red"), ItemKind::Variant { discriminant: None }),
        // 5
        item(8, Some("Green"), ItemKind::Variant { discriminant: Some(("2".to_string(), "2".to_string())) }),
        // 6
        fn_item(3, "run", false),
        // 7
        item(4, Some("sub"), ItemKind::Module { items: Vec::new() }),
        // 8
        item(5, Some("Show"), ItemKind::Trait { items: Vec::new() }),
        // 9
        fn_item(10, "method_like", true),
        // 10
        item(
            11,
            None,
            ItemKind::Impl {
                trait_path: None,
                for_type: prim("u8"),
                for_id: Some(1),
                items: vec![12],
                blanket: false,
            },
        ),
        // 11
        fn_item(12, "assoc", false),
        // 12
        item(21, Some("Broken"), ItemKind::Struct { fields: Some(vec![99]) }),
        // 13
        Item {
            id: 40,
            crate_id: 1,
            name: Some("Ext".to_string()),
            public: true,
            inner: ItemKind::Struct { fields: None },
        },
        // 14
        item(30, Some("Dup1"), ItemKind::Struct { fields: None }),
        // 15
        item(30, Some("Dup2"), ItemKind::Struct { fields: None }),
        // 16
        item(
            50,
            None,
            ItemKind::Impl {
                trait_path: Some(PathExpr { name: "Show".to_string(), args: None }),
                for_type: prim("u8"),
                for_id: Some(1),
                items: Vec::new(),
                blanket: false,
            },
        ),
        // 17
        item(
            51,
            None,
            ItemKind::Impl {
                trait_path: Some(PathExpr { name: "Clone".to_string(), args: None }),
                for_type: prim("u8"),
                for_id: Some(1),
                items: Vec::new(),
                blanket: true,
            },
        ),
        // 18
        item(52, Some("Dangling"), ItemKind::Trait { items: vec![77] }),
        // 19
        item(53, Some("Blob"), ItemKind::Union { fields: vec![6] }),
        // 20
        item(54, Some("GREETING"), ItemKind::Static { type_expr: prim("str") }),
    ];
    Crate { root: 0, items }
}

#[test]
fn get_item_finds_local_items_by_name() {
    let c = sample();
    assert_eq!(c.get_item("Widget").unwrap().id, 1);
    assert_eq!(c.get_item("w").unwrap().id, 6);
    assert!(c.get_item("Ext").is_none());
    assert!(c.get_item("absent").is_none());
}

#[test]
fn get_by_kind_and_name() {
    let c = sample();
    assert_eq!(c.get_struct("Widget").unwrap().id, 1);
    assert!(c.get_struct("Color").is_none());
    assert_eq!(c.get_enum("Color").unwrap().id, 2);
    assert_eq!(c.get_trait("Show").unwrap().id, 5);
    assert_eq!(c.get_module("sub").unwrap().id, 4);
    assert_eq!(c.get_module("root").unwrap().id, 0);
}

#[test]
fn get_function_takes_plain_functions_only() {
    let c = sample();
    assert_eq!(c.get_function("run").unwrap().id, 3);
    assert!(c.get_function("method_like").is_none());
    assert!(c.get_function("assoc").is_none());
}

#[test]
fn kind_filtered_iteration() {
    let c = sample();
    assert_eq!(c.structs(), vec![1]);
    assert_eq!(c.all_structs(), vec![1, 12, 13, 14, 15]);
    assert_eq!(c.enums(), vec![3]);
    assert_eq!(c.traits(), vec![8]);
    assert_eq!(c.sub_modules(), vec![7]);
    assert_eq!(c.functions(), vec![6]);
    assert_eq!(c.all_functions(), vec![6, 9, 11]);
    assert_eq!(c.all_modules(), vec![0, 7]);
    assert_eq!(c.impls(), vec![]);
    assert_eq!(c.all_impls(), vec![10, 16, 17]);
    assert_eq!(c.all_unions(), vec![19]);
    assert_eq!(c.unions(), vec![]);
    assert_eq!(c.all_statics(), vec![20]);
    assert_eq!(c.statics(), vec![]);
    assert_eq!(c.all_uses(), vec![]);
    assert_eq!(c.all_macros(), vec![]);
    assert_eq!(c.all_type_aliases(), vec![]);
    assert_eq!(c.all_trait_aliases(), vec![]);
    assert_eq!(c.items().len(), 20);
}

#[test]
fn union_fields_resolve_like_struct_fields() {
    let c = sample();
    assert_eq!(c.union_fields(19), Ok(vec![2]));
    assert_eq!(c.union_fields(1), Err(GraphError::UnknownReference));
}

#[test]
fn impls_of_a_type_respect_the_filter() {
    let c = sample();
    assert_eq!(c.impls_of(1, ImplFilter::Any), vec![10, 16, 17]);
    assert_eq!(c.impls_of(1, ImplFilter::TraitImpls), vec![16, 17]);
    assert_eq!(c.impls_of(1, ImplFilter::BlanketImpls), vec![17]);
    assert_eq!(c.impls_of(1, ImplFilter::NonBlanketImpls), vec![16]);
    assert_eq!(c.impls_of(1, ImplFilter::Inherent), vec![10]);
    assert_eq!(c.impls_of(2, ImplFilter::Any), vec![]);
}

#[test]
fn contained_items_resolve_in_order() {
    let c = sample();
    assert_eq!(c.contained_items(0), Ok(vec![1, 3, 6, 7, 8, 9, 11]));
    assert_eq!(c.contained_items(8), Ok(vec![]));
    assert_eq!(c.contained_items(10), Ok(vec![11]));
    // A struct is not a container.
    assert_eq!(c.contained_items(1), Err(GraphError::UnknownReference));
    // A dangling identifier is an unknown reference.
    assert_eq!(c.contained_items(18), Err(GraphError::UnknownReference));
}

#[test]
fn find_index_takes_the_first_match() {
    let c = sample();
    assert_eq!(c.find_index(6), Some(2));
    assert_eq!(c.find_index(30), Some(14));
    assert_eq!(c.find_index(99), None);
}

#[test]
fn root_membership() {
    let c = sample();
    assert!(c.is_root_item(1));
    assert!(c.is_root_item(12));
    assert!(!c.is_root_item(6));
    assert!(!c.is_root_item(0));
}

#[test]
fn struct_fields_resolve_in_order() {
    let c = sample();
    assert_eq!(c.struct_fields(1), Ok(Some(vec![2])));
    assert_eq!(c.struct_fields(14), Ok(None));
}

#[test]
fn dangling_field_reference_is_an_unknown_reference() {
    let c = sample();
    assert_eq!(c.struct_fields(12), Err(GraphError::UnknownReference));
    // An index that holds no struct is the same condition.
    assert_eq!(c.struct_fields(3), Err(GraphError::UnknownReference));
}

#[test]
fn enum_variants_resolve_in_order() {
    let c = sample();
    assert_eq!(c.enum_variants(3), Ok(vec![4, 5]));
    assert_eq!(c.enum_variants(1), Err(GraphError::UnknownReference));
}

#[test]
fn missing_names_are_representable() {
    let c = sample();
    let imp = &c.all_items()[10];
    assert!(imp.name().is_none());
    assert_eq!(imp.require_name(), Err(GraphError::MissingName));
    let widget = &c.all_items()[1];
    assert_eq!(widget.name().unwrap(), "Widget");
    assert_eq!(widget.require_name().unwrap(), "Widget");
}

#[test]
fn item_flags() {
    let c = sample();
    assert!(c.all_items()[1].is_public());
    assert!(c.all_items()[1].is_crate_item());
    assert!(!c.all_items()[1].is_external_item());
    assert!(c.all_items()[13].is_external_item());
    assert!(c.all_items()[9].is_method());
    assert!(!c.all_items()[6].is_method());
}

#[test]
fn typed_items_expose_their_type() {
    let c = sample();
    let field = &c.all_items()[2];
    assert!(matches!(field.type_(), Some(TypeExpr::Primitive(p)) if p == "u8"));
    let module = &c.all_items()[0];
    assert!(module.type_().is_none());
}

#[test]
fn association_and_methods_are_detected() {
    let c = sample();
    assert!(c.is_associated(12));
    assert!(!c.is_associated(3));
    assert_eq!(c.associated_impl(12), Some(10));
    assert_eq!(c.associated_impl(3), None);
}

#[test]
fn module_of_finds_the_holding_module() {
    let c = sample();
    assert_eq!(c.module_of(1), Some(0));
    assert_eq!(c.module_of(2), Some(0));
    // The root module itself stands in no module.
    assert_eq!(c.module_of(0), None);
    // A field stands in its struct, not in a module.
    assert_eq!(c.module_of(6), None);
}
