use crate_inspector::dialect::{Dialect, QualifiedPathStyle, RefStyle};
use crate_inspector::format::{path_to_string, render};
use crate_inspector::model::{PathExpr, TypeExpr};
use crate_inspector::text::dotted;

fn prim(name: &str) -> TypeExpr {
    TypeExpr::Primitive(name.to_string())
}

#[test]
fn native_primitive_table_is_identity() {
    let d = Dialect::native();
    assert_eq!(render(&prim("u8"), &d).unwrap(), "u8");
    assert_eq!(render(&prim("bool"), &d).unwrap(), "bool");
    assert_eq!(render(&prim("made_up"), &d).unwrap(), "made_up");
}

#[test]
fn alternate_primitive_buckets() {
    let d = Dialect::alternate();
    assert_eq!(render(&prim("bool"), &d).unwrap(), "Bool");
    assert_eq!(render(&prim("u8"), &d).unwrap(), "Nat");
    assert_eq!(render(&prim("u128"), &d).unwrap(), "Nat");
    assert_eq!(render(&prim("usize"), &d).unwrap(), "Nat");
    assert_eq!(render(&prim("i8"), &d).unwrap(), "Int");
    assert_eq!(render(&prim("isize"), &d).unwrap(), "Int");
    assert_eq!(render(&prim("f32"), &d).unwrap(), "Float");
    assert_eq!(render(&prim("f128"), &d).unwrap(), "Float");
    assert_eq!(render(&prim("str"), &d).unwrap(), "Str");
    assert_eq!(render(&prim("char"), &d).unwrap(), "Str");
}

#[test]
fn alternate_passes_unmapped_primitives_through() {
    let d = Dialect::alternate();
    assert_eq!(render(&prim("never"), &d).unwrap(), "never");
}

#[test]
fn dialect_fields_are_as_documented() {
    let n = Dialect::native();
    assert_eq!(n.generic_open, "<");
    assert_eq!(n.generic_close, ">");
    assert_eq!(n.conjunction, " + ");
    assert!(n.emit_lifetimes);
    assert_eq!(n.ref_style, RefStyle::Prefix);
    assert!(n.impl_trait_prefix);
    assert_eq!(n.qualified_path_style, QualifiedPathStyle::Bracketed);
    assert!(n.no_output_marker.is_none());
    let a = Dialect::alternate();
    assert_eq!(a.generic_open, "(");
    assert_eq!(a.generic_close, ")");
    assert_eq!(a.conjunction, " and ");
    assert!(!a.emit_lifetimes);
    assert_eq!(a.ref_style, RefStyle::Wrapper);
    assert!(!a.impl_trait_prefix);
    assert_eq!(a.qualified_path_style, QualifiedPathStyle::Dotted);
    assert_eq!(a.no_output_marker.as_deref(), Some("NoneType"));
}

#[test]
fn primitive_lookup_takes_the_first_match() {
    let mut d = Dialect::native();
    d.primitives.push(("u8".to_string(), "Byte".to_string()));
    d.primitives.push(("u8".to_string(), "Octet".to_string()));
    assert_eq!(render(&prim("u8"), &d).unwrap(), "Byte");
}

#[test]
fn dotted_rewrites_path_separators() {
    assert_eq!(dotted("std::vec::Vec"), "std.vec.Vec");
    assert_eq!(dotted("plain"), "plain");
    assert_eq!(dotted(""), "");
    assert_eq!(dotted("::"), ".");
    assert_eq!(dotted(":::"), ".:");
    assert_eq!(dotted("a:b"), "a:b");
    assert_eq!(dotted("a::"), "a.");
    assert_eq!(dotted("::a"), ".a");
}

#[test]
fn dotted_style_rewrites_plain_path_names() {
    let p = PathExpr { name: "std::vec::Vec".to_string(), args: None };
    assert_eq!(path_to_string(&p, &Dialect::native()).unwrap(), "std::vec::Vec");
    assert_eq!(path_to_string(&p, &Dialect::alternate()).unwrap(), "std.vec.Vec");
}
