//! Dialect configuration: a small immutable value describing how generic
//! syntax, joining tokens, primitive names and reference sigils are written
//! for one target syntax.
//!
//! Two concrete dialects are provided: [`Dialect::native`], which writes
//! Rust's own surface syntax, and [`Dialect::alternate`], a paren-bracketed,
//! keyword-free syntax with remapped primitive names.

use vstd::prelude::*;

verus! {

/// How a borrowed reference is written.
#[derive(PartialEq, Eq, Structural, Clone, Copy, Debug)]
pub enum RefStyle {
    /// A leading sigil: `&` or `&mut `.
    Prefix,
    /// A call-like wrapper: `Ref(...)` or `RefMut(...)`.
    Wrapper,
}

/// How an associated-item projection is written.
#[derive(PartialEq, Eq, Structural, Clone, Copy, Debug)]
pub enum QualifiedPathStyle {
    /// `<Self as Trait>::name<Args>`.
    Bracketed,
    /// `Self|<: Trait|.name(Args)`, with `.` in place of `::` inside every
    /// plain path name.
    Dotted,
}

/// An immutable rendering configuration. Every recursive render call takes
/// the dialect as an explicit parameter, so renders are referentially
/// transparent and safe to run concurrently.
pub struct Dialect {
    /// Token opening a non-empty angle-bracketed generic argument list.
    pub generic_open: String,
    /// Token closing a non-empty angle-bracketed generic argument list.
    pub generic_close: String,
    /// Token joining multiple trait bounds or outlived lifetimes.
    pub conjunction: String,
    /// Whether lifetime annotations are emitted at all.
    pub emit_lifetimes: bool,
    /// How borrowed references are written.
    pub ref_style: RefStyle,
    /// Whether `impl `, `dyn ` and `fn` keyword prefixes are emitted.
    pub impl_trait_prefix: bool,
    /// Remaps raw primitive names to display names; a name with no entry
    /// passes through unchanged, so the empty table is the identity.
    pub primitives: Vec<(String, String)>,
    /// How associated-item projections are written.
    pub qualified_path_style: QualifiedPathStyle,
    /// Text appended after `" -> "` when a function declares no output type;
    /// absent, nothing is appended and no arrow is printed.
    pub no_output_marker: Option<String>,
}

/// The display name `entries` give to the primitive `name`: the second
/// component of the first pair whose first component is `name`, or `name`
/// itself when no pair matches.
pub open spec fn spec_primitive_name(entries: Seq<(String, String)>, name: Seq<char>) -> Seq<char>
    decreases entries.len(),
{
    if entries.len() == 0 {
        name
    } else if entries[0].0@ == name {
        entries[0].1@
    } else {
        spec_primitive_name(entries.drop_first(), name)
    }
}

/// The entry the alternate dialect's primitive table holds at position `i`:
/// `bool` becomes `Bool`, the unsigned and signed integer widths collapse to
/// `Nat` and `Int`, the floating-point widths to `Float`, and the text-like
/// primitives to `Str`.
pub open spec fn alternate_primitive_entry(i: int) -> (Seq<char>, Seq<char>) {
    if i == 0 {
        ("bool"@, "Bool"@)
    } else if i == 1 {
        ("u8"@, "Nat"@)
    } else if i == 2 {
        ("u16"@, "Nat"@)
    } else if i == 3 {
        ("u32"@, "Nat"@)
    } else if i == 4 {
        ("u64"@, "Nat"@)
    } else if i == 5 {
        ("u128"@, "Nat"@)
    } else if i == 6 {
        ("usize"@, "Nat"@)
    } else if i == 7 {
        ("i8"@, "Int"@)
    } else if i == 8 {
        ("i16"@, "Int"@)
    } else if i == 9 {
        ("i32"@, "Int"@)
    } else if i == 10 {
        ("i64"@, "Int"@)
    } else if i == 11 {
        ("i128"@, "Int"@)
    } else if i == 12 {
        ("isize"@, "Int"@)
    } else if i == 13 {
        ("f16"@, "Float"@)
    } else if i == 14 {
        ("f32"@, "Float"@)
    } else if i == 15 {
        ("f64"@, "Float"@)
    } else if i == 16 {
        ("f128"@, "Float"@)
    } else if i == 17 {
        ("str"@, "Str"@)
    } else {
        ("char"@, "Str"@)
    }
}

/// How many entries the alternate dialect's primitive table holds.
pub open spec fn alternate_primitive_len() -> int {
    19
}

impl Dialect {
    /// The display name this dialect gives to a primitive: looked up in the
    /// table, unmapped names pass through unchanged.
    pub fn primitive_name(&self, name: &String) -> (r: String)
        ensures
            r@ == spec_primitive_name(self.primitives@, name@),
    {
        let mut i: usize = 0;
        proof {
            assert(self.primitives@.skip(0) =~= self.primitives@);
        }
        while i < self.primitives.len()
            invariant
                i <= self.primitives@.len(),
                spec_primitive_name(self.primitives@.skip(i as int), name@)
                    == spec_primitive_name(self.primitives@, name@),
            decreases self.primitives@.len() - i,
        {
            let pair = &self.primitives[i];
            if pair.0 == *name {
                proof {
                    assert(self.primitives@.skip(i as int)[0] == self.primitives@[i as int]);
                }
                return pair.1.clone();
            }
            proof {
                assert(self.primitives@.skip(i as int)[0] == self.primitives@[i as int]);
                assert(self.primitives@.skip(i as int).drop_first() =~= self.primitives@.skip(
                    i as int + 1,
                ));
            }
            i = i + 1;
        }
        proof {
            assert(self.primitives@.skip(i as int).len() == 0);
        }
        name.clone()
    }

    /// The native dialect: Rust's own syntax. Angle brackets, `" + "`
    /// conjunction, lifetimes included, prefix reference style, keyword
    /// prefixes on, bracketed qualified paths, no explicit no-output marker,
    /// and the identity primitive table.
    pub fn native() -> (d: Dialect)
        ensures
            d.generic_open@ == "<"@,
            d.generic_close@ == ">"@,
            d.conjunction@ == " + "@,
            d.emit_lifetimes,
            d.ref_style == RefStyle::Prefix,
            d.impl_trait_prefix,
            d.primitives@.len() == 0,
            d.qualified_path_style == QualifiedPathStyle::Bracketed,
            d.no_output_marker is None,
    {
        Dialect {
            generic_open: "<".to_owned(),
            generic_close: ">".to_owned(),
            conjunction: " + ".to_owned(),
            emit_lifetimes: true,
            ref_style: RefStyle::Prefix,
            impl_trait_prefix: true,
            primitives: Vec::new(),
            qualified_path_style: QualifiedPathStyle::Bracketed,
            no_output_marker: None,
        }
    }

    /// The alternate dialect: parenthesized generic lists, `" and "`
    /// conjunction, lifetimes excluded, wrapper reference style, no keyword
    /// prefixes, dotted qualified paths, an explicit `NoneType` no-output
    /// marker, and the primitive remapping of [`alternate_primitive_entry`].
    pub fn alternate() -> (d: Dialect)
        ensures
            d.generic_open@ == "("@,
            d.generic_close@ == ")"@,
            d.conjunction@ == " and "@,
            !d.emit_lifetimes,
            d.ref_style == RefStyle::Wrapper,
            !d.impl_trait_prefix,
            d.primitives@.len() == alternate_primitive_len(),
            forall|i: int|
                0 <= i < alternate_primitive_len() ==> ((#[trigger] d.primitives@[i]).0@,
                d.primitives@[i].1@) == alternate_primitive_entry(i),
            d.qualified_path_style == QualifiedPathStyle::Dotted,
            d.no_output_marker matches Some(m) && m@ == "NoneType"@,
    {
        let mut primitives: Vec<(String, String)> = Vec::new();
        primitives.push(("bool".to_owned(), "Bool".to_owned()));
        primitives.push(("u8".to_owned(), "Nat".to_owned()));
        primitives.push(("u16".to_owned(), "Nat".to_owned()));
        primitives.push(("u32".to_owned(), "Nat".to_owned()));
        primitives.push(("u64".to_owned(), "Nat".to_owned()));
        primitives.push(("u128".to_owned(), "Nat".to_owned()));
        primitives.push(("usize".to_owned(), "Nat".to_owned()));
        primitives.push(("i8".to_owned(), "Int".to_owned()));
        primitives.push(("i16".to_owned(), "Int".to_owned()));
        primitives.push(("i32".to_owned(), "Int".to_owned()));
        primitives.push(("i64".to_owned(), "Int".to_owned()));
        primitives.push(("i128".to_owned(), "Int".to_owned()));
        primitives.push(("isize".to_owned(), "Int".to_owned()));
        primitives.push(("f16".to_owned(), "Float".to_owned()));
        primitives.push(("f32".to_owned(), "Float".to_owned()));
        primitives.push(("f64".to_owned(), "Float".to_owned()));
        primitives.push(("f128".to_owned(), "Float".to_owned()));
        primitives.push(("str".to_owned(), "Str".to_owned()));
        primitives.push(("char".to_owned(), "Str".to_owned()));
        Dialect {
            generic_open: "(".to_owned(),
            generic_close: ")".to_owned(),
            conjunction: " and ".to_owned(),
            emit_lifetimes: false,
            ref_style: RefStyle::Wrapper,
            impl_trait_prefix: false,
            primitives,
            qualified_path_style: QualifiedPathStyle::Dotted,
            no_output_marker: Some("NoneType".to_owned()),
        }
    }
}

} // verus!
