//! The item graph: the set of named entities of an inspected crate —
//! modules, functions, structs, enums and so on — keyed by opaque numeric
//! identifiers, with name-based lookup and kind-filtered iteration.
//!
//! The graph is a shared, read-only snapshot built once per inspected crate.
//! Entity kinds form a fixed, closed set of tagged variants; each variant
//! exposes the shared accessors (identity, payload, name) through plain
//! matches on the tag rather than runtime type inspection. A structural
//! reference that resolves to no suitable entry surfaces as
//! [`GraphError::UnknownReference`], and an item without a display name is
//! representable (`None`), never fatal.
//!
//! Items are held in a caller-chosen order; every lookup takes the first
//! entry that matches, in that order.

use vstd::prelude::*;

use crate::model::{FunctionSignature, PathExpr, TypeExpr};

verus! {

/// Why a graph lookup failed.
#[derive(PartialEq, Eq, Structural, Clone, Copy, Debug)]
pub enum GraphError {
    /// An item required to have a display name lacks one.
    MissingName,
    /// A structural reference resolves to no suitable entry in the graph.
    UnknownReference,
}

/// The kind-specific payload of an item: a fixed, closed set of variants.
#[allow(inconsistent_fields)]
#[derive(Debug, PartialEq, Eq)]
pub enum ItemKind {
    /// A module and the identifiers of the items it holds.
    Module { items: Vec<u64> },
    /// A function with its signature; `has_body` is false for a bare
    /// declaration.
    Function { sig: FunctionSignature, has_body: bool },
    /// A constant: its declared type, its defining expression, and its
    /// evaluated value when one is recorded.
    Constant { type_expr: TypeExpr, expr: String, value: Option<String> },
    /// A static with its declared type.
    Static { type_expr: TypeExpr },
    /// A struct; `fields` is absent for unit and tuple structs.
    Struct { fields: Option<Vec<u64>> },
    /// One named field with its declared type.
    StructField { type_expr: TypeExpr },
    /// An enum and the identifiers of its variants.
    Enum { variants: Vec<u64> },
    /// One enum variant, with its explicit discriminant when one is
    /// declared, as the pair of its source expression and its value.
    Variant { discriminant: Option<(String, String)> },
    /// A trait and the identifiers of its associated items.
    Trait { items: Vec<u64> },
    /// A trait alias.
    TraitAlias,
    /// A type alias with its aliased type.
    TypeAlias { type_expr: TypeExpr },
    /// A union and the identifiers of its fields.
    Union { fields: Vec<u64> },
    /// An impl block: its trait path when it is a trait impl, the type it is
    /// for (with that type's identifier when it is a named type), its
    /// associated items, and whether it is a blanket impl.
    Impl {
        trait_path: Option<PathExpr>,
        for_type: TypeExpr,
        for_id: Option<u64>,
        items: Vec<u64>,
        blanket: bool,
    },
    /// A macro, as its source text.
    Macro { body: String },
    /// A use declaration: the name it binds, the path it names, and whether
    /// it is a glob.
    Use { name: String, source: String, glob: bool },
    /// Any other entity kind: carried, named and countable, but with no
    /// payload the graph exposes.
    Other,
}

/// One entity of the graph.
#[derive(Debug, PartialEq, Eq)]
pub struct Item {
    /// The opaque identifier of this item, unique within a well-formed graph.
    pub id: u64,
    /// The crate the item comes from; `0` is the inspected crate itself.
    pub crate_id: u32,
    /// The display name; absent for impls, uses and other unnamed items.
    pub name: Option<String>,
    /// Whether the item is publicly visible.
    pub public: bool,
    /// The kind-specific payload.
    pub inner: ItemKind,
}

/// Anything that may carry a display name.
pub trait HasName {
    /// The name this value carries, if any.
    spec fn spec_name(&self) -> Option<Seq<char>>;

    /// The carried name; absence is an ordinary result, never a failure.
    fn name(&self) -> (r: Option<&String>)
        ensures
            (match (r, self.spec_name()) {
                (Some(s), Some(t)) => s@ == t,
                (None, None) => true,
                _ => false,
            }),
    ;
}

/// Anything that may carry a declared type expression.
pub trait HasType {
    /// The type this value carries, if any.
    spec fn spec_type(&self) -> Option<TypeExpr>;

    /// The carried type expression.
    fn type_(&self) -> (r: Option<&TypeExpr>)
        ensures
            (match (r, self.spec_type()) {
                (Some(s), Some(t)) => *s == t,
                (None, None) => true,
                _ => false,
            }),
    ;
}

impl HasName for Item {
    open spec fn spec_name(&self) -> Option<Seq<char>> {
        match self.name {
            Some(n) => Some(n@),
            None => None,
        }
    }

    fn name(&self) -> (r: Option<&String>) {
        match &self.name {
            Some(n) => Some(n),
            None => None,
        }
    }
}

impl HasType for Item {
    open spec fn spec_type(&self) -> Option<TypeExpr> {
        match self.inner {
            ItemKind::Constant { type_expr, .. } => Some(type_expr),
            ItemKind::Static { type_expr } => Some(type_expr),
            ItemKind::StructField { type_expr } => Some(type_expr),
            ItemKind::TypeAlias { type_expr } => Some(type_expr),
            _ => None,
        }
    }

    fn type_(&self) -> (r: Option<&TypeExpr>) {
        match &self.inner {
            ItemKind::Constant { type_expr, .. } => Some(type_expr),
            ItemKind::Static { type_expr } => Some(type_expr),
            ItemKind::StructField { type_expr } => Some(type_expr),
            ItemKind::TypeAlias { type_expr } => Some(type_expr),
            _ => None,
        }
    }
}

/// Whether a function item's first parameter is named `self`.
pub open spec fn spec_is_method(it: Item) -> bool {
    it.inner matches ItemKind::Function { sig, .. } && sig.inputs@.len() > 0
        && sig.inputs@[0].0@ == "self"@
}

impl Item {
    /// Whether the item is publicly visible.
    pub fn is_public(&self) -> (b: bool)
        ensures
            b == self.public,
    {
        self.public
    }

    /// Whether the item belongs to the inspected crate itself.
    pub fn is_crate_item(&self) -> (b: bool)
        ensures
            b == (self.crate_id == 0),
    {
        self.crate_id == 0
    }

    /// Whether the item is referenced from another crate.
    pub fn is_external_item(&self) -> (b: bool)
        ensures
            b == (self.crate_id != 0),
    {
        self.crate_id != 0
    }

    /// The item's display name, or [`GraphError::MissingName`] when the item
    /// lacks one.
    pub fn require_name(&self) -> (r: Result<&String, GraphError>)
        ensures
            (match (r, self.name) {
                (Ok(s), Some(n)) => s@ == n@,
                (Err(e), None) => e == GraphError::MissingName,
                _ => false,
            }),
    {
        match &self.name {
            Some(n) => Ok(n),
            None => Err(GraphError::MissingName),
        }
    }

    /// Whether the item is a function whose first parameter is named `self`.
    pub fn is_method(&self) -> (b: bool)
        ensures
            b == spec_is_method(*self),
    {
        match &self.inner {
            ItemKind::Function { sig, .. } => {
                if sig.inputs.len() > 0 {
                    let first = &sig.inputs[0];
                    let self_name: String = "self".to_owned();
                    first.0 == self_name
                } else {
                    false
                }
            },
            _ => false,
        }
    }
}

/// The item graph of one inspected crate: its items, in a caller-chosen
/// order, and the identifier of its root module.
#[derive(Debug, PartialEq, Eq)]
pub struct Crate {
    /// The identifier of the root module.
    pub root: u64,
    /// Every item of the graph, the externally referenced ones included.
    pub items: Vec<Item>,
}

/// The position of the first item carrying `id`.
pub open spec fn spec_find_index(items: Seq<Item>, id: u64) -> Option<int>
    decreases items.len(),
{
    if items.len() == 0 {
        None
    } else if items[0].id == id {
        Some(0int)
    } else {
        match spec_find_index(items.drop_first(), id) {
            Some(i) => Some(i + 1),
            None => None,
        }
    }
}

/// The first of `items` that the selection matches. The items walked over
/// are a suffix of the graph's own list, while scope tests read the whole
/// graph `c`.
pub open spec fn spec_find_selected(
    c: Crate,
    items: Seq<Item>,
    tag: ItemSelector,
    scope: Scope,
    nm: Seq<char>,
) -> Option<Item>
    decreases items.len(),
{
    if items.len() == 0 {
        None
    } else if spec_selected_named(c, tag, scope, nm, items[0]) {
        Some(items[0])
    } else {
        spec_find_selected(c, items.drop_first(), tag, scope, nm)
    }
}

/// The positions in `items` of everything the selection matches, in order.
pub open spec fn spec_selected_indices(
    c: Crate,
    items: Seq<Item>,
    tag: ItemSelector,
    scope: Scope,
) -> Seq<int>
    decreases items.len(),
{
    if items.len() == 0 {
        Seq::empty()
    } else {
        let rest = spec_selected_indices(c, items.drop_last(), tag, scope);
        if spec_selected(c, tag, scope, items.last()) {
            rest.push(items.len() - 1)
        } else {
            rest
        }
    }
}

/// Whether a module item directly holds the item carrying `id`.
pub open spec fn spec_in_module(m: Item, id: u64) -> bool {
    m.inner matches ItemKind::Module { items } && items@.contains(id)
}

/// Whether the item carrying `id` stands directly in the crate's root
/// module.
pub open spec fn spec_is_root_item(c: Crate, id: u64) -> bool {
    match spec_find_index(c.items@, c.root) {
        Some(i) => spec_in_module(c.items@[i], id),
        None => false,
    }
}

/// Whether some impl block of the graph holds the item carrying `id` as an
/// associated item.
pub open spec fn spec_is_associated(c: Crate, id: u64) -> bool {
    exists|i: int| 0 <= i < c.items@.len() && spec_impl_holds(#[trigger] c.items@[i], id)
}

/// Whether an impl item holds the item carrying `id`.
pub open spec fn spec_impl_holds(it: Item, id: u64) -> bool {
    it.inner matches ItemKind::Impl { items, .. } && items@.contains(id)
}

/// Whether `v` holds `id`.
fn contains_id(v: &Vec<u64>, id: u64) -> (b: bool)
    ensures
        b == v@.contains(id),
{
    let mut j: usize = 0;
    while j < v.len()
        invariant
            j <= v@.len(),
            forall|k: int| 0 <= k < j ==> v@[k] != id,
        decreases v@.len() - j,
    {
        if v[j] == id {
            return true;
        }
        j = j + 1;
    }
    false
}

impl Crate {
    /// The position of the first item carrying `id`, if any.
    pub fn find_index(&self, id: u64) -> (r: Option<usize>)
        ensures
            (match (r, spec_find_index(self.items@, id)) {
                (Some(a), Some(b)) => a as int == b && a < self.items@.len()
                    && self.items@[b].id == id,
                (None, None) => true,
                _ => false,
            }),
    {
        let mut j: usize = 0;
        while j < self.items.len()
            invariant
                j <= self.items@.len(),
                forall|k: int| 0 <= k < j ==> self.items@[k].id != id,
            decreases self.items@.len() - j,
        {
            if self.items[j].id == id {
                proof {
                    lemma_find_index_first(self.items@, id, j as int);
                }
                return Some(j);
            }
            j = j + 1;
        }
        proof {
            lemma_find_index_none(self.items@, id);
        }
        None
    }

    /// Whether the item carrying `id` stands directly in the root module.
    pub fn is_root_item(&self, id: u64) -> (b: bool)
        ensures
            b == spec_is_root_item(*self, id),
    {
        match self.find_index(self.root) {
            Some(i) => match &self.items[i].inner {
                ItemKind::Module { items } => contains_id(items, id),
                _ => false,
            },
            None => false,
        }
    }

    /// Whether some impl block holds the item carrying `id` as an associated
    /// item.
    pub fn is_associated(&self, id: u64) -> (b: bool)
        ensures
            b == spec_is_associated(*self, id),
    {
        let mut j: usize = 0;
        while j < self.items.len()
            invariant
                j <= self.items@.len(),
                forall|k: int| 0 <= k < j ==> !spec_impl_holds(#[trigger] self.items@[k], id),
            decreases self.items@.len() - j,
        {
            match &self.items[j].inner {
                ItemKind::Impl { items, .. } => {
                    if contains_id(items, id) {
                        return true;
                    }
                },
                _ => {},
            }
            j = j + 1;
        }
        false
    }
}

/// The kinds an item can be selected by; `AnyItem` selects every kind, and
/// `PlainFunction` selects functions with a body that are neither methods
/// nor associated with an impl block.
#[derive(PartialEq, Eq, Structural, Clone, Copy, Debug)]
pub enum ItemSelector {
    AnyItem,
    Module,
    Function,
    PlainFunction,
    Constant,
    Static,
    Struct,
    Enum,
    Trait,
    TraitAlias,
    TypeAlias,
    Union,
    Impl,
    Macro,
    Use,
}

/// The part of the graph a selection ranges over: every item, the inspected
/// crate's own items, or the items standing directly in the root module.
#[derive(PartialEq, Eq, Structural, Clone, Copy, Debug)]
pub enum Scope {
    All,
    Local,
    Root,
}

/// Whether an item is of the selected kind.
pub open spec fn spec_matches_selector(c: Crate, tag: ItemSelector, it: Item) -> bool {
    match tag {
        ItemSelector::AnyItem => true,
        ItemSelector::Module => it.inner is Module,
        ItemSelector::Function => it.inner is Function,
        ItemSelector::PlainFunction => it.inner matches ItemKind::Function { has_body, .. }
            && has_body && !spec_is_method(it) && !spec_is_associated(c, it.id),
        ItemSelector::Constant => it.inner is Constant,
        ItemSelector::Static => it.inner is Static,
        ItemSelector::Struct => it.inner is Struct,
        ItemSelector::Enum => it.inner is Enum,
        ItemSelector::Trait => it.inner is Trait,
        ItemSelector::TraitAlias => it.inner is TraitAlias,
        ItemSelector::TypeAlias => it.inner is TypeAlias,
        ItemSelector::Union => it.inner is Union,
        ItemSelector::Impl => it.inner is Impl,
        ItemSelector::Macro => it.inner is Macro,
        ItemSelector::Use => it.inner is Use,
    }
}

/// Whether an item lies in the given scope.
pub open spec fn spec_in_scope(c: Crate, scope: Scope, it: Item) -> bool {
    match scope {
        Scope::All => true,
        Scope::Local => it.crate_id == 0,
        Scope::Root => spec_is_root_item(c, it.id),
    }
}

/// Whether the selection matches an item: the right kind, in scope.
pub open spec fn spec_selected(c: Crate, tag: ItemSelector, scope: Scope, it: Item) -> bool {
    spec_matches_selector(c, tag, it) && spec_in_scope(c, scope, it)
}

/// Whether the selection matches an item that also carries the given name.
pub open spec fn spec_selected_named(
    c: Crate,
    tag: ItemSelector,
    scope: Scope,
    nm: Seq<char>,
    it: Item,
) -> bool {
    spec_matches_selector(c, tag, it) && spec_in_scope(c, scope, it) && (it.name matches Some(n)
        && n@ == nm)
}

/// The first position carrying the identifier is what the search finds.
proof fn lemma_find_index_first(items: Seq<Item>, id: u64, j: int)
    requires
        0 <= j < items.len(),
        items[j].id == id,
        forall|k: int| 0 <= k < j ==> items[k].id != id,
    ensures
        spec_find_index(items, id) == Some(j),
    decreases j,
{
    if j > 0 {
        let rest = items.drop_first();
        assert(forall|k: int| 0 <= k < j - 1 ==> #[trigger] rest[k].id != id);
        assert(rest[j - 1].id == id);
        lemma_find_index_first(rest, id, j - 1);
    }
}

/// With no position carrying the identifier, the search finds nothing.
proof fn lemma_find_index_none(items: Seq<Item>, id: u64)
    requires
        forall|k: int| 0 <= k < items.len() ==> items[k].id != id,
    ensures
        spec_find_index(items, id) is None,
    decreases items.len(),
{
    if items.len() > 0 {
        let rest = items.drop_first();
        assert(forall|k: int| 0 <= k < rest.len() ==> #[trigger] rest[k].id != id);
        lemma_find_index_none(rest, id);
    }
}

/// The first item the named selection matches is what the search finds.
proof fn lemma_find_selected_at(
    c: Crate,
    items: Seq<Item>,
    tag: ItemSelector,
    scope: Scope,
    nm: Seq<char>,
    j: int,
)
    requires
        0 <= j < items.len(),
        spec_selected_named(c, tag, scope, nm, items[j]),
        forall|k: int| 0 <= k < j ==> !spec_selected_named(c, tag, scope, nm, #[trigger] items[k]),
    ensures
        spec_find_selected(c, items, tag, scope, nm) == Some(items[j]),
    decreases j,
{
    if j > 0 {
        let rest = items.drop_first();
        assert(forall|k: int|
            0 <= k < j - 1 ==> !spec_selected_named(c, tag, scope, nm, #[trigger] rest[k]));
        assert(rest[j - 1] == items[j]);
        lemma_find_selected_at(c, rest, tag, scope, nm, j - 1);
    }
}

/// With no item the named selection matches, the search finds nothing.
proof fn lemma_find_selected_none(
    c: Crate,
    items: Seq<Item>,
    tag: ItemSelector,
    scope: Scope,
    nm: Seq<char>,
)
    requires
        forall|k: int|
            0 <= k < items.len() ==> !spec_selected_named(c, tag, scope, nm, #[trigger] items[k]),
    ensures
        spec_find_selected(c, items, tag, scope, nm) is None,
    decreases items.len(),
{
    if items.len() > 0 {
        let rest = items.drop_first();
        assert(forall|k: int|
            0 <= k < rest.len() ==> !spec_selected_named(c, tag, scope, nm, #[trigger] rest[k]));
        lemma_find_selected_none(c, rest, tag, scope, nm);
    }
}

impl Crate {
    /// Whether the item at position `j` is of the selected kind.
    fn matches_selector(&self, tag: ItemSelector, j: usize) -> (b: bool)
        requires
            j < self.items@.len(),
        ensures
            b == spec_matches_selector(*self, tag, self.items@[j as int]),
    {
        let it = &self.items[j];
        match tag {
            ItemSelector::AnyItem => true,
            ItemSelector::Module => (match &it.inner {
                ItemKind::Module { .. } => true,
                _ => false,
            }),
            ItemSelector::Function => (match &it.inner {
                ItemKind::Function { .. } => true,
                _ => false,
            }),
            ItemSelector::PlainFunction => (match &it.inner {
                ItemKind::Function { has_body, .. } => {
                    if *has_body {
                        let m = it.is_method();
                        let a = self.is_associated(it.id);
                        !m && !a
                    } else {
                        false
                    }
                },
                _ => false,
            }),
            ItemSelector::Constant => (match &it.inner {
                ItemKind::Constant { .. } => true,
                _ => false,
            }),
            ItemSelector::Static => (match &it.inner {
                ItemKind::Static { .. } => true,
                _ => false,
            }),
            ItemSelector::Struct => (match &it.inner {
                ItemKind::Struct { .. } => true,
                _ => false,
            }),
            ItemSelector::Enum => (match &it.inner {
                ItemKind::Enum { .. } => true,
                _ => false,
            }),
            ItemSelector::Trait => (match &it.inner {
                ItemKind::Trait { .. } => true,
                _ => false,
            }),
            ItemSelector::TraitAlias => (match &it.inner {
                ItemKind::TraitAlias => true,
                _ => false,
            }),
            ItemSelector::TypeAlias => (match &it.inner {
                ItemKind::TypeAlias { .. } => true,
                _ => false,
            }),
            ItemSelector::Union => (match &it.inner {
                ItemKind::Union { .. } => true,
                _ => false,
            }),
            ItemSelector::Impl => (match &it.inner {
                ItemKind::Impl { .. } => true,
                _ => false,
            }),
            ItemSelector::Macro => (match &it.inner {
                ItemKind::Macro { .. } => true,
                _ => false,
            }),
            ItemSelector::Use => (match &it.inner {
                ItemKind::Use { .. } => true,
                _ => false,
            }),
        }
    }

    /// Whether the item at position `j` lies in the given scope.
    fn matches_scope(&self, scope: Scope, j: usize) -> (b: bool)
        requires
            j < self.items@.len(),
        ensures
            b == spec_in_scope(*self, scope, self.items@[j as int]),
    {
        match scope {
            Scope::All => true,
            Scope::Local => self.items[j].crate_id == 0,
            Scope::Root => self.is_root_item(self.items[j].id),
        }
    }

    /// The first item of the selected kind, in the given scope, carrying the
    /// given name.
    pub fn find_selected(&self, name: &str, tag: ItemSelector, scope: Scope) -> (r: Option<&Item>)
        ensures
            (match (r, spec_find_selected(*self, self.items@, tag, scope, name@)) {
                (Some(a), Some(b)) => *a == b,
                (None, None) => true,
                _ => false,
            }),
    {
        let owned: String = name.to_owned();
        let mut j: usize = 0;
        while j < self.items.len()
            invariant
                j <= self.items@.len(),
                owned@ == name@,
                forall|k: int|
                    0 <= k < j ==> !spec_selected_named(
                        *self,
                        tag,
                        scope,
                        name@,
                        #[trigger] self.items@[k],
                    ),
            decreases self.items@.len() - j,
        {
            let sel = self.matches_selector(tag, j);
            let scoped = self.matches_scope(scope, j);
            let named = match &self.items[j].name {
                Some(n) => *n == owned,
                None => false,
            };
            if sel && scoped && named {
                proof {
                    lemma_find_selected_at(*self, self.items@, tag, scope, name@, j as int);
                }
                return Some(&self.items[j]);
            }
            j = j + 1;
        }
        proof {
            lemma_find_selected_none(*self, self.items@, tag, scope, name@);
        }
        None
    }

    /// The positions of all items of the selected kind in the given scope,
    /// in graph order.
    pub fn select_indices(&self, tag: ItemSelector, scope: Scope) -> (r: Vec<usize>)
        ensures
            r@.map_values(|u: usize| u as int) == spec_selected_indices(*self, self.items@, tag, scope),
            forall|k: int| 0 <= k < r@.len() ==> #[trigger] r@[k] < self.items@.len(),
    {
        let mut r: Vec<usize> = Vec::new();
        let mut j: usize = 0;
        proof {
            assert(self.items@.take(0) =~= Seq::<Item>::empty());
            assert(r@.map_values(|u: usize| u as int) =~= Seq::<int>::empty());
        }
        while j < self.items.len()
            invariant
                j <= self.items@.len(),
                r@.map_values(|u: usize| u as int) == spec_selected_indices(*self, self.items@.take(j as int), tag, scope),
                forall|k: int| 0 <= k < r@.len() ==> #[trigger] r@[k] < self.items@.len(),
            decreases self.items@.len() - j,
        {
            let sel = self.matches_selector(tag, j);
            let scoped = self.matches_scope(scope, j);
            let ghost old_r = r@;
            if sel && scoped {
                r.push(j);
                proof {
                    assert(r@.map_values(|u: usize| u as int) =~= old_r.map_values(
                        |u: usize| u as int,
                    ).push(j as int));
                }
            }
            proof {
                assert(spec_selected(*self, tag, scope, self.items@[j as int]) == (sel && scoped));
                assert(self.items@.take(j as int + 1).drop_last() =~= self.items@.take(j as int));
                assert(self.items@.take(j as int + 1).last() == self.items@[j as int]);
            }
            j = j + 1;
        }
        proof {
            assert(self.items@.take(self.items@.len() as int) =~= self.items@);
        }
        r
    }

    /// Every item, the externally referenced ones included.
    pub fn all_items(&self) -> (r: &Vec<Item>)
        ensures
            r@ == self.items@,
    {
        &self.items
    }

    /// Get a local item by its name.
    pub fn get_item(&self, name: &str) -> (r: Option<&Item>)
        ensures
            (match (r, spec_find_selected(*self, self.items@, ItemSelector::AnyItem, Scope::Local, name@)) {
                (Some(a), Some(b)) => *a == b,
                (None, None) => true,
                _ => false,
            }),
    {
        self.find_selected(name, ItemSelector::AnyItem, Scope::Local)
    }

    /// Get a root-module constant by its name.
    pub fn get_constant(&self, name: &str) -> (r: Option<&Item>)
        ensures
            (match (r, spec_find_selected(*self, self.items@, ItemSelector::Constant, Scope::Root, name@)) {
                (Some(a), Some(b)) => *a == b,
                (None, None) => true,
                _ => false,
            }),
    {
        self.find_selected(name, ItemSelector::Constant, Scope::Root)
    }

    /// Get a root-module plain function by its name.
    pub fn get_function(&self, name: &str) -> (r: Option<&Item>)
        ensures
            (match (r, spec_find_selected(*self, self.items@, ItemSelector::PlainFunction, Scope::Root, name@)) {
                (Some(a), Some(b)) => *a == b,
                (None, None) => true,
                _ => false,
            }),
    {
        self.find_selected(name, ItemSelector::PlainFunction, Scope::Root)
    }

    /// Get a root-module struct by its name.
    pub fn get_struct(&self, name: &str) -> (r: Option<&Item>)
        ensures
            (match (r, spec_find_selected(*self, self.items@, ItemSelector::Struct, Scope::Root, name@)) {
                (Some(a), Some(b)) => *a == b,
                (None, None) => true,
                _ => false,
            }),
    {
        self.find_selected(name, ItemSelector::Struct, Scope::Root)
    }

    /// Get a root-module enum by its name.
    pub fn get_enum(&self, name: &str) -> (r: Option<&Item>)
        ensures
            (match (r, spec_find_selected(*self, self.items@, ItemSelector::Enum, Scope::Root, name@)) {
                (Some(a), Some(b)) => *a == b,
                (None, None) => true,
                _ => false,
            }),
    {
        self.find_selected(name, ItemSelector::Enum, Scope::Root)
    }

    /// Get a root-module trait by its name.
    pub fn get_trait(&self, name: &str) -> (r: Option<&Item>)
        ensures
            (match (r, spec_find_selected(*self, self.items@, ItemSelector::Trait, Scope::Root, name@)) {
                (Some(a), Some(b)) => *a == b,
                (None, None) => true,
                _ => false,
            }),
    {
        self.find_selected(name, ItemSelector::Trait, Scope::Root)
    }

    /// Get a root-module type alias by its name.
    pub fn get_type_alias(&self, name: &str) -> (r: Option<&Item>)
        ensures
            (match (r, spec_find_selected(*self, self.items@, ItemSelector::TypeAlias, Scope::Root, name@)) {
                (Some(a), Some(b)) => *a == b,
                (None, None) => true,
                _ => false,
            }),
    {
        self.find_selected(name, ItemSelector::TypeAlias, Scope::Root)
    }

    /// Get a root-module trait alias by its name.
    pub fn get_trait_alias(&self, name: &str) -> (r: Option<&Item>)
        ensures
            (match (r, spec_find_selected(*self, self.items@, ItemSelector::TraitAlias, Scope::Root, name@)) {
                (Some(a), Some(b)) => *a == b,
                (None, None) => true,
                _ => false,
            }),
    {
        self.find_selected(name, ItemSelector::TraitAlias, Scope::Root)
    }

    /// Get a root-module union by its name.
    pub fn get_union(&self, name: &str) -> (r: Option<&Item>)
        ensures
            (match (r, spec_find_selected(*self, self.items@, ItemSelector::Union, Scope::Root, name@)) {
                (Some(a), Some(b)) => *a == b,
                (None, None) => true,
                _ => false,
            }),
    {
        self.find_selected(name, ItemSelector::Union, Scope::Root)
    }

    /// Get a local module by its name.
    pub fn get_module(&self, name: &str) -> (r: Option<&Item>)
        ensures
            (match (r, spec_find_selected(*self, self.items@, ItemSelector::Module, Scope::Local, name@)) {
                (Some(a), Some(b)) => *a == b,
                (None, None) => true,
                _ => false,
            }),
    {
        self.find_selected(name, ItemSelector::Module, Scope::Local)
    }

    /// The positions of the local items.
    pub fn items(&self) -> (r: Vec<usize>)
        ensures
            r@.map_values(|u: usize| u as int) == spec_selected_indices(*self, self.items@, ItemSelector::AnyItem, Scope::Local),
            forall|k: int| 0 <= k < r@.len() ==> #[trigger] r@[k] < self.items@.len(),
    {
        self.select_indices(ItemSelector::AnyItem, Scope::Local)
    }

    /// The positions of all modules.
    pub fn all_modules(&self) -> (r: Vec<usize>)
        ensures
            r@.map_values(|u: usize| u as int) == spec_selected_indices(*self, self.items@, ItemSelector::Module, Scope::All),
            forall|k: int| 0 <= k < r@.len() ==> #[trigger] r@[k] < self.items@.len(),
    {
        self.select_indices(ItemSelector::Module, Scope::All)
    }

    /// The positions of the local modules, the root module included.
    pub fn modules(&self) -> (r: Vec<usize>)
        ensures
            r@.map_values(|u: usize| u as int) == spec_selected_indices(*self, self.items@, ItemSelector::Module, Scope::Local),
            forall|k: int| 0 <= k < r@.len() ==> #[trigger] r@[k] < self.items@.len(),
    {
        self.select_indices(ItemSelector::Module, Scope::Local)
    }

    /// The positions of the modules standing directly in the root module.
    pub fn sub_modules(&self) -> (r: Vec<usize>)
        ensures
            r@.map_values(|u: usize| u as int) == spec_selected_indices(*self, self.items@, ItemSelector::Module, Scope::Root),
            forall|k: int| 0 <= k < r@.len() ==> #[trigger] r@[k] < self.items@.len(),
    {
        self.select_indices(ItemSelector::Module, Scope::Root)
    }

    /// The positions of all functions: methods, associated functions and
    /// bare declarations included.
    pub fn all_functions(&self) -> (r: Vec<usize>)
        ensures
            r@.map_values(|u: usize| u as int) == spec_selected_indices(*self, self.items@, ItemSelector::Function, Scope::All),
            forall|k: int| 0 <= k < r@.len() ==> #[trigger] r@[k] < self.items@.len(),
    {
        self.select_indices(ItemSelector::Function, Scope::All)
    }

    /// The positions of the root-module plain functions: no methods, no
    /// associated functions, no bare declarations.
    pub fn functions(&self) -> (r: Vec<usize>)
        ensures
            r@.map_values(|u: usize| u as int) == spec_selected_indices(*self, self.items@, ItemSelector::PlainFunction, Scope::Root),
            forall|k: int| 0 <= k < r@.len() ==> #[trigger] r@[k] < self.items@.len(),
    {
        self.select_indices(ItemSelector::PlainFunction, Scope::Root)
    }

    /// The positions of all structs.
    pub fn all_structs(&self) -> (r: Vec<usize>)
        ensures
            r@.map_values(|u: usize| u as int) == spec_selected_indices(*self, self.items@, ItemSelector::Struct, Scope::All),
            forall|k: int| 0 <= k < r@.len() ==> #[trigger] r@[k] < self.items@.len(),
    {
        self.select_indices(ItemSelector::Struct, Scope::All)
    }

    /// The positions of the root-module structs.
    pub fn structs(&self) -> (r: Vec<usize>)
        ensures
            r@.map_values(|u: usize| u as int) == spec_selected_indices(*self, self.items@, ItemSelector::Struct, Scope::Root),
            forall|k: int| 0 <= k < r@.len() ==> #[trigger] r@[k] < self.items@.len(),
    {
        self.select_indices(ItemSelector::Struct, Scope::Root)
    }

    /// The positions of all enums.
    pub fn all_enums(&self) -> (r: Vec<usize>)
        ensures
            r@.map_values(|u: usize| u as int) == spec_selected_indices(*self, self.items@, ItemSelector::Enum, Scope::All),
            forall|k: int| 0 <= k < r@.len() ==> #[trigger] r@[k] < self.items@.len(),
    {
        self.select_indices(ItemSelector::Enum, Scope::All)
    }

    /// The positions of the root-module enums.
    pub fn enums(&self) -> (r: Vec<usize>)
        ensures
            r@.map_values(|u: usize| u as int) == spec_selected_indices(*self, self.items@, ItemSelector::Enum, Scope::Root),
            forall|k: int| 0 <= k < r@.len() ==> #[trigger] r@[k] < self.items@.len(),
    {
        self.select_indices(ItemSelector::Enum, Scope::Root)
    }

    /// The positions of all traits.
    pub fn all_traits(&self) -> (r: Vec<usize>)
        ensures
            r@.map_values(|u: usize| u as int) == spec_selected_indices(*self, self.items@, ItemSelector::Trait, Scope::All),
            forall|k: int| 0 <= k < r@.len() ==> #[trigger] r@[k] < self.items@.len(),
    {
        self.select_indices(ItemSelector::Trait, Scope::All)
    }

    /// The positions of the root-module traits.
    pub fn traits(&self) -> (r: Vec<usize>)
        ensures
            r@.map_values(|u: usize| u as int) == spec_selected_indices(*self, self.items@, ItemSelector::Trait, Scope::Root),
            forall|k: int| 0 <= k < r@.len() ==> #[trigger] r@[k] < self.items@.len(),
    {
        self.select_indices(ItemSelector::Trait, Scope::Root)
    }

    /// The positions of all constants.
    pub fn all_constants(&self) -> (r: Vec<usize>)
        ensures
            r@.map_values(|u: usize| u as int) == spec_selected_indices(*self, self.items@, ItemSelector::Constant, Scope::All),
            forall|k: int| 0 <= k < r@.len() ==> #[trigger] r@[k] < self.items@.len(),
    {
        self.select_indices(ItemSelector::Constant, Scope::All)
    }

    /// The positions of the root-module constants.
    pub fn constants(&self) -> (r: Vec<usize>)
        ensures
            r@.map_values(|u: usize| u as int) == spec_selected_indices(*self, self.items@, ItemSelector::Constant, Scope::Root),
            forall|k: int| 0 <= k < r@.len() ==> #[trigger] r@[k] < self.items@.len(),
    {
        self.select_indices(ItemSelector::Constant, Scope::Root)
    }

    /// The positions of all impl blocks.
    pub fn all_impls(&self) -> (r: Vec<usize>)
        ensures
            r@.map_values(|u: usize| u as int) == spec_selected_indices(*self, self.items@, ItemSelector::Impl, Scope::All),
            forall|k: int| 0 <= k < r@.len() ==> #[trigger] r@[k] < self.items@.len(),
    {
        self.select_indices(ItemSelector::Impl, Scope::All)
    }

    /// The positions of the root-module impl blocks.
    pub fn impls(&self) -> (r: Vec<usize>)
        ensures
            r@.map_values(|u: usize| u as int) == spec_selected_indices(*self, self.items@, ItemSelector::Impl, Scope::Root),
            forall|k: int| 0 <= k < r@.len() ==> #[trigger] r@[k] < self.items@.len(),
    {
        self.select_indices(ItemSelector::Impl, Scope::Root)
    }

    /// The positions of all unions.
    pub fn all_unions(&self) -> (r: Vec<usize>)
        ensures
            r@.map_values(|u: usize| u as int) == spec_selected_indices(*self, self.items@, ItemSelector::Union, Scope::All),
            forall|k: int| 0 <= k < r@.len() ==> #[trigger] r@[k] < self.items@.len(),
    {
        self.select_indices(ItemSelector::Union, Scope::All)
    }

    /// The positions of all statics.
    pub fn all_statics(&self) -> (r: Vec<usize>)
        ensures
            r@.map_values(|u: usize| u as int) == spec_selected_indices(
                *self,
                self.items@,
                ItemSelector::Static,
                Scope::All,
            ),
            forall|k: int| 0 <= k < r@.len() ==> #[trigger] r@[k] < self.items@.len(),
    {
        self.select_indices(ItemSelector::Static, Scope::All)
    }

    /// The positions of root-module statics.
    pub fn statics(&self) -> (r: Vec<usize>)
        ensures
            r@.map_values(|u: usize| u as int) == spec_selected_indices(
                *self,
                self.items@,
                ItemSelector::Static,
                Scope::Root,
            ),
            forall|k: int| 0 <= k < r@.len() ==> #[trigger] r@[k] < self.items@.len(),
    {
        self.select_indices(ItemSelector::Static, Scope::Root)
    }

    /// The positions of all type aliases.
    pub fn all_type_aliases(&self) -> (r: Vec<usize>)
        ensures
            r@.map_values(|u: usize| u as int) == spec_selected_indices(
                *self,
                self.items@,
                ItemSelector::TypeAlias,
                Scope::All,
            ),
            forall|k: int| 0 <= k < r@.len() ==> #[trigger] r@[k] < self.items@.len(),
    {
        self.select_indices(ItemSelector::TypeAlias, Scope::All)
    }

    /// The positions of root-module type aliases.
    pub fn type_aliases(&self) -> (r: Vec<usize>)
        ensures
            r@.map_values(|u: usize| u as int) == spec_selected_indices(
                *self,
                self.items@,
                ItemSelector::TypeAlias,
                Scope::Root,
            ),
            forall|k: int| 0 <= k < r@.len() ==> #[trigger] r@[k] < self.items@.len(),
    {
        self.select_indices(ItemSelector::TypeAlias, Scope::Root)
    }

    /// The positions of all trait aliases.
    pub fn all_trait_aliases(&self) -> (r: Vec<usize>)
        ensures
            r@.map_values(|u: usize| u as int) == spec_selected_indices(
                *self,
                self.items@,
                ItemSelector::TraitAlias,
                Scope::All,
            ),
            forall|k: int| 0 <= k < r@.len() ==> #[trigger] r@[k] < self.items@.len(),
    {
        self.select_indices(ItemSelector::TraitAlias, Scope::All)
    }

    /// The positions of root-module trait aliases.
    pub fn trait_aliases(&self) -> (r: Vec<usize>)
        ensures
            r@.map_values(|u: usize| u as int) == spec_selected_indices(
                *self,
                self.items@,
                ItemSelector::TraitAlias,
                Scope::Root,
            ),
            forall|k: int| 0 <= k < r@.len() ==> #[trigger] r@[k] < self.items@.len(),
    {
        self.select_indices(ItemSelector::TraitAlias, Scope::Root)
    }

    /// The positions of all macros.
    pub fn all_macros(&self) -> (r: Vec<usize>)
        ensures
            r@.map_values(|u: usize| u as int) == spec_selected_indices(
                *self,
                self.items@,
                ItemSelector::Macro,
                Scope::All,
            ),
            forall|k: int| 0 <= k < r@.len() ==> #[trigger] r@[k] < self.items@.len(),
    {
        self.select_indices(ItemSelector::Macro, Scope::All)
    }

    /// The positions of root-module macros.
    pub fn macros(&self) -> (r: Vec<usize>)
        ensures
            r@.map_values(|u: usize| u as int) == spec_selected_indices(
                *self,
                self.items@,
                ItemSelector::Macro,
                Scope::Root,
            ),
            forall|k: int| 0 <= k < r@.len() ==> #[trigger] r@[k] < self.items@.len(),
    {
        self.select_indices(ItemSelector::Macro, Scope::Root)
    }

    /// The positions of all use declarations.
    pub fn all_uses(&self) -> (r: Vec<usize>)
        ensures
            r@.map_values(|u: usize| u as int) == spec_selected_indices(
                *self,
                self.items@,
                ItemSelector::Use,
                Scope::All,
            ),
            forall|k: int| 0 <= k < r@.len() ==> #[trigger] r@[k] < self.items@.len(),
    {
        self.select_indices(ItemSelector::Use, Scope::All)
    }

    /// The positions of root-module use declarations.
    pub fn uses(&self) -> (r: Vec<usize>)
        ensures
            r@.map_values(|u: usize| u as int) == spec_selected_indices(
                *self,
                self.items@,
                ItemSelector::Use,
                Scope::Root,
            ),
            forall|k: int| 0 <= k < r@.len() ==> #[trigger] r@[k] < self.items@.len(),
    {
        self.select_indices(ItemSelector::Use, Scope::Root)
    }

    /// The positions of the root-module unions.
    pub fn unions(&self) -> (r: Vec<usize>)
        ensures
            r@.map_values(|u: usize| u as int) == spec_selected_indices(*self, self.items@, ItemSelector::Union, Scope::Root),
            forall|k: int| 0 <= k < r@.len() ==> #[trigger] r@[k] < self.items@.len(),
    {
        self.select_indices(ItemSelector::Union, Scope::Root)
    }

    /// The field items of the struct at position `index`: `Ok(None)` for a
    /// unit or tuple struct, otherwise the position of each field, in field
    /// order. A field identifier that does not resolve to a struct-field
    /// item, or an `index` that does not hold a struct, surfaces as
    /// [`GraphError::UnknownReference`].
    pub fn struct_fields(&self, index: usize) -> (r: Result<Option<Vec<usize>>, GraphError>)
        requires
            index < self.items@.len(),
        ensures
            (match self.items@[index as int].inner {
                ItemKind::Struct { fields } => match fields {
                    None => r matches Ok(o) && o is None,
                    Some(ids) => (match r {
                        Ok(o) => o matches Some(v) && v@.len() == ids@.len() && (forall|k: int|
                            0 <= k < ids@.len() ==> spec_find_index(self.items@, ids@[k]) == Some(
                                (#[trigger] v@[k]) as int,
                            ) && self.items@[v@[k] as int].inner is StructField),
                        Err(e) => e == GraphError::UnknownReference && !(forall|k: int|
                            0 <= k < ids@.len() ==> #[trigger] spec_field_ref_ok(
                                self.items@,
                                ids@[k],
                            )),
                    }),
                },
                _ => r matches Err(e) && e == GraphError::UnknownReference,
            }),
    {
        match &self.items[index].inner {
            ItemKind::Struct { fields } => match fields {
                None => Ok(None),
                Some(ids) => match self.resolve_fields(ids) {
                    Ok(v) => Ok(Some(v)),
                    Err(e) => Err(e),
                },
            },
            _ => Err(GraphError::UnknownReference),
        }
    }

    /// The field items of the union at position `index`, in field order,
    /// resolved as in [`Crate::struct_fields`].
    pub fn union_fields(&self, index: usize) -> (r: Result<Vec<usize>, GraphError>)
        requires
            index < self.items@.len(),
        ensures
            (match self.items@[index as int].inner {
                ItemKind::Union { fields } => (match r {
                    Ok(v) => v@.len() == fields@.len() && (forall|k: int|
                        0 <= k < fields@.len() ==> spec_find_index(self.items@, fields@[k])
                            == Some((#[trigger] v@[k]) as int) && self.items@[v@[k] as int].inner
                            is StructField),
                    Err(e) => e == GraphError::UnknownReference && !(forall|k: int|
                        0 <= k < fields@.len() ==> #[trigger] spec_field_ref_ok(
                            self.items@,
                            fields@[k],
                        )),
                }),
                _ => r matches Err(e) && e == GraphError::UnknownReference,
            }),
    {
        match &self.items[index].inner {
            ItemKind::Union { fields } => self.resolve_fields(fields),
            _ => Err(GraphError::UnknownReference),
        }
    }

    /// Resolves each field identifier to the position of its struct-field
    /// item.
    fn resolve_fields(&self, ids: &Vec<u64>) -> (r: Result<Vec<usize>, GraphError>)
        ensures
            (match r {
                Ok(v) => v@.len() == ids@.len() && (forall|k: int|
                    0 <= k < ids@.len() ==> spec_find_index(self.items@, ids@[k]) == Some(
                        (#[trigger] v@[k]) as int,
                    ) && self.items@[v@[k] as int].inner is StructField),
                Err(e) => e == GraphError::UnknownReference && !(forall|k: int|
                    0 <= k < ids@.len() ==> #[trigger] spec_field_ref_ok(self.items@, ids@[k])),
            }),
    {
        let mut v: Vec<usize> = Vec::new();
        let mut j: usize = 0;
        while j < ids.len()
            invariant
                j <= ids@.len(),
                v@.len() == j,
                forall|k: int|
                    0 <= k < j ==> spec_find_index(self.items@, ids@[k]) == Some(
                        (#[trigger] v@[k]) as int,
                    ) && self.items@[v@[k] as int].inner is StructField,
            decreases ids@.len() - j,
        {
            match self.find_index(ids[j]) {
                Some(i) => match &self.items[i].inner {
                    ItemKind::StructField { .. } => {
                        v.push(i);
                    },
                    _ => {
                        proof {
                            assert(!spec_field_ref_ok(self.items@, ids@[j as int]));
                        }
                        return Err(GraphError::UnknownReference);
                    },
                },
                None => {
                    proof {
                        assert(!spec_field_ref_ok(self.items@, ids@[j as int]));
                    }
                    return Err(GraphError::UnknownReference);
                },
            }
            j = j + 1;
        }
        Ok(v)
    }

    /// The variant items of the enum at position `index`, in declaration
    /// order. A variant identifier that does not resolve to a variant item,
    /// or an `index` that does not hold an enum, surfaces as
    /// [`GraphError::UnknownReference`].
    #[verifier::loop_isolation(false)]
    pub fn enum_variants(&self, index: usize) -> (r: Result<Vec<usize>, GraphError>)
        requires
            index < self.items@.len(),
        ensures
            (match self.items@[index as int].inner {
                ItemKind::Enum { variants } => (match r {
                    Ok(v) => v@.len() == variants@.len() && (forall|k: int|
                        0 <= k < variants@.len() ==> spec_find_index(self.items@, variants@[k])
                            == Some((#[trigger] v@[k]) as int) && self.items@[v@[k] as int].inner
                            is Variant),
                    Err(e) => e == GraphError::UnknownReference && !(forall|k: int|
                        0 <= k < variants@.len() ==> #[trigger] spec_variant_ref_ok(
                            self.items@,
                            variants@[k],
                        )),
                }),
                _ => r matches Err(e) && e == GraphError::UnknownReference,
            }),
    {
        match &self.items[index].inner {
            ItemKind::Enum { variants } => {
                let mut v: Vec<usize> = Vec::new();
                let mut j: usize = 0;
                while j < variants.len()
                    invariant
                        j <= variants@.len(),
                        v@.len() == j,
                        forall|k: int|
                            0 <= k < j ==> spec_find_index(self.items@, variants@[k]) == Some(
                                (#[trigger] v@[k]) as int,
                            ) && self.items@[v@[k] as int].inner is Variant,
                    decreases variants@.len() - j,
                {
                    match self.find_index(variants[j]) {
                        Some(i) => match &self.items[i].inner {
                            ItemKind::Variant { .. } => {
                                v.push(i);
                            },
                            _ => {
                                proof {
                                    assert(!spec_variant_ref_ok(
                                        self.items@,
                                        variants@[j as int],
                                    ));
                                }
                                return Err(GraphError::UnknownReference);
                            },
                        },
                        None => {
                            proof {
                                assert(!spec_variant_ref_ok(self.items@, variants@[j as int]));
                            }
                            return Err(GraphError::UnknownReference);
                        },
                    }
                    j = j + 1;
                }
                Ok(v)
            },
            _ => Err(GraphError::UnknownReference),
        }
    }
}

/// Which impl blocks of a type a lookup selects.
#[derive(PartialEq, Eq, Structural, Clone, Copy, Debug)]
pub enum ImplFilter {
    /// Every impl block for the type.
    Any,
    /// Trait impls only; auto and blanket impls included.
    TraitImpls,
    /// Blanket trait impls only.
    BlanketImpls,
    /// Trait impls that are not blanket impls.
    NonBlanketImpls,
    /// Impl blocks that are not trait impls.
    Inherent,
}

/// Whether an item is an impl block for the type carrying `id` that the
/// filter selects.
pub open spec fn spec_impl_selected(it: Item, id: u64, filter: ImplFilter) -> bool {
    it.inner matches ItemKind::Impl { trait_path, for_id, blanket, .. } && for_id == Some(id) && (
    match filter {
        ImplFilter::Any => true,
        ImplFilter::TraitImpls => trait_path is Some,
        ImplFilter::BlanketImpls => trait_path is Some && blanket,
        ImplFilter::NonBlanketImpls => trait_path is Some && !blanket,
        ImplFilter::Inherent => trait_path is None,
    })
}

/// The positions in `items` of the impl blocks the filter selects for the
/// type carrying `id`, in order.
pub open spec fn spec_impl_indices(items: Seq<Item>, id: u64, filter: ImplFilter) -> Seq<int>
    decreases items.len(),
{
    if items.len() == 0 {
        Seq::empty()
    } else {
        let rest = spec_impl_indices(items.drop_last(), id, filter);
        if spec_impl_selected(items.last(), id, filter) {
            rest.push(items.len() - 1)
        } else {
            rest
        }
    }
}

/// The identifiers of the items a container (module, trait or impl block)
/// directly holds.
pub open spec fn spec_contained_ids(it: Item) -> Option<Seq<u64>> {
    match it.inner {
        ItemKind::Module { items } => Some(items@),
        ItemKind::Trait { items } => Some(items@),
        ItemKind::Impl { items, .. } => Some(items@),
        _ => None,
    }
}

impl Crate {
    /// The positions of the impl blocks the filter selects for the type
    /// carrying `id`, in graph order.
    pub fn impls_of(&self, id: u64, filter: ImplFilter) -> (r: Vec<usize>)
        ensures
            r@.map_values(|u: usize| u as int) == spec_impl_indices(self.items@, id, filter),
            forall|k: int| 0 <= k < r@.len() ==> #[trigger] r@[k] < self.items@.len(),
    {
        let mut r: Vec<usize> = Vec::new();
        let mut j: usize = 0;
        proof {
            assert(self.items@.take(0) =~= Seq::<Item>::empty());
            assert(r@.map_values(|u: usize| u as int) =~= Seq::<int>::empty());
        }
        while j < self.items.len()
            invariant
                j <= self.items@.len(),
                r@.map_values(|u: usize| u as int) == spec_impl_indices(
                    self.items@.take(j as int),
                    id,
                    filter,
                ),
                forall|k: int| 0 <= k < r@.len() ==> #[trigger] r@[k] < self.items@.len(),
            decreases self.items@.len() - j,
        {
            let selected = match &self.items[j].inner {
                ItemKind::Impl { trait_path, for_id, blanket, .. } => match for_id {
                    Some(t) => {
                        if *t == id {
                            match filter {
                                ImplFilter::Any => true,
                                ImplFilter::TraitImpls => trait_path.is_some(),
                                ImplFilter::BlanketImpls => trait_path.is_some() && *blanket,
                                ImplFilter::NonBlanketImpls => trait_path.is_some() && !*blanket,
                                ImplFilter::Inherent => trait_path.is_none(),
                            }
                        } else {
                            false
                        }
                    },
                    None => false,
                },
                _ => false,
            };
            let ghost old_r = r@;
            if selected {
                r.push(j);
                proof {
                    assert(r@.map_values(|u: usize| u as int) =~= old_r.map_values(
                        |u: usize| u as int,
                    ).push(j as int));
                }
            }
            proof {
                assert(spec_impl_selected(self.items@[j as int], id, filter) == selected);
                assert(self.items@.take(j as int + 1).drop_last() =~= self.items@.take(j as int));
                assert(self.items@.take(j as int + 1).last() == self.items@[j as int]);
            }
            j = j + 1;
        }
        proof {
            assert(self.items@.take(self.items@.len() as int) =~= self.items@);
        }
        r
    }

    /// The positions of the items the container at `index` (a module, trait
    /// or impl block) directly holds, in declaration order. An identifier
    /// that resolves to no item, or an `index` that holds no container,
    /// surfaces as [`GraphError::UnknownReference`].
    pub fn contained_items(&self, index: usize) -> (r: Result<Vec<usize>, GraphError>)
        requires
            index < self.items@.len(),
        ensures
            (match spec_contained_ids(self.items@[index as int]) {
                Some(ids) => (match r {
                    Ok(v) => v@.len() == ids.len() && (forall|k: int|
                        0 <= k < ids.len() ==> spec_find_index(self.items@, ids[k]) == Some(
                            (#[trigger] v@[k]) as int,
                        )),
                    Err(e) => e == GraphError::UnknownReference && !(forall|k: int|
                        0 <= k < ids.len() ==> #[trigger] spec_find_index(self.items@, ids[k])
                            is Some),
                }),
                None => r matches Err(e) && e == GraphError::UnknownReference,
            }),
    {
        let ids: &Vec<u64> = match &self.items[index].inner {
            ItemKind::Module { items } => items,
            ItemKind::Trait { items } => items,
            ItemKind::Impl { items, .. } => items,
            _ => {
                return Err(GraphError::UnknownReference);
            },
        };
        let mut v: Vec<usize> = Vec::new();
        let mut j: usize = 0;
        while j < ids.len()
            invariant
                j <= ids@.len(),
                v@.len() == j,
                ids@ == spec_contained_ids(self.items@[index as int])->Some_0,
                spec_contained_ids(self.items@[index as int]) is Some,
                forall|k: int|
                    0 <= k < j ==> spec_find_index(self.items@, ids@[k]) == Some(
                        (#[trigger] v@[k]) as int,
                    ),
            decreases ids@.len() - j,
        {
            match self.find_index(ids[j]) {
                Some(i) => {
                    v.push(i);
                },
                None => {
                    return Err(GraphError::UnknownReference);
                },
            }
            j = j + 1;
        }
        Ok(v)
    }
}

/// Whether an item is a container of the selected kind directly holding the
/// item carrying `id`.
pub open spec fn spec_holds_in(c: Crate, tag: ItemSelector, container: Item, id: u64) -> bool {
    spec_matches_selector(c, tag, container) && (spec_contained_ids(container) matches Some(ids)
        && ids.contains(id))
}

/// The position of the first container of the selected kind directly holding
/// the item carrying `id`.
pub open spec fn spec_container_index(
    c: Crate,
    items: Seq<Item>,
    tag: ItemSelector,
    id: u64,
) -> Option<int>
    decreases items.len(),
{
    if items.len() == 0 {
        None
    } else if spec_holds_in(c, tag, items[0], id) {
        Some(0int)
    } else {
        match spec_container_index(c, items.drop_first(), tag, id) {
            Some(i) => Some(i + 1),
            None => None,
        }
    }
}

/// The first position holding a container is what the search finds.
proof fn lemma_container_index_at(c: Crate, items: Seq<Item>, tag: ItemSelector, id: u64, j: int)
    requires
        0 <= j < items.len(),
        spec_holds_in(c, tag, items[j], id),
        forall|k: int| 0 <= k < j ==> !spec_holds_in(c, tag, #[trigger] items[k], id),
    ensures
        spec_container_index(c, items, tag, id) == Some(j),
    decreases j,
{
    if j > 0 {
        let rest = items.drop_first();
        assert(forall|k: int| 0 <= k < j - 1 ==> !spec_holds_in(c, tag, #[trigger] rest[k], id));
        assert(rest[j - 1] == items[j]);
        lemma_container_index_at(c, rest, tag, id, j - 1);
    }
}

/// With no container holding the item, the search finds nothing.
proof fn lemma_container_index_none(c: Crate, items: Seq<Item>, tag: ItemSelector, id: u64)
    requires
        forall|k: int| 0 <= k < items.len() ==> !spec_holds_in(c, tag, #[trigger] items[k], id),
    ensures
        spec_container_index(c, items, tag, id) is None,
    decreases items.len(),
{
    if items.len() > 0 {
        let rest = items.drop_first();
        assert(forall|k: int| 0 <= k < rest.len() ==> !spec_holds_in(c, tag, #[trigger] rest[k], id));
        lemma_container_index_none(c, rest, tag, id);
    }
}

impl Crate {
    /// The position of the first container of the selected kind directly
    /// holding the item carrying `id`.
    pub fn container_index(&self, tag: ItemSelector, id: u64) -> (r: Option<usize>)
        ensures
            (match (r, spec_container_index(*self, self.items@, tag, id)) {
                (Some(a), Some(b)) => a as int == b && a < self.items@.len() && spec_holds_in(
                    *self,
                    tag,
                    self.items@[b],
                    id,
                ),
                (None, None) => true,
                _ => false,
            }),
    {
        let mut j: usize = 0;
        while j < self.items.len()
            invariant
                j <= self.items@.len(),
                forall|k: int|
                    0 <= k < j ==> !spec_holds_in(*self, tag, #[trigger] self.items@[k], id),
            decreases self.items@.len() - j,
        {
            let sel = self.matches_selector(tag, j);
            let holds = if sel {
                match &self.items[j].inner {
                    ItemKind::Module { items } => contains_id(items, id),
                    ItemKind::Trait { items } => contains_id(items, id),
                    ItemKind::Impl { items, .. } => contains_id(items, id),
                    _ => false,
                }
            } else {
                false
            };
            if holds {
                proof {
                    lemma_container_index_at(*self, self.items@, tag, id, j as int);
                }
                return Some(j);
            }
            proof {
                assert(!spec_holds_in(*self, tag, self.items@[j as int], id));
            }
            j = j + 1;
        }
        proof {
            lemma_container_index_none(*self, self.items@, tag, id);
        }
        None
    }

    /// The position of the first module directly holding the item carrying
    /// `id`: the module an item belongs to.
    pub fn module_of(&self, id: u64) -> (r: Option<usize>)
        ensures
            (match (r, spec_container_index(*self, self.items@, ItemSelector::Module, id)) {
                (Some(a), Some(b)) => a as int == b && a < self.items@.len() && spec_holds_in(
                    *self,
                    ItemSelector::Module,
                    self.items@[b],
                    id,
                ),
                (None, None) => true,
                _ => false,
            }),
    {
        self.container_index(ItemSelector::Module, id)
    }

    /// The position of the first impl block holding the item carrying `id`
    /// as an associated item.
    pub fn associated_impl(&self, id: u64) -> (r: Option<usize>)
        ensures
            (match (r, spec_container_index(*self, self.items@, ItemSelector::Impl, id)) {
                (Some(a), Some(b)) => a as int == b && a < self.items@.len() && spec_holds_in(
                    *self,
                    ItemSelector::Impl,
                    self.items@[b],
                    id,
                ),
                (None, None) => true,
                _ => false,
            }),
    {
        self.container_index(ItemSelector::Impl, id)
    }
}

/// Whether a field identifier resolves to a struct-field item.
pub open spec fn spec_field_ref_ok(items: Seq<Item>, id: u64) -> bool {
    match spec_find_index(items, id) {
        Some(i) => items[i].inner is StructField,
        None => false,
    }
}

/// Whether a variant identifier resolves to a variant item.
pub open spec fn spec_variant_ref_ok(items: Seq<Item>, id: u64) -> bool {
    match spec_find_index(items, id) {
        Some(i) => items[i].inner is Variant,
        None => false,
    }
}

} // verus!
