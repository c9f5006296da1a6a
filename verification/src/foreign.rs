//! Which declarations of the server's functions get a guarded wrapper.
//!
//! The bindings to the server declare each of its functions in a foreign
//! block of its own. A function of the server may raise an error, so Rust
//! code must not call it bare: in place of such a block stands a public
//! unsafe function of the same name and signature, which holds the block and
//! calls the declared function under `guard_pg`.
//!
//! This module decides what becomes of each item of the module of bindings.
//! The decision goes by the shape of a block alone, so it is made on plain
//! values, [`ForeignItem`] and [`ModuleItem`]; the syntax tree is read into
//! them item by item. Building the wrapper is left to the code that
//! produces the bindings.
use vstd::prelude::*;

verus! {

/// What stands in a foreign block, as far as the decision needs it.
#[derive(Clone, Copy, Debug, PartialEq, Eq, Structural)]
pub enum ForeignItem {
    /// The declaration of a function, variadic or not.
    Function { variadic: bool },
    /// Anything else: a static, a type, a macro call.
    Other,
}

/// An item of the module of bindings.
#[derive(Debug, PartialEq, Eq)]
pub enum ModuleItem {
    /// A foreign block with these items, in order.
    ForeignMod(Vec<ForeignItem>),
    /// Any other item.
    Other,
}

/// What becomes of an item of the module of bindings.
#[derive(Clone, Copy, Debug, PartialEq, Eq, Structural)]
pub enum Rewrite {
    /// The item stays as it is.
    Keep,
    /// The item is a foreign block that declares one function, which is not
    /// variadic: a guarded wrapper takes its place.
    Wrap,
    /// The item is a foreign block with several items and a function among
    /// them. Such a block cannot be rewritten, and must not be kept bare.
    Refuse,
}

/// Whether a function is declared among the items.
pub open spec fn declares_function(items: Seq<ForeignItem>) -> bool {
    exists|i: int| 0 <= i < items.len() && #[trigger] items[i] is Function
}

/// What becomes of a foreign block with these items.
///
/// A block of one function is wrapped, unless the function is variadic:
/// Rust cannot define a variadic function, so that block is kept. A block
/// that declares no function needs no guard and is kept. Any other block is
/// refused.
pub open spec fn spec_rewrite_block(items: Seq<ForeignItem>) -> Rewrite {
    if items.len() == 1 && items[0] is Function {
        if items[0]->variadic {
            Rewrite::Keep
        } else {
            Rewrite::Wrap
        }
    } else if declares_function(items) {
        Rewrite::Refuse
    } else {
        Rewrite::Keep
    }
}

/// Decides what becomes of a foreign block with these items.
pub fn rewrite_block(items: &Vec<ForeignItem>) -> (rewrite: Rewrite)
    ensures
        rewrite == spec_rewrite_block(items@),
{
    if items.len() == 1 {
        match items[0] {
            ForeignItem::Function { variadic } => {
                return if variadic {
                    Rewrite::Keep
                } else {
                    Rewrite::Wrap
                };
            },
            ForeignItem::Other => {},
        }
    }
    let mut i: usize = 0;
    while i < items.len()
        invariant
            i <= items.len(),
            !(items@.len() == 1 && items@[0] is Function),
            forall|j: int| 0 <= j < i ==> !(#[trigger] items@[j] is Function),
        decreases items.len() - i,
    {
        match items[i] {
            ForeignItem::Function { .. } => {
                assert(items@[i as int] is Function);
                return Rewrite::Refuse;
            },
            ForeignItem::Other => {},
        }
        i += 1;
    }
    Rewrite::Keep
}

/// What becomes of an item of the module of bindings: a foreign block goes
/// by its items, and every other item is kept.
pub open spec fn spec_rewrite(item: ModuleItem) -> Rewrite {
    match item {
        ModuleItem::ForeignMod(items) => spec_rewrite_block(items@),
        ModuleItem::Other => Rewrite::Keep,
    }
}

/// What becomes of the items of a module, item by item and in order.
pub open spec fn spec_rewrite_module(module: Seq<ModuleItem>) -> Seq<Rewrite> {
    Seq::new(module.len(), |i: int| spec_rewrite(module[i]))
}

/// Decides, item by item and in order, what becomes of these items of the
/// module of bindings.
pub fn rewrite_module(module: &Vec<ModuleItem>) -> (rewrites: Vec<Rewrite>)
    ensures
        rewrites@ == spec_rewrite_module(module@),
{
    let mut rewrites: Vec<Rewrite> = Vec::new();
    let mut i: usize = 0;
    while i < module.len()
        invariant
            i <= module.len(),
            rewrites@.len() == i,
            forall|j: int| 0 <= j < i ==> rewrites@[j] == spec_rewrite(module@[j]),
        decreases module.len() - i,
    {
        let rewrite = match &module[i] {
            ModuleItem::ForeignMod(items) => rewrite_block(items),
            ModuleItem::Other => Rewrite::Keep,
        };
        rewrites.push(rewrite);
        i += 1;
    }
    assert(rewrites@ =~= spec_rewrite_module(module@));
    rewrites
}

/// A foreign block of the syntax tree. What it holds is known here through
/// `foreign_mod_items` alone.
#[verifier::external_type_specification]
#[verifier::external_body]
pub struct ExItemForeignMod(syn::ItemForeignMod);

/// A module of the syntax tree. What it holds is known here through
/// `module_items` alone.
#[verifier::external_type_specification]
#[verifier::external_body]
pub struct ExItemMod(syn::ItemMod);

/// The items of a foreign block, in order: each `syn::ForeignItem::Fn` as a
/// function, variadic where its signature ends in `...`, and every other
/// item as `Other`.
pub uninterp spec fn foreign_mod_items(foreign: syn::ItemForeignMod) -> Seq<ForeignItem>;

/// The items of a module, in order: each `syn::Item::ForeignMod` as a block
/// with its items, and every other item as `Other`. A module without a body
/// has no items.
pub uninterp spec fn module_items(module: syn::ItemMod) -> Seq<ModuleItem>;

/// The length of `syn::ItemForeignMod::items`: the number of items that the
/// block holds.
#[verifier::external_body]
fn foreign_mod_len(foreign: &syn::ItemForeignMod) -> (len: usize)
    ensures
        len == foreign_mod_items(*foreign).len(),
{
    foreign.items.len()
}

/// Reads the `i`-th of `syn::ItemForeignMod::items`. The variant
/// `syn::ForeignItem::Fn` is a function, and it is variadic where
/// `sig.variadic` of its `syn::ForeignItemFn` is set.
#[verifier::external_body]
fn foreign_mod_item(foreign: &syn::ItemForeignMod, i: usize) -> (item: ForeignItem)
    requires
        i < foreign_mod_items(*foreign).len(),
    ensures
        item == foreign_mod_items(*foreign)[i as int],
{
    match &foreign.items[i] {
        syn::ForeignItem::Fn(function) => ForeignItem::Function {
            variadic: function.sig.variadic.is_some(),
        },
        _ => ForeignItem::Other,
    }
}

/// The length of the items in `syn::ItemMod::content`: the number of items
/// in the body of the module, none where the module has no body.
#[verifier::external_body]
fn module_len(module: &syn::ItemMod) -> (len: usize)
    ensures
        len == module_items(*module).len(),
{
    match &module.content {
        Some((_, items)) => items.len(),
        None => 0,
    }
}

/// Reads the `i`-th item in `syn::ItemMod::content`: the block where the
/// item is a `syn::Item::ForeignMod`, and `None` for every other item.
#[verifier::external_body]
fn module_foreign_mod(module: &syn::ItemMod, i: usize) -> (foreign: Option<&syn::ItemForeignMod>)
    requires
        i < module_items(*module).len(),
    ensures
        match foreign {
            Some(block) => module_items(*module)[i as int] matches ModuleItem::ForeignMod(items)
                && items@ == foreign_mod_items(*block),
            None => module_items(*module)[i as int] == ModuleItem::Other,
        },
{
    match &module.content {
        Some((_, items)) => match &items[i] {
            syn::Item::ForeignMod(foreign) => Some(foreign),
            _ => None,
        },
        None => None,
    }
}

/// Reads the items of a foreign block out of the syntax tree.
pub fn foreign_items(foreign: &syn::ItemForeignMod) -> (items: Vec<ForeignItem>)
    ensures
        items@ == foreign_mod_items(*foreign),
{
    let len = foreign_mod_len(foreign);
    let mut items: Vec<ForeignItem> = Vec::new();
    let mut i: usize = 0;
    while i < len
        invariant
            i <= len,
            len == foreign_mod_items(*foreign).len(),
            items@.len() == i,
            forall|j: int| 0 <= j < i ==> items@[j] == foreign_mod_items(*foreign)[j],
        decreases len - i,
    {
        items.push(foreign_mod_item(foreign, i));
        i += 1;
    }
    assert(items@ =~= foreign_mod_items(*foreign));
    items
}

/// Decides what becomes of a foreign block of the syntax tree.
pub fn wrap_function(foreign: &syn::ItemForeignMod) -> (rewrite: Rewrite)
    ensures
        rewrite == spec_rewrite_block(foreign_mod_items(*foreign)),
{
    let items = foreign_items(foreign);
    rewrite_block(&items)
}

/// Decides, item by item and in order, what becomes of the items of the
/// module of bindings.
pub fn pg_guard_function(module: &syn::ItemMod) -> (rewrites: Vec<Rewrite>)
    ensures
        rewrites@ == spec_rewrite_module(module_items(*module)),
{
    let len = module_len(module);
    let mut rewrites: Vec<Rewrite> = Vec::new();
    let mut i: usize = 0;
    while i < len
        invariant
            i <= len,
            len == module_items(*module).len(),
            rewrites@.len() == i,
            forall|j: int| 0 <= j < i ==> rewrites@[j] == spec_rewrite(module_items(*module)[j]),
        decreases len - i,
    {
        let rewrite = match module_foreign_mod(module, i) {
            Some(foreign) => wrap_function(foreign),
            None => Rewrite::Keep,
        };
        rewrites.push(rewrite);
        i += 1;
    }
    assert(rewrites@ =~= spec_rewrite_module(module_items(*module)));
    rewrites
}

/// Only a block of exactly one function is ever wrapped, and that function
/// is not variadic.
pub proof fn lemma_wrapped_block(items: Seq<ForeignItem>)
    requires
        spec_rewrite_block(items) == Rewrite::Wrap,
    ensures
        items == seq![ForeignItem::Function { variadic: false }],
{
    assert(items =~= seq![ForeignItem::Function { variadic: false }]);
}

/// Every block that is kept bare declares no function, or only a single
/// variadic one.
pub proof fn lemma_kept_block(items: Seq<ForeignItem>)
    requires
        spec_rewrite_block(items) == Rewrite::Keep,
    ensures
        !declares_function(items) || items == seq![ForeignItem::Function { variadic: true }],
{
    if declares_function(items) {
        assert(items =~= seq![ForeignItem::Function { variadic: true }]);
    }
}

} // verus!
