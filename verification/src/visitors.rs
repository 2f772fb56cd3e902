//! The three passes over a parsed file: the index labels, the counts by
//! kind, and the complete documentation.
//!
//! A declaration is included when its visibility marker is a plain `pub`.
//! Implementation blocks have no marker and are always included, macros
//! are included when they define a name, and the functions of an `extern`
//! block are included one by one. The contents of a module are visited
//! whatever the module's own marker is.

use vstd::prelude::*;
use vstd::string::*;
use crate::attributes::{docs_text, format_docs};
use crate::declarations::{
    abi_name,
    const_code,
    declaration_text,
    enum_code,
    extern_crate_code,
    fn_code,
    foreign_fn_code,
    format_abi_name,
    format_const_code,
    format_enum_code,
    format_extern_crate_code,
    format_fn_code,
    format_foreign_fn_code,
    format_impl_code,
    format_impl_title,
    format_impl_type,
    format_macro_code,
    format_mod_prefix,
    format_static_code,
    format_struct_code,
    format_trait_alias_code,
    format_trait_code,
    format_type_code,
    format_union_code,
    format_use_code,
    impl_code,
    impl_title,
    impl_type_text,
    is_public,
    macro_code,
    mod_prefix,
    static_code,
    struct_code,
    trait_alias_code,
    trait_code,
    type_code,
    union_code,
    use_code,
};
use crate::signature::{format_use_tree, use_tree_text};
use crate::syntax::{
    Abi,
    Attribute,
    ForeignItem,
    Item,
    ItemConst,
    ItemEnum,
    ItemExternCrate,
    ItemFn,
    ItemForeignMod,
    ItemImpl,
    ItemMacro,
    ItemMod,
    ItemStatic,
    ItemStruct,
    ItemTrait,
    ItemTraitAlias,
    ItemType,
    ItemUnion,
    ItemUse,
    SourceFile,
    Visibility,
};
use crate::text::views;
use crate::types::{format_segment_names, segment_names_text};

verus! {

/// `label` if the marker is `pub`, nothing otherwise.
pub open spec fn when_public(vis: &Visibility, label: Seq<char>) -> Seq<Seq<char>> {
    if vis.is_public() {
        seq![label]
    } else {
        Seq::empty()
    }
}

/// The index label of a named declaration: its keywords, then its name
/// after the path of the enclosing modules.
pub open spec fn index_label(keyword: Seq<char>, current_mod: Seq<String>, name: Seq<char>) -> Seq<
    char,
> {
    keyword + mod_prefix(current_mod) + name
}

/// The index label of an implementation block. The implemented trait is
/// named without its generic arguments.
pub open spec fn impl_label(node: &ItemImpl, current_mod: Seq<String>) -> Seq<char> {
    "impl "@ + (match &node.trait_path {
        Some(path) => segment_names_text(path@) + " for "@,
        None => ""@,
    }) + mod_prefix(current_mod) + impl_type_text(&node.self_ty)
}

/// The index label of a macro.
pub open spec fn macro_label(ident: Seq<char>, current_mod: Seq<String>) -> Seq<char> {
    mod_prefix(current_mod) + ident + "!"@
}

/// The index label of a foreign function.
pub open spec fn foreign_fn_label(abi: &Abi, current_mod: Seq<String>, name: Seq<char>) -> Seq<
    char,
> {
    "pub extern \""@ + abi_name(abi) + "\" fn "@ + mod_prefix(current_mod) + name
}

/// The index labels of the public functions of an `extern` block.
pub open spec fn foreign_labels(abi: &Abi, items: Seq<ForeignItem>, current_mod: Seq<String>) -> Seq<
    Seq<char>,
>
    decreases items.len(),
{
    if items.len() == 0 {
        Seq::empty()
    } else {
        foreign_labels(abi, items.drop_last(), current_mod) + (match &items.last() {
            ForeignItem::Fn { vis, sig, .. } => when_public(
                vis,
                foreign_fn_label(abi, current_mod, sig.ident@),
            ),
            ForeignItem::Other => Seq::empty(),
        })
    }
}

/// The index labels that one item contributes, inside the modules
/// `current_mod`. A module contributes its own label if it is public, then
/// the labels of its contents.
pub open spec fn item_labels(item: &Item, current_mod: Seq<String>) -> Seq<Seq<char>>
    decreases item,
{
    match item {
        Item::Fn(node) => when_public(
            &node.vis,
            index_label("pub fn "@, current_mod, node.sig.ident@),
        ),
        Item::Struct(node) => when_public(
            &node.vis,
            index_label("pub struct "@, current_mod, node.ident@),
        ),
        Item::Enum(node) => when_public(
            &node.vis,
            index_label("pub enum "@, current_mod, node.ident@),
        ),
        Item::Trait(node) => when_public(
            &node.vis,
            index_label("pub trait "@, current_mod, node.ident@),
        ),
        Item::Mod(node) => mod_labels(node, current_mod),
        Item::Const(node) => when_public(
            &node.vis,
            index_label("pub const "@, current_mod, node.ident@),
        ),
        Item::Static(node) => when_public(
            &node.vis,
            index_label("pub static "@, current_mod, node.ident@),
        ),
        Item::Type(node) => when_public(
            &node.vis,
            index_label("pub type "@, current_mod, node.ident@),
        ),
        Item::Impl(node) => seq![impl_label(node, current_mod)],
        Item::Use(node) => when_public(
            &node.vis,
            index_label("pub use "@, current_mod, use_tree_text(&node.tree)),
        ),
        Item::Macro(node) => match &node.ident {
            Some(ident) => seq![macro_label(ident@, current_mod)],
            None => Seq::empty(),
        },
        Item::ExternCrate(node) => when_public(
            &node.vis,
            index_label("pub extern crate "@, current_mod, node.ident@),
        ),
        Item::ForeignMod(node) => foreign_labels(&node.abi, node.items@, current_mod),
        Item::Union(node) => when_public(
            &node.vis,
            index_label("pub union "@, current_mod, node.ident@),
        ),
        Item::TraitAlias(node) => when_public(
            &node.vis,
            index_label("pub trait "@, current_mod, node.ident@),
        ),
        Item::Other => Seq::empty(),
    }
}

/// The index labels of a module: its own if it is public, then those of
/// its contents, which are inside it.
pub open spec fn mod_labels(node: &ItemMod, current_mod: Seq<String>) -> Seq<Seq<char>>
    decreases node,
{
    when_public(&node.vis, index_label("pub mod "@, current_mod, node.ident@)) + (match &node.content {
        Some(items) => items_labels(items@, current_mod.push(node.ident)),
        None => Seq::empty(),
    })
}

/// The index labels of `items`, in order.
pub open spec fn items_labels(items: Seq<Item>, current_mod: Seq<String>) -> Seq<Seq<char>>
    decreases items,
{
    if items.len() == 0 {
        Seq::empty()
    } else {
        items_labels(items.drop_last(), current_mod) + item_labels(&items.last(), current_mod)
    }
}

/// The visibility marker of a declaration that is included or left out
/// as a whole by its marker. The other items have none here: a module's
/// marker decides on its label only, an implementation block and a macro
/// have no marker, and an `extern` block has one on each of its functions.
pub open spec fn item_marker(item: &Item) -> Option<Visibility> {
    match item {
        Item::Fn(node) => Some(node.vis),
        Item::Struct(node) => Some(node.vis),
        Item::Enum(node) => Some(node.vis),
        Item::Trait(node) => Some(node.vis),
        Item::Const(node) => Some(node.vis),
        Item::Static(node) => Some(node.vis),
        Item::Type(node) => Some(node.vis),
        Item::Use(node) => Some(node.vis),
        Item::ExternCrate(node) => Some(node.vis),
        Item::Union(node) => Some(node.vis),
        Item::TraitAlias(node) => Some(node.vis),
        _ => None,
    }
}

/// Whether none of the functions of an `extern` block is public.
pub open spec fn no_public_function(items: Seq<ForeignItem>) -> bool {
    forall|i: int|
        0 <= i < items.len() ==> match #[trigger] items[i] {
            ForeignItem::Fn { vis, .. } => !vis.is_public(),
            ForeignItem::Other => true,
        }
}

/// Whether a declaration is included as a whole: one with a visibility
/// marker when the marker is `pub`, an implementation block always, a
/// macro when it defines a name. A module and an `extern` block are
/// looked into instead.
pub open spec fn item_included(item: &Item) -> bool {
    match item {
        Item::Impl(_) => true,
        Item::Macro(node) => node.ident is Some,
        _ => match item_marker(item) {
            Some(vis) => vis.is_public(),
            None => false,
        },
    }
}

/// A declaration that is neither a module nor an `extern` block is in
/// both documents if it is included, with one index label, one count and
/// a section of the complete document, and in neither if it is not.
pub proof fn lemma_included_items_are_in_both_documents(item: &Item, current_mod: Seq<String>)
    requires
        !(item is Mod),
        !(item is ForeignMod),
    ensures
        item_included(item) ==> {
            &&& item_labels(item, current_mod).len() == 1
            &&& item_kinds(item).len() == 1
            &&& item_docs(item, current_mod).len() > 0
        },
        !item_included(item) ==> {
            &&& item_labels(item, current_mod).len() == 0
            &&& item_kinds(item).len() == 0
            &&& item_docs(item, current_mod).len() == 0
        },
{
    match item {
        Item::Fn(node) => lemma_declaration_is_not_empty(
            mod_prefix(current_mod) + node.sig.ident@,
            fn_code(node),
            node.attrs@,
        ),
        Item::Struct(node) => lemma_declaration_is_not_empty(
            mod_prefix(current_mod) + node.ident@,
            struct_code(node),
            node.attrs@,
        ),
        Item::Enum(node) => lemma_declaration_is_not_empty(
            mod_prefix(current_mod) + node.ident@,
            enum_code(node),
            node.attrs@,
        ),
        Item::Trait(node) => lemma_declaration_is_not_empty(
            mod_prefix(current_mod) + node.ident@,
            trait_code(node),
            node.attrs@,
        ),
        Item::Const(node) => lemma_declaration_is_not_empty(
            mod_prefix(current_mod) + node.ident@,
            const_code(node),
            node.attrs@,
        ),
        Item::Static(node) => lemma_declaration_is_not_empty(
            mod_prefix(current_mod) + node.ident@,
            static_code(node),
            node.attrs@,
        ),
        Item::Type(node) => lemma_declaration_is_not_empty(
            mod_prefix(current_mod) + node.ident@,
            type_code(node),
            node.attrs@,
        ),
        Item::Impl(node) => lemma_declaration_is_not_empty(
            impl_title(node, current_mod),
            impl_code(node),
            node.attrs@,
        ),
        Item::Use(node) => lemma_declaration_is_not_empty(
            use_tree_text(&node.tree),
            use_code(node),
            node.attrs@,
        ),
        Item::Macro(node) => match &node.ident {
            Some(ident) => lemma_declaration_is_not_empty(
                ident@ + "!"@,
                macro_code(ident@),
                node.attrs@,
            ),
            None => {},
        },
        Item::ExternCrate(node) => lemma_declaration_is_not_empty(
            "extern crate "@ + node.ident@,
            extern_crate_code(node),
            node.attrs@,
        ),
        Item::Union(node) => lemma_declaration_is_not_empty(
            node.ident@,
            union_code(node),
            node.attrs@,
        ),
        Item::TraitAlias(node) => lemma_declaration_is_not_empty(
            node.ident@,
            trait_alias_code(node),
            node.attrs@,
        ),
        _ => {},
    }
}

/// A declaration's section in the complete document is never empty.
pub proof fn lemma_declaration_is_not_empty(
    title: Seq<char>,
    code: Seq<char>,
    attrs: Seq<Attribute>,
)
    ensures
        declaration_text(title, code, attrs).len() > 0,
{
    reveal_strlit("### ");
}

/// A declaration whose visibility marker is not `pub` contributes
/// nothing: no index label, no count and no text in the complete document.
pub proof fn lemma_hidden_item_is_excluded(item: &Item, current_mod: Seq<String>)
    requires
        item_marker(item) matches Some(vis) && !vis.is_public(),
    ensures
        item_labels(item, current_mod) == Seq::<Seq<char>>::empty(),
        item_kinds(item) == Seq::<Seq<char>>::empty(),
        item_docs(item, current_mod) == Seq::<char>::empty(),
{
}

/// An `extern` block without a public function contributes nothing.
pub proof fn lemma_hidden_foreign_functions_are_excluded(
    abi: &Abi,
    items: Seq<ForeignItem>,
    current_mod: Seq<String>,
)
    requires
        no_public_function(items),
    ensures
        foreign_labels(abi, items, current_mod) == Seq::<Seq<char>>::empty(),
        foreign_kinds(items) == Seq::<Seq<char>>::empty(),
        foreign_docs(abi, items) == Seq::<char>::empty(),
    decreases items.len(),
{
    if items.len() > 0 {
        let before = items.drop_last();
        assert forall|i: int| 0 <= i < before.len() implies match #[trigger] before[i] {
            ForeignItem::Fn { vis, .. } => !vis.is_public(),
            ForeignItem::Other => true,
        } by {
        }
        lemma_hidden_foreign_functions_are_excluded(abi, before, current_mod);
        let last = items.last();
    }
}

/// A module that is not public has no label of its own, and its contents
/// are visited all the same: it contributes what they contribute inside it.
pub proof fn lemma_hidden_module_shows_its_contents(
    node: ItemMod,
    contents: Vec<Item>,
    current_mod: Seq<String>,
)
    requires
        !node.vis.is_public(),
        node.content == Some(contents),
    ensures
        item_labels(&Item::Mod(node), current_mod) == items_labels(
            contents@,
            current_mod.push(node.ident),
        ),
        item_kinds(&Item::Mod(node)) == items_kinds(contents@),
        item_docs(&Item::Mod(node), current_mod) == items_docs(contents@, current_mod),
{
}

/// Rendering is a function of the declaration and of the enclosing
/// modules: whatever two visits of one item add to the index, or to the
/// complete document, is the same text, byte for byte.
pub proof fn lemma_item_rendering_is_deterministic(
    item: &Item,
    current_mod: Seq<String>,
    first_labels: Seq<Seq<char>>,
    second_labels: Seq<Seq<char>>,
    first_docs: Seq<char>,
    second_docs: Seq<char>,
)
    requires
        first_labels == item_labels(item, current_mod),
        second_labels == item_labels(item, current_mod),
        first_docs == item_docs(item, current_mod),
        second_docs == item_docs(item, current_mod),
    ensures
        first_labels == second_labels,
        first_docs == second_docs,
{
}

/// Collects the index labels of the declarations it visits.
///
/// Every method writes to the list that the visitor was made with and
/// leaves the visitor pointing at it: that is what its clause on
/// `final(self.items)` says.
pub struct TocVisitor<'a> {
    /// The labels collected so far.
    pub items: &'a mut Vec<String>,
    /// The modules that enclose the item being visited, outermost first.
    pub current_mod: Vec<String>,
}

impl<'a> TocVisitor<'a> {
    /// Whether `after` is `before` with `labels` added and the same modules.
    pub open spec fn extended(before: &Self, after: &Self, labels: Seq<Seq<char>>) -> bool {
        &&& views(after.items@) == views(before.items@) + labels
        &&& after.current_mod@ == before.current_mod@
    }

    /// Adds the label made of `keyword`, the enclosing modules and `name`.
    fn push_label(&mut self, keyword: &str, name: &str)
        ensures
            *final(final(self).items) == *final(old(self).items),
            Self::extended(
                old(self),
                final(self),
                seq![index_label(keyword@, old(self).current_mod@, name@)],
            ),
    {
        let ghost before = views(self.items@);
        let mut label = String::from_str(keyword);
        let prefix = format_mod_prefix(&self.current_mod);
        label.append(prefix.as_str());
        label.append(name);
        self.items.push(label);
        assert(views(self.items@) =~= before + seq![label@]);
    }

    /// Adds the label made of `keyword`, the enclosing modules and `name`, if the marker is `pub`.
    fn push_public(&mut self, vis: &Visibility, keyword: &str, name: &str)
        ensures
            *final(final(self).items) == *final(old(self).items),
            Self::extended(
                old(self),
                final(self),
                when_public(vis, index_label(keyword@, old(self).current_mod@, name@)),
            ),
    {
        if is_public(vis) {
            self.push_label(keyword, name);
        }
    }

    /// Adds the label of a function, if it is public.
    pub fn visit_item_fn(&mut self, node: &ItemFn)
        ensures
            *final(final(self).items) == *final(old(self).items),
            Self::extended(
                old(self),
                final(self),
                when_public(
                    &node.vis,
                    index_label("pub fn "@, old(self).current_mod@, node.sig.ident@),
                ),
            ),
    {
        self.push_public(&node.vis, "pub fn ", node.sig.ident.as_str());
    }

    /// Adds the label of a struct, if it is public.
    pub fn visit_item_struct(&mut self, node: &ItemStruct)
        ensures
            *final(final(self).items) == *final(old(self).items),
            Self::extended(
                old(self),
                final(self),
                when_public(
                    &node.vis,
                    index_label("pub struct "@, old(self).current_mod@, node.ident@),
                ),
            ),
    {
        self.push_public(&node.vis, "pub struct ", node.ident.as_str());
    }

    /// Adds the label of an enum, if it is public.
    pub fn visit_item_enum(&mut self, node: &ItemEnum)
        ensures
            *final(final(self).items) == *final(old(self).items),
            Self::extended(
                old(self),
                final(self),
                when_public(
                    &node.vis,
                    index_label("pub enum "@, old(self).current_mod@, node.ident@),
                ),
            ),
    {
        self.push_public(&node.vis, "pub enum ", node.ident.as_str());
    }

    /// Adds the label of a trait, if it is public.
    pub fn visit_item_trait(&mut self, node: &ItemTrait)
        ensures
            *final(final(self).items) == *final(old(self).items),
            Self::extended(
                old(self),
                final(self),
                when_public(
                    &node.vis,
                    index_label("pub trait "@, old(self).current_mod@, node.ident@),
                ),
            ),
    {
        self.push_public(&node.vis, "pub trait ", node.ident.as_str());
    }

    /// Adds the label of a module, if it is public, then visits its contents inside it.
    pub fn visit_item_mod(&mut self, node: &ItemMod)
        ensures
            *final(final(self).items) == *final(old(self).items),
            Self::extended(old(self), final(self), mod_labels(node, old(self).current_mod@)),
        decreases node,
    {
        let ghost before = views(self.items@);
        let ghost outer = self.current_mod@;
        self.push_public(&node.vis, "pub mod ", node.ident.as_str());
        let ghost own = when_public(&node.vis, index_label("pub mod "@, outer, node.ident@));
        if let Some(items) = &node.content {
            self.current_mod.push(node.ident.clone());
            self.visit_items(items);
            self.current_mod.pop();
            assert(self.current_mod@ =~= outer);
            assert(views(self.items@) =~= before + (own + items_labels(
                items@,
                outer.push(node.ident),
            )));
        }
    }

    /// Adds the label of a constant, if it is public.
    pub fn visit_item_const(&mut self, node: &ItemConst)
        ensures
            *final(final(self).items) == *final(old(self).items),
            Self::extended(
                old(self),
                final(self),
                when_public(
                    &node.vis,
                    index_label("pub const "@, old(self).current_mod@, node.ident@),
                ),
            ),
    {
        self.push_public(&node.vis, "pub const ", node.ident.as_str());
    }

    /// Adds the label of a static, if it is public.
    pub fn visit_item_static(&mut self, node: &ItemStatic)
        ensures
            *final(final(self).items) == *final(old(self).items),
            Self::extended(
                old(self),
                final(self),
                when_public(
                    &node.vis,
                    index_label("pub static "@, old(self).current_mod@, node.ident@),
                ),
            ),
    {
        self.push_public(&node.vis, "pub static ", node.ident.as_str());
    }

    /// Adds the label of a type alias, if it is public.
    pub fn visit_item_type(&mut self, node: &ItemType)
        ensures
            *final(final(self).items) == *final(old(self).items),
            Self::extended(
                old(self),
                final(self),
                when_public(
                    &node.vis,
                    index_label("pub type "@, old(self).current_mod@, node.ident@),
                ),
            ),
    {
        self.push_public(&node.vis, "pub type ", node.ident.as_str());
    }

    /// Adds the label of an implementation block.
    pub fn visit_item_impl(&mut self, node: &ItemImpl)
        ensures
            *final(final(self).items) == *final(old(self).items),
            Self::extended(old(self), final(self), seq![impl_label(node, old(self).current_mod@)]),
    {
        let ghost before = views(self.items@);
        let mut label = String::from_str("impl ");
        let mut implemented = String::from_str("");
        if let Some(path) = &node.trait_path {
            implemented = format_segment_names(path);
            implemented.append(" for ");
        }
        label.append(implemented.as_str());
        let prefix = format_mod_prefix(&self.current_mod);
        label.append(prefix.as_str());
        let ty = format_impl_type(&node.self_ty);
        label.append(ty.as_str());
        self.items.push(label);
        assert(views(self.items@) =~= before + seq![label@]);
    }

    /// Adds the label of a re-export, if it is public.
    pub fn visit_item_use(&mut self, node: &ItemUse)
        ensures
            *final(final(self).items) == *final(old(self).items),
            Self::extended(
                old(self),
                final(self),
                when_public(
                    &node.vis,
                    index_label("pub use "@, old(self).current_mod@, use_tree_text(&node.tree)),
                ),
            ),
    {
        let tree = format_use_tree(&node.tree);
        self.push_public(&node.vis, "pub use ", tree.as_str());
    }

    /// Adds the label of a macro, if it defines a name.
    pub fn visit_item_macro(&mut self, node: &ItemMacro)
        ensures
            *final(final(self).items) == *final(old(self).items),
            Self::extended(
                old(self),
                final(self),
                match &node.ident {
                    Some(ident) => seq![macro_label(ident@, old(self).current_mod@)],
                    None => Seq::empty(),
                },
            ),
    {
        let ghost before = views(self.items@);
        if let Some(ident) = &node.ident {
            let mut label = format_mod_prefix(&self.current_mod);
            label.append(ident.as_str());
            label.append("!");
            self.items.push(label);
            assert(views(self.items@) =~= before + seq![label@]);
        }
    }

    /// Adds the label of an `extern crate` declaration, if it is public.
    pub fn visit_item_extern_crate(&mut self, node: &ItemExternCrate)
        ensures
            *final(final(self).items) == *final(old(self).items),
            Self::extended(
                old(self),
                final(self),
                when_public(
                    &node.vis,
                    index_label("pub extern crate "@, old(self).current_mod@, node.ident@),
                ),
            ),
    {
        self.push_public(&node.vis, "pub extern crate ", node.ident.as_str());
    }

    /// Adds the label of each public function of an `extern` block.
    pub fn visit_item_foreign_mod(&mut self, node: &ItemForeignMod)
        ensures
            *final(final(self).items) == *final(old(self).items),
            Self::extended(
                old(self),
                final(self),
                foreign_labels(&node.abi, node.items@, old(self).current_mod@),
            ),
    {
        let ghost before = views(self.items@);
        let ghost outer = self.current_mod@;
        let mut i: usize = 0;
        while i < node.items.len()
            invariant
                *final(self.items) == *final(old(self).items),
                i <= node.items.len(),
                self.current_mod@ == outer,
                views(self.items@) == before + foreign_labels(
                    &node.abi,
                    node.items@.take(i as int),
                    outer,
                ),
            decreases node.items.len() - i,
        {
            assert(node.items@.take(i + 1).drop_last() =~= node.items@.take(i as int));
            if let ForeignItem::Fn { vis, sig, .. } = &node.items[i] {
                if is_public(vis) {
                    let mut label = String::from_str("pub extern \"");
                    let abi = format_abi_name(&node.abi);
                    label.append(abi.as_str());
                    label.append("\" fn ");
                    let prefix = format_mod_prefix(&self.current_mod);
                    label.append(prefix.as_str());
                    label.append(sig.ident.as_str());
                    let ghost previous = views(self.items@);
                    self.items.push(label);
                    assert(views(self.items@) =~= previous + seq![label@]);
                }
            }
            i += 1;
        }
        assert(node.items@.take(node.items.len() as int) =~= node.items@);
    }

    /// Adds the label of a union, if it is public.
    pub fn visit_item_union(&mut self, node: &ItemUnion)
        ensures
            *final(final(self).items) == *final(old(self).items),
            Self::extended(
                old(self),
                final(self),
                when_public(
                    &node.vis,
                    index_label("pub union "@, old(self).current_mod@, node.ident@),
                ),
            ),
    {
        self.push_public(&node.vis, "pub union ", node.ident.as_str());
    }

    /// Adds the label of a trait alias, if it is public.
    pub fn visit_item_trait_alias(&mut self, node: &ItemTraitAlias)
        ensures
            *final(final(self).items) == *final(old(self).items),
            Self::extended(
                old(self),
                final(self),
                when_public(
                    &node.vis,
                    index_label("pub trait "@, old(self).current_mod@, node.ident@),
                ),
            ),
    {
        self.push_public(&node.vis, "pub trait ", node.ident.as_str());
    }

    /// Visits one item, and the contents of a module.
    pub fn visit_item(&mut self, item: &Item)
        ensures
            *final(final(self).items) == *final(old(self).items),
            Self::extended(old(self), final(self), item_labels(item, old(self).current_mod@)),
        decreases item,
    {
        match item {
            Item::Fn(node) => self.visit_item_fn(node),
            Item::Struct(node) => self.visit_item_struct(node),
            Item::Enum(node) => self.visit_item_enum(node),
            Item::Trait(node) => self.visit_item_trait(node),
            Item::Mod(node) => self.visit_item_mod(node),
            Item::Const(node) => self.visit_item_const(node),
            Item::Static(node) => self.visit_item_static(node),
            Item::Type(node) => self.visit_item_type(node),
            Item::Impl(node) => self.visit_item_impl(node),
            Item::Use(node) => self.visit_item_use(node),
            Item::Macro(node) => self.visit_item_macro(node),
            Item::ExternCrate(node) => self.visit_item_extern_crate(node),
            Item::ForeignMod(node) => self.visit_item_foreign_mod(node),
            Item::Union(node) => self.visit_item_union(node),
            Item::TraitAlias(node) => self.visit_item_trait_alias(node),
            Item::Other => {
            },
        }
    }

    /// Visits `items` in order.
    pub fn visit_items(&mut self, items: &Vec<Item>)
        ensures
            *final(final(self).items) == *final(old(self).items),
            Self::extended(old(self), final(self), items_labels(items@, old(self).current_mod@)),
        decreases items,
    {
        let ghost before = views(self.items@);
        let ghost outer = self.current_mod@;
        let mut i: usize = 0;
        while i < items.len()
            invariant
                *final(self.items) == *final(old(self).items),
                i <= items.len(),
                self.current_mod@ == outer,
                views(self.items@) == before + items_labels(items@.take(i as int), outer),
            decreases items.len() - i,
        {
            assert(items@.take(i + 1).drop_last() =~= items@.take(i as int));
            self.visit_item(&items[i]);
            i += 1;
        }
        assert(items@.take(items.len() as int) =~= items@);
    }

    /// Visits every item of a file.
    pub fn visit_file(&mut self, file: &SourceFile)
        ensures
            *final(final(self).items) == *final(old(self).items),
            Self::extended(
                old(self),
                final(self),
                items_labels(file.items@, old(self).current_mod@),
            ),
    {
        self.visit_items(&file.items);
    }
}

/// The kinds of the public functions of an `extern` block.
pub open spec fn foreign_kinds(items: Seq<ForeignItem>) -> Seq<Seq<char>>
    decreases items.len(),
{
    if items.len() == 0 {
        Seq::empty()
    } else {
        foreign_kinds(items.drop_last()) + (match &items.last() {
            ForeignItem::Fn { vis, .. } => when_public(vis, "foreign functions"@),
            ForeignItem::Other => Seq::empty(),
        })
    }
}

/// The kind of each declaration that one item contributes to the counts.
/// A module is not counted; its contents are.
pub open spec fn item_kinds(item: &Item) -> Seq<Seq<char>>
    decreases item,
{
    match item {
        Item::Fn(node) => when_public(&node.vis, "functions"@),
        Item::Struct(node) => when_public(&node.vis, "structs"@),
        Item::Enum(node) => when_public(&node.vis, "enums"@),
        Item::Trait(node) => when_public(&node.vis, "traits"@),
        Item::Mod(node) => mod_kinds(node),
        Item::Const(node) => when_public(&node.vis, "constants"@),
        Item::Static(node) => when_public(&node.vis, "statics"@),
        Item::Type(node) => when_public(&node.vis, "type aliases"@),
        Item::Impl(node) => seq!["implementations"@],
        Item::Use(node) => when_public(&node.vis, "re-exports"@),
        Item::Macro(node) => if node.ident is Some {
            seq!["macros"@]
        } else {
            Seq::empty()
        },
        Item::ExternCrate(node) => when_public(&node.vis, "extern crates"@),
        Item::ForeignMod(node) => foreign_kinds(node.items@),
        Item::Union(node) => when_public(&node.vis, "unions"@),
        Item::TraitAlias(node) => when_public(&node.vis, "trait aliases"@),
        Item::Other => Seq::empty(),
    }
}

/// The kinds of the declarations inside a module.
pub open spec fn mod_kinds(node: &ItemMod) -> Seq<Seq<char>>
    decreases node,
{
    match &node.content {
        Some(items) => items_kinds(items@),
        None => Seq::empty(),
    }
}

/// The kinds of the declarations among `items`, in order.
pub open spec fn items_kinds(items: Seq<Item>) -> Seq<Seq<char>>
    decreases items,
{
    if items.len() == 0 {
        Seq::empty()
    } else {
        items_kinds(items.drop_last()) + item_kinds(&items.last())
    }
}

/// The first items of a list contribute no more kinds than the whole list.
pub proof fn lemma_items_kinds_prefix(items: Seq<Item>, n: int)
    requires
        0 <= n <= items.len(),
    ensures
        items_kinds(items.take(n)).len() <= items_kinds(items).len(),
    decreases items.len(),
{
    if n == items.len() {
        assert(items.take(n) =~= items);
    } else {
        assert(items.drop_last().take(n) =~= items.take(n));
        lemma_items_kinds_prefix(items.drop_last(), n);
    }
}

/// The first functions of an `extern` block contribute no more kinds than
/// the whole block.
pub proof fn lemma_foreign_kinds_prefix(items: Seq<ForeignItem>, n: int)
    requires
        0 <= n <= items.len(),
    ensures
        foreign_kinds(items.take(n)).len() <= foreign_kinds(items).len(),
    decreases items.len(),
{
    if n == items.len() {
        assert(items.take(n) =~= items);
    } else {
        assert(items.drop_last().take(n) =~= items.take(n));
        lemma_foreign_kinds_prefix(items.drop_last(), n);
    }
}

/// Counts the included declarations it visits and records the kind of each.
///
/// Every method writes to the count and to the list that the visitor was
/// made with and leaves the visitor pointing at them. The count must have
/// room for what a visit adds; a count that starts no larger than the list
/// is long always has.
pub struct SummaryVisitor<'a> {
    /// The number of declarations counted so far.
    pub public_count: &'a mut usize,
    /// The kind of each declaration counted so far.
    pub types: &'a mut Vec<String>,
}

impl<'a> SummaryVisitor<'a> {
    /// Whether the count can take `kinds` more declarations: it has room
    /// for them, or it is no larger than the list of kinds is long, so
    /// that the list, which grows with it, bounds it.
    pub open spec fn has_room(&self, kinds: Seq<Seq<char>>) -> bool {
        *self.public_count + kinds.len() <= usize::MAX || *self.public_count
            <= self.types@.len()
    }

    /// Whether `after` is `before` with one declaration counted for each
    /// of `kinds`.
    pub open spec fn counted(before: &Self, after: &Self, kinds: Seq<Seq<char>>) -> bool {
        &&& views(after.types@) == views(before.types@) + kinds
        &&& *after.public_count == *before.public_count + kinds.len()
    }

    /// Counts one declaration of the kind `kind`.
    fn count(&mut self, kind: &str)
        requires
            old(self).has_room(seq![kind@]),
        ensures
            *final(final(self).public_count) == *final(old(self).public_count),
            *final(final(self).types) == *final(old(self).types),
            Self::counted(old(self), final(self), seq![kind@]),
    {
        let ghost before = views(self.types@);
        self.types.push(String::from_str(kind));
        let length = self.types.len();
        assert(*self.public_count < length || *self.public_count + 1 <= usize::MAX);
        *self.public_count += 1;
        assert(views(self.types@) =~= before + seq![kind@]);
    }

    /// Counts one declaration of the kind `kind`, if the marker is `pub`.
    fn count_public(&mut self, vis: &Visibility, kind: &str)
        requires
            old(self).has_room(when_public(vis, kind@)),
        ensures
            *final(final(self).public_count) == *final(old(self).public_count),
            *final(final(self).types) == *final(old(self).types),
            Self::counted(old(self), final(self), when_public(vis, kind@)),
    {
        if is_public(vis) {
            self.count(kind);
        }
    }

    /// Counts a function, if it is public.
    pub fn visit_item_fn(&mut self, node: &ItemFn)
        requires
            old(self).has_room(when_public(&node.vis, "functions"@)),
        ensures
            *final(final(self).public_count) == *final(old(self).public_count),
            *final(final(self).types) == *final(old(self).types),
            Self::counted(old(self), final(self), when_public(&node.vis, "functions"@)),
    {
        self.count_public(&node.vis, "functions");
    }

    /// Counts a struct, if it is public.
    pub fn visit_item_struct(&mut self, node: &ItemStruct)
        requires
            old(self).has_room(when_public(&node.vis, "structs"@)),
        ensures
            *final(final(self).public_count) == *final(old(self).public_count),
            *final(final(self).types) == *final(old(self).types),
            Self::counted(old(self), final(self), when_public(&node.vis, "structs"@)),
    {
        self.count_public(&node.vis, "structs");
    }

    /// Counts an enum, if it is public.
    pub fn visit_item_enum(&mut self, node: &ItemEnum)
        requires
            old(self).has_room(when_public(&node.vis, "enums"@)),
        ensures
            *final(final(self).public_count) == *final(old(self).public_count),
            *final(final(self).types) == *final(old(self).types),
            Self::counted(old(self), final(self), when_public(&node.vis, "enums"@)),
    {
        self.count_public(&node.vis, "enums");
    }

    /// Counts a trait, if it is public.
    pub fn visit_item_trait(&mut self, node: &ItemTrait)
        requires
            old(self).has_room(when_public(&node.vis, "traits"@)),
        ensures
            *final(final(self).public_count) == *final(old(self).public_count),
            *final(final(self).types) == *final(old(self).types),
            Self::counted(old(self), final(self), when_public(&node.vis, "traits"@)),
    {
        self.count_public(&node.vis, "traits");
    }

    /// Visits the contents of a module; the module itself is not counted.
    pub fn visit_item_mod(&mut self, node: &ItemMod)
        requires
            old(self).has_room(mod_kinds(node)),
        ensures
            *final(final(self).public_count) == *final(old(self).public_count),
            *final(final(self).types) == *final(old(self).types),
            Self::counted(old(self), final(self), mod_kinds(node)),
        decreases node,
    {
        if let Some(items) = &node.content {
            self.visit_items(items);
        }
    }

    /// Counts a constant, if it is public.
    pub fn visit_item_const(&mut self, node: &ItemConst)
        requires
            old(self).has_room(when_public(&node.vis, "constants"@)),
        ensures
            *final(final(self).public_count) == *final(old(self).public_count),
            *final(final(self).types) == *final(old(self).types),
            Self::counted(old(self), final(self), when_public(&node.vis, "constants"@)),
    {
        self.count_public(&node.vis, "constants");
    }

    /// Counts a static, if it is public.
    pub fn visit_item_static(&mut self, node: &ItemStatic)
        requires
            old(self).has_room(when_public(&node.vis, "statics"@)),
        ensures
            *final(final(self).public_count) == *final(old(self).public_count),
            *final(final(self).types) == *final(old(self).types),
            Self::counted(old(self), final(self), when_public(&node.vis, "statics"@)),
    {
        self.count_public(&node.vis, "statics");
    }

    /// Counts a type alias, if it is public.
    pub fn visit_item_type(&mut self, node: &ItemType)
        requires
            old(self).has_room(when_public(&node.vis, "type aliases"@)),
        ensures
            *final(final(self).public_count) == *final(old(self).public_count),
            *final(final(self).types) == *final(old(self).types),
            Self::counted(old(self), final(self), when_public(&node.vis, "type aliases"@)),
    {
        self.count_public(&node.vis, "type aliases");
    }

    /// Counts an implementation block.
    pub fn visit_item_impl(&mut self, _node: &ItemImpl)
        requires
            old(self).has_room(seq!["implementations"@]),
        ensures
            *final(final(self).public_count) == *final(old(self).public_count),
            *final(final(self).types) == *final(old(self).types),
            Self::counted(old(self), final(self), seq!["implementations"@]),
    {
        self.count("implementations");
    }

    /// Counts a re-export, if it is public.
    pub fn visit_item_use(&mut self, node: &ItemUse)
        requires
            old(self).has_room(when_public(&node.vis, "re-exports"@)),
        ensures
            *final(final(self).public_count) == *final(old(self).public_count),
            *final(final(self).types) == *final(old(self).types),
            Self::counted(old(self), final(self), when_public(&node.vis, "re-exports"@)),
    {
        self.count_public(&node.vis, "re-exports");
    }

    /// Counts a macro, if it defines a name.
    pub fn visit_item_macro(&mut self, node: &ItemMacro)
        requires
            old(self).has_room(
                if node.ident is Some {
                    seq!["macros"@]
                } else {
                    Seq::empty()
                },
            ),
        ensures
            *final(final(self).public_count) == *final(old(self).public_count),
            *final(final(self).types) == *final(old(self).types),
            Self::counted(
                old(self),
                final(self),
                if node.ident is Some {
                    seq!["macros"@]
                } else {
                    Seq::empty()
                },
            ),
    {
        if node.ident.is_some() {
            self.count("macros");
        }
    }

    /// Counts an `extern crate` declaration, if it is public.
    pub fn visit_item_extern_crate(&mut self, node: &ItemExternCrate)
        requires
            old(self).has_room(when_public(&node.vis, "extern crates"@)),
        ensures
            *final(final(self).public_count) == *final(old(self).public_count),
            *final(final(self).types) == *final(old(self).types),
            Self::counted(old(self), final(self), when_public(&node.vis, "extern crates"@)),
    {
        self.count_public(&node.vis, "extern crates");
    }

    /// Counts each public function of an `extern` block.
    pub fn visit_item_foreign_mod(&mut self, node: &ItemForeignMod)
        requires
            old(self).has_room(foreign_kinds(node.items@)),
        ensures
            *final(final(self).public_count) == *final(old(self).public_count),
            *final(final(self).types) == *final(old(self).types),
            Self::counted(old(self), final(self), foreign_kinds(node.items@)),
    {
        let ghost before = views(self.types@);
        let ghost start = *self.public_count;
        let mut i: usize = 0;
        while i < node.items.len()
            invariant
                *final(self.public_count) == *final(old(self).public_count),
                *final(self.types) == *final(old(self).types),
                i <= node.items.len(),
                start + foreign_kinds(node.items@).len() <= usize::MAX || start <= before.len(),
                views(self.types@) == before + foreign_kinds(node.items@.take(i as int)),
                *self.public_count == start + foreign_kinds(node.items@.take(i as int)).len(),
            decreases node.items.len() - i,
        {
            let ghost so_far = foreign_kinds(node.items@.take(i as int));
            proof {
                assert(node.items@.take(i + 1).drop_last() =~= node.items@.take(i as int));
                assert(node.items@.take(i + 1).last() == node.items@[i as int]);
                lemma_foreign_kinds_prefix(node.items@, i + 1);
                assert(views(self.types@).len() == self.types@.len());
                assert((before + so_far).len() == before.len() + so_far.len());
                assert(self.types@.len() == before.len() + so_far.len());
            }
            if let ForeignItem::Fn { vis, .. } = &node.items[i] {
                assert(foreign_kinds(node.items@.take(i + 1)) == so_far + when_public(
                    vis,
                    "foreign functions"@,
                ));
                self.count_public(vis, "foreign functions");
                assert(views(self.types@) =~= before + (so_far + when_public(
                    vis,
                    "foreign functions"@,
                )));
            } else {
                assert(foreign_kinds(node.items@.take(i + 1)) =~= so_far);
            }
            i += 1;
        }
        assert(node.items@.take(node.items.len() as int) =~= node.items@);
    }

    /// Counts a union, if it is public.
    pub fn visit_item_union(&mut self, node: &ItemUnion)
        requires
            old(self).has_room(when_public(&node.vis, "unions"@)),
        ensures
            *final(final(self).public_count) == *final(old(self).public_count),
            *final(final(self).types) == *final(old(self).types),
            Self::counted(old(self), final(self), when_public(&node.vis, "unions"@)),
    {
        self.count_public(&node.vis, "unions");
    }

    /// Counts a trait alias, if it is public.
    pub fn visit_item_trait_alias(&mut self, node: &ItemTraitAlias)
        requires
            old(self).has_room(when_public(&node.vis, "trait aliases"@)),
        ensures
            *final(final(self).public_count) == *final(old(self).public_count),
            *final(final(self).types) == *final(old(self).types),
            Self::counted(old(self), final(self), when_public(&node.vis, "trait aliases"@)),
    {
        self.count_public(&node.vis, "trait aliases");
    }

    /// Visits one item, and the contents of a module.
    pub fn visit_item(&mut self, item: &Item)
        requires
            old(self).has_room(item_kinds(item)),
        ensures
            *final(final(self).public_count) == *final(old(self).public_count),
            *final(final(self).types) == *final(old(self).types),
            Self::counted(old(self), final(self), item_kinds(item)),
        decreases item,
    {
        match item {
            Item::Fn(node) => self.visit_item_fn(node),
            Item::Struct(node) => self.visit_item_struct(node),
            Item::Enum(node) => self.visit_item_enum(node),
            Item::Trait(node) => self.visit_item_trait(node),
            Item::Mod(node) => self.visit_item_mod(node),
            Item::Const(node) => self.visit_item_const(node),
            Item::Static(node) => self.visit_item_static(node),
            Item::Type(node) => self.visit_item_type(node),
            Item::Impl(node) => self.visit_item_impl(node),
            Item::Use(node) => self.visit_item_use(node),
            Item::Macro(node) => self.visit_item_macro(node),
            Item::ExternCrate(node) => self.visit_item_extern_crate(node),
            Item::ForeignMod(node) => self.visit_item_foreign_mod(node),
            Item::Union(node) => self.visit_item_union(node),
            Item::TraitAlias(node) => self.visit_item_trait_alias(node),
            Item::Other => {
            },
        }
    }

    /// Visits `items` in order.
    pub fn visit_items(&mut self, items: &Vec<Item>)
        requires
            old(self).has_room(items_kinds(items@)),
        ensures
            *final(final(self).public_count) == *final(old(self).public_count),
            *final(final(self).types) == *final(old(self).types),
            Self::counted(old(self), final(self), items_kinds(items@)),
        decreases items,
    {
        let ghost before = views(self.types@);
        let ghost start = *self.public_count;
        let mut i: usize = 0;
        while i < items.len()
            invariant
                *final(self.public_count) == *final(old(self).public_count),
                *final(self.types) == *final(old(self).types),
                i <= items.len(),
                start + items_kinds(items@).len() <= usize::MAX || start <= before.len(),
                views(self.types@) == before + items_kinds(items@.take(i as int)),
                *self.public_count == start + items_kinds(items@.take(i as int)).len(),
            decreases items.len() - i,
        {
            let ghost so_far = items_kinds(items@.take(i as int));
            let ghost next = item_kinds(&items@[i as int]);
            proof {
                assert(items@.take(i + 1).drop_last() =~= items@.take(i as int));
                assert(items@.take(i + 1).last() == items@[i as int]);
                assert(items_kinds(items@.take(i + 1)) == so_far + next);
                lemma_items_kinds_prefix(items@, i + 1);
                assert(views(self.types@).len() == self.types@.len());
                assert((before + so_far).len() == before.len() + so_far.len());
                assert(self.types@.len() == before.len() + so_far.len());
                assert(self.has_room(next));
            }
            self.visit_item(&items[i]);
            assert(views(self.types@) =~= before + (so_far + next));
            i += 1;
        }
        assert(items@.take(items.len() as int) =~= items@);
    }

    /// Visits every item of a file.
    pub fn visit_file(&mut self, file: &SourceFile)
        requires
            old(self).has_room(items_kinds(file.items@)),
        ensures
            *final(final(self).public_count) == *final(old(self).public_count),
            *final(final(self).types) == *final(old(self).types),
            Self::counted(old(self), final(self), items_kinds(file.items@)),
    {
        self.visit_items(&file.items);
    }
}

/// `text` if `included`, nothing otherwise.
pub open spec fn when_included(included: bool, text: Seq<char>) -> Seq<char> {
    if included {
        text
    } else {
        Seq::empty()
    }
}

/// The complete documentation of the public functions of an `extern` block.
pub open spec fn foreign_docs(abi: &Abi, items: Seq<ForeignItem>) -> Seq<char>
    decreases items.len(),
{
    if items.len() == 0 {
        Seq::empty()
    } else {
        foreign_docs(abi, items.drop_last()) + (match &items.last() {
            ForeignItem::Fn { attrs, vis, sig } => when_included(
                vis.is_public(),
                declaration_text(sig.ident@, foreign_fn_code(abi, sig), attrs@),
            ),
            ForeignItem::Other => Seq::empty(),
        })
    }
}

/// The complete documentation that one item contributes. The title of a
/// function, struct, enum, trait, constant, static or type alias is its
/// name after the path `current_mod`; that of an implementation block is
/// `impl`, the trait and `for` if it implements one, and the type.
pub open spec fn item_docs(item: &Item, current_mod: Seq<String>) -> Seq<char>
    decreases item,
{
    match item {
        Item::Fn(node) => when_included(
            node.vis.is_public(),
            declaration_text(mod_prefix(current_mod) + node.sig.ident@, fn_code(node), node.attrs@),
        ),
        Item::Struct(node) => when_included(
            node.vis.is_public(),
            declaration_text(mod_prefix(current_mod) + node.ident@, struct_code(node), node.attrs@),
        ),
        Item::Enum(node) => when_included(
            node.vis.is_public(),
            declaration_text(mod_prefix(current_mod) + node.ident@, enum_code(node), node.attrs@),
        ),
        Item::Trait(node) => when_included(
            node.vis.is_public(),
            declaration_text(mod_prefix(current_mod) + node.ident@, trait_code(node), node.attrs@),
        ),
        Item::Mod(node) => mod_docs(node, current_mod),
        Item::Const(node) => when_included(
            node.vis.is_public(),
            declaration_text(mod_prefix(current_mod) + node.ident@, const_code(node), node.attrs@),
        ),
        Item::Static(node) => when_included(
            node.vis.is_public(),
            declaration_text(mod_prefix(current_mod) + node.ident@, static_code(node), node.attrs@),
        ),
        Item::Type(node) => when_included(
            node.vis.is_public(),
            declaration_text(mod_prefix(current_mod) + node.ident@, type_code(node), node.attrs@),
        ),
        Item::Impl(node) => declaration_text(
            impl_title(node, current_mod),
            impl_code(node),
            node.attrs@,
        ),
        Item::Use(node) => when_included(
            node.vis.is_public(),
            declaration_text(use_tree_text(&node.tree), use_code(node), node.attrs@),
        ),
        Item::Macro(node) => match &node.ident {
            Some(ident) => declaration_text(ident@ + "!"@, macro_code(ident@), node.attrs@),
            None => Seq::empty(),
        },
        Item::ExternCrate(node) => when_included(
            node.vis.is_public(),
            declaration_text("extern crate "@ + node.ident@, extern_crate_code(node), node.attrs@),
        ),
        Item::ForeignMod(node) => foreign_docs(&node.abi, node.items@),
        Item::Union(node) => when_included(
            node.vis.is_public(),
            declaration_text(node.ident@, union_code(node), node.attrs@),
        ),
        Item::TraitAlias(node) => when_included(
            node.vis.is_public(),
            declaration_text(node.ident@, trait_alias_code(node), node.attrs@),
        ),
        Item::Other => Seq::empty(),
    }
}

/// The complete documentation of the contents of a module. Entering a
/// module does not change the path in the titles.
pub open spec fn mod_docs(node: &ItemMod, current_mod: Seq<String>) -> Seq<char>
    decreases node,
{
    match &node.content {
        Some(items) => items_docs(items@, current_mod),
        None => Seq::empty(),
    }
}

/// The complete documentation of `items`, in order.
pub open spec fn items_docs(items: Seq<Item>, current_mod: Seq<String>) -> Seq<char>
    decreases items,
{
    if items.len() == 0 {
        Seq::empty()
    } else {
        items_docs(items.drop_last(), current_mod) + item_docs(&items.last(), current_mod)
    }
}

/// Writes the complete documentation of the declarations it visits.
///
/// Every method appends to the text that the visitor was made with and
/// leaves the visitor pointing at it.
pub struct CompleteDocsVisitor<'a> {
    /// The document written so far.
    pub content: &'a mut String,
    /// The path that precedes the names in the titles.
    pub current_mod: Vec<String>,
}

impl<'a> CompleteDocsVisitor<'a> {
    /// Whether `after` is `before` with `text` appended and the same path.
    pub open spec fn appended(before: &Self, after: &Self, text: Seq<char>) -> bool {
        &&& after.content@ == before.content@ + text
        &&& after.current_mod@ == before.current_mod@
    }

    /// Appends the documentation lines of `attrs`, then one empty line.
    pub fn extract_docs_for_item(&mut self, attrs: &Vec<Attribute>)
        ensures
            *final(final(self).content) == *final(old(self).content),
            Self::appended(old(self), final(self), docs_text(attrs@)),
    {
        let docs = format_docs(attrs);
        self.content.append(docs.as_str());
    }

    /// Appends a declaration: its title as a heading, its code between fences, its documentation.
    fn push_declaration(&mut self, title: &str, code: &str, attrs: &Vec<Attribute>)
        ensures
            *final(final(self).content) == *final(old(self).content),
            Self::appended(old(self), final(self), declaration_text(title@, code@, attrs@)),
    {
        let ghost before = self.content@;
        let mut block = String::from_str("### ");
        block.append(title);
        block.append("\n\n");
        block.append("```rust\n");
        block.append(code);
        block.append("\n```\n\n");
        self.content.append(block.as_str());
        self.extract_docs_for_item(attrs);
        assert(self.content@ =~= before + (block@ + docs_text(attrs@)));
    }

    /// Appends a declaration titled by its name after the path, if `public`.
    fn push_named(&mut self, public: bool, name: &str, code: &str, attrs: &Vec<Attribute>)
        ensures
            *final(final(self).content) == *final(old(self).content),
            Self::appended(
                old(self),
                final(self),
                when_included(
                    public,
                    declaration_text(mod_prefix(old(self).current_mod@) + name@, code@, attrs@),
                ),
            ),
    {
        if public {
            let mut title = format_mod_prefix(&self.current_mod);
            title.append(name);
            self.push_declaration(title.as_str(), code, attrs);
        }
    }

    /// Appends the documentation of a function, if it is public.
    pub fn visit_item_fn(&mut self, node: &ItemFn)
        ensures
            *final(final(self).content) == *final(old(self).content),
            Self::appended(
                old(self),
                final(self),
                item_docs(&Item::Fn(*node), old(self).current_mod@),
            ),
    {
        let public = is_public(&node.vis);
        let code = if public {
            format_fn_code(node)
        } else {
            String::new()
        };
        self.push_named(public, node.sig.ident.as_str(), code.as_str(), &node.attrs);
    }

    /// Appends the documentation of a struct, if it is public.
    pub fn visit_item_struct(&mut self, node: &ItemStruct)
        ensures
            *final(final(self).content) == *final(old(self).content),
            Self::appended(
                old(self),
                final(self),
                item_docs(&Item::Struct(*node), old(self).current_mod@),
            ),
    {
        let public = is_public(&node.vis);
        let code = if public {
            format_struct_code(node)
        } else {
            String::new()
        };
        self.push_named(public, node.ident.as_str(), code.as_str(), &node.attrs);
    }

    /// Appends the documentation of an enum, if it is public.
    pub fn visit_item_enum(&mut self, node: &ItemEnum)
        ensures
            *final(final(self).content) == *final(old(self).content),
            Self::appended(
                old(self),
                final(self),
                item_docs(&Item::Enum(*node), old(self).current_mod@),
            ),
    {
        let public = is_public(&node.vis);
        let code = if public {
            format_enum_code(node)
        } else {
            String::new()
        };
        self.push_named(public, node.ident.as_str(), code.as_str(), &node.attrs);
    }

    /// Appends the documentation of a trait, if it is public.
    pub fn visit_item_trait(&mut self, node: &ItemTrait)
        ensures
            *final(final(self).content) == *final(old(self).content),
            Self::appended(
                old(self),
                final(self),
                item_docs(&Item::Trait(*node), old(self).current_mod@),
            ),
    {
        let public = is_public(&node.vis);
        let code = if public {
            format_trait_code(node)
        } else {
            String::new()
        };
        self.push_named(public, node.ident.as_str(), code.as_str(), &node.attrs);
    }

    /// Visits the contents of a module.
    pub fn visit_item_mod(&mut self, node: &ItemMod)
        ensures
            *final(final(self).content) == *final(old(self).content),
            Self::appended(old(self), final(self), mod_docs(node, old(self).current_mod@)),
        decreases node,
    {
        if let Some(items) = &node.content {
            self.visit_items(items);
        }
    }

    /// Appends the documentation of a constant, if it is public.
    pub fn visit_item_const(&mut self, node: &ItemConst)
        ensures
            *final(final(self).content) == *final(old(self).content),
            Self::appended(
                old(self),
                final(self),
                item_docs(&Item::Const(*node), old(self).current_mod@),
            ),
    {
        let public = is_public(&node.vis);
        let code = if public {
            format_const_code(node)
        } else {
            String::new()
        };
        self.push_named(public, node.ident.as_str(), code.as_str(), &node.attrs);
    }

    /// Appends the documentation of a static, if it is public.
    pub fn visit_item_static(&mut self, node: &ItemStatic)
        ensures
            *final(final(self).content) == *final(old(self).content),
            Self::appended(
                old(self),
                final(self),
                item_docs(&Item::Static(*node), old(self).current_mod@),
            ),
    {
        let public = is_public(&node.vis);
        let code = if public {
            format_static_code(node)
        } else {
            String::new()
        };
        self.push_named(public, node.ident.as_str(), code.as_str(), &node.attrs);
    }

    /// Appends the documentation of a type alias, if it is public.
    pub fn visit_item_type(&mut self, node: &ItemType)
        ensures
            *final(final(self).content) == *final(old(self).content),
            Self::appended(
                old(self),
                final(self),
                item_docs(&Item::Type(*node), old(self).current_mod@),
            ),
    {
        let public = is_public(&node.vis);
        let code = if public {
            format_type_code(node)
        } else {
            String::new()
        };
        self.push_named(public, node.ident.as_str(), code.as_str(), &node.attrs);
    }

    /// Appends the documentation of an implementation block.
    pub fn visit_item_impl(&mut self, node: &ItemImpl)
        ensures
            *final(final(self).content) == *final(old(self).content),
            Self::appended(
                old(self),
                final(self),
                item_docs(&Item::Impl(*node), old(self).current_mod@),
            ),
    {
        let title = format_impl_title(node, &self.current_mod);
        let code = format_impl_code(node);
        self.push_declaration(title.as_str(), code.as_str(), &node.attrs);
    }

    /// Appends the documentation of a re-export, if it is public.
    pub fn visit_item_use(&mut self, node: &ItemUse)
        ensures
            *final(final(self).content) == *final(old(self).content),
            Self::appended(
                old(self),
                final(self),
                item_docs(&Item::Use(*node), old(self).current_mod@),
            ),
    {
        if is_public(&node.vis) {
            let title = format_use_tree(&node.tree);
            let code = format_use_code(node);
            self.push_declaration(title.as_str(), code.as_str(), &node.attrs);
        }
    }

    /// Appends the documentation of a macro, if it defines a name.
    pub fn visit_item_macro(&mut self, node: &ItemMacro)
        ensures
            *final(final(self).content) == *final(old(self).content),
            Self::appended(
                old(self),
                final(self),
                item_docs(&Item::Macro(*node), old(self).current_mod@),
            ),
    {
        if let Some(ident) = &node.ident {
            let mut title = ident.clone();
            title.append("!");
            let code = format_macro_code(ident.as_str());
            self.push_declaration(title.as_str(), code.as_str(), &node.attrs);
        }
    }

    /// Appends the documentation of an `extern crate` declaration, if it is public.
    pub fn visit_item_extern_crate(&mut self, node: &ItemExternCrate)
        ensures
            *final(final(self).content) == *final(old(self).content),
            Self::appended(
                old(self),
                final(self),
                item_docs(&Item::ExternCrate(*node), old(self).current_mod@),
            ),
    {
        if is_public(&node.vis) {
            let mut title = String::from_str("extern crate ");
            title.append(node.ident.as_str());
            let code = format_extern_crate_code(node);
            self.push_declaration(title.as_str(), code.as_str(), &node.attrs);
        }
    }

    /// Appends the documentation of each public function of an `extern` block.
    pub fn visit_item_foreign_mod(&mut self, node: &ItemForeignMod)
        ensures
            *final(final(self).content) == *final(old(self).content),
            Self::appended(
                old(self),
                final(self),
                item_docs(&Item::ForeignMod(*node), old(self).current_mod@),
            ),
    {
        let ghost before = self.content@;
        let ghost outer = self.current_mod@;
        let mut i: usize = 0;
        while i < node.items.len()
            invariant
                *final(self.content) == *final(old(self).content),
                i <= node.items.len(),
                self.current_mod@ == outer,
                self.content@ == before + foreign_docs(&node.abi, node.items@.take(i as int)),
            decreases node.items.len() - i,
        {
            assert(node.items@.take(i + 1).drop_last() =~= node.items@.take(i as int));
            if let ForeignItem::Fn { attrs, vis, sig } = &node.items[i] {
                if is_public(vis) {
                    let code = format_foreign_fn_code(&node.abi, sig);
                    self.push_declaration(sig.ident.as_str(), code.as_str(), attrs);
                }
            }
            i += 1;
        }
        assert(node.items@.take(node.items.len() as int) =~= node.items@);
    }

    /// Appends the documentation of a union, if it is public.
    pub fn visit_item_union(&mut self, node: &ItemUnion)
        ensures
            *final(final(self).content) == *final(old(self).content),
            Self::appended(
                old(self),
                final(self),
                item_docs(&Item::Union(*node), old(self).current_mod@),
            ),
    {
        if is_public(&node.vis) {
            let code = format_union_code(node);
            self.push_declaration(node.ident.as_str(), code.as_str(), &node.attrs);
        }
    }

    /// Appends the documentation of a trait alias, if it is public.
    pub fn visit_item_trait_alias(&mut self, node: &ItemTraitAlias)
        ensures
            *final(final(self).content) == *final(old(self).content),
            Self::appended(
                old(self),
                final(self),
                item_docs(&Item::TraitAlias(*node), old(self).current_mod@),
            ),
    {
        if is_public(&node.vis) {
            let code = format_trait_alias_code(node);
            self.push_declaration(node.ident.as_str(), code.as_str(), &node.attrs);
        }
    }

    /// Visits one item, and the contents of a module.
    pub fn visit_item(&mut self, item: &Item)
        ensures
            *final(final(self).content) == *final(old(self).content),
            Self::appended(old(self), final(self), item_docs(item, old(self).current_mod@)),
        decreases item,
    {
        match item {
            Item::Fn(node) => self.visit_item_fn(node),
            Item::Struct(node) => self.visit_item_struct(node),
            Item::Enum(node) => self.visit_item_enum(node),
            Item::Trait(node) => self.visit_item_trait(node),
            Item::Mod(node) => self.visit_item_mod(node),
            Item::Const(node) => self.visit_item_const(node),
            Item::Static(node) => self.visit_item_static(node),
            Item::Type(node) => self.visit_item_type(node),
            Item::Impl(node) => self.visit_item_impl(node),
            Item::Use(node) => self.visit_item_use(node),
            Item::Macro(node) => self.visit_item_macro(node),
            Item::ExternCrate(node) => self.visit_item_extern_crate(node),
            Item::ForeignMod(node) => self.visit_item_foreign_mod(node),
            Item::Union(node) => self.visit_item_union(node),
            Item::TraitAlias(node) => self.visit_item_trait_alias(node),
            Item::Other => {
            },
        }
    }

    /// Visits `items` in order.
    pub fn visit_items(&mut self, items: &Vec<Item>)
        ensures
            *final(final(self).content) == *final(old(self).content),
            Self::appended(old(self), final(self), items_docs(items@, old(self).current_mod@)),
        decreases items,
    {
        let ghost before = self.content@;
        let ghost outer = self.current_mod@;
        let mut i: usize = 0;
        while i < items.len()
            invariant
                *final(self.content) == *final(old(self).content),
                i <= items.len(),
                self.current_mod@ == outer,
                self.content@ == before + items_docs(items@.take(i as int), outer),
            decreases items.len() - i,
        {
            assert(items@.take(i + 1).drop_last() =~= items@.take(i as int));
            self.visit_item(&items[i]);
            i += 1;
        }
        assert(items@.take(items.len() as int) =~= items@);
    }

    /// Visits every item of a file.
    pub fn visit_file(&mut self, file: &SourceFile)
        ensures
            *final(final(self).content) == *final(old(self).content),
            Self::appended(
                old(self),
                final(self),
                items_docs(file.items@, old(self).current_mod@),
            ),
    {
        self.visit_items(&file.items);
    }
}

} // verus!
