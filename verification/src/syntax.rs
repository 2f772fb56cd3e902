//! The syntax of a source file, reduced to what the renderers read.
//!
//! A front end parses the source text and fills these types; every name is
//! held as the text it has in the source.

use vstd::prelude::*;

verus! {

/// The visibility marker of a declaration.
#[derive(Debug)]
pub enum Visibility {
    /// `pub`
    Public,
    /// `pub(crate)`, `pub(super)`, `pub(in path)`
    Restricted,
    /// No marker.
    Inherited,
}

/// One segment of a path, with its generic arguments.
#[derive(Debug)]
pub struct PathSegment {
    pub ident: String,
    pub arguments: PathArguments,
}

/// The arguments that follow a path segment.
#[derive(Debug)]
pub enum PathArguments {
    /// No arguments.
    Absent,
    /// `<'a, T, N>`
    AngleBracketed(Vec<GenericArgument>),
    /// `(A, B) -> C`
    Parenthesized,
}

/// One argument between angle brackets.
#[derive(Debug)]
pub enum GenericArgument {
    /// A lifetime, named without its apostrophe.
    Lifetime(String),
    Type(TypeExpr),
    Const(ConstExpr),
    /// `Item = T`
    AssocType { ident: String, ty: TypeExpr },
    /// `N = 3`
    AssocConst,
    /// `Item: Bound`
    Constraint,
    Other,
}

/// An expression in the place of a const generic argument.
#[derive(Debug)]
pub enum ConstExpr {
    /// A string literal, by its value.
    Str(String),
    /// An integer literal, by its decimal digits.
    Int(String),
    Bool(bool),
    /// A path, by the names of its segments.
    Path(Vec<String>),
    Other,
}

/// A type as written in a signature or a field.
#[derive(Debug)]
pub enum TypeExpr {
    Path(Vec<PathSegment>),
    /// `&'a mut T`; the lifetime is named without its apostrophe.
    Reference { lifetime: Option<String>, mutable: bool, elem: Box<TypeExpr> },
    Slice(Box<TypeExpr>),
    Array(Box<TypeExpr>),
    /// `*const T` or `*mut T`
    Pointer { mutable: bool, elem: Box<TypeExpr> },
    Tuple(Vec<TypeExpr>),
    ImplTrait,
    TraitObject,
    Other,
}

/// The binding pattern of a function parameter.
#[derive(Debug)]
pub enum Pattern {
    Ident(String),
    Reference(Box<Pattern>),
    /// A pattern with a type annotation.
    Typed(Box<Pattern>),
    Wild,
    Tuple(Vec<Pattern>),
    /// A struct pattern, by the names of its path's segments.
    Struct(Vec<String>),
    Other,
}

/// A bound on a type parameter.
#[derive(Debug)]
pub enum Bound {
    /// A trait, by the names of its path's segments.
    Trait(Vec<String>),
    /// A lifetime, named without its apostrophe.
    Lifetime(String),
    Other,
}

/// A generic parameter of a declaration.
#[derive(Debug)]
pub enum GenericParam {
    Type { ident: String, bounds: Vec<Bound> },
    /// A lifetime and the lifetimes it outlives, all named without apostrophe.
    Lifetime { ident: String, outlives: Vec<String> },
    Const { ident: String, ty: TypeExpr },
}

/// One predicate of a `where` clause.
#[derive(Debug)]
pub enum WherePredicate {
    Type { bounded: TypeExpr, bounds: Vec<Bound> },
    Lifetime { lifetime: String, outlives: Vec<String> },
    Other,
}

/// Generic parameters and the `where` clause, if one is written.
#[derive(Debug)]
pub struct Generics {
    pub params: Vec<GenericParam>,
    pub where_clause: Option<Vec<WherePredicate>>,
}

/// A parameter of a function.
#[derive(Debug)]
pub enum FnArg {
    /// `self`, `&self` or `&mut self`. `mutable` is read only under `reference`.
    Receiver { reference: bool, mutable: bool },
    Typed { pat: Pattern, ty: TypeExpr },
}

/// `extern` with an optional ABI name.
#[derive(Debug)]
pub struct Abi {
    pub name: Option<String>,
}

/// The signature of a function, without its body.
#[derive(Debug)]
pub struct Signature {
    pub abi: Option<Abi>,
    pub ident: String,
    pub generics: Generics,
    pub inputs: Vec<FnArg>,
    pub output: Option<TypeExpr>,
}

/// One entry of an attribute's argument list, as a nested-meta parser yields it.
#[derive(Debug)]
pub enum MetaEntry {
    /// A single identifier, such as `unix`.
    Flag(String),
    /// An identifier with a string value, such as `feature = "std"`.
    KeyValue { key: String, value: String },
    /// A longer path, by the names of its segments.
    Path(Vec<String>),
}

/// What parsing an attribute's argument list entry by entry gave.
#[derive(Debug)]
pub struct NestedMeta {
    /// The entries read before the parser stopped.
    pub entries: Vec<MetaEntry>,
    /// Whether the parser reached the end of the list without an error.
    pub complete: bool,
}

/// The value of a `name = value` attribute.
#[derive(Debug)]
pub enum AttributeValue {
    /// A string literal, by its value.
    Str(String),
    Other,
}

/// The shape of an attribute after its path.
#[derive(Debug)]
pub enum AttributeMeta {
    /// `#[name]`
    Path,
    /// `#[name(tokens)]`, with the tokens as text and as nested entries.
    List { tokens: String, nested: NestedMeta },
    /// `#[name = value]`
    NameValue(AttributeValue),
}

/// An attribute of a declaration. Documentation comments are attributes
/// named `doc` with a string value.
#[derive(Debug)]
pub struct Attribute {
    /// The attribute's name, where its path is a single plain identifier.
    pub ident: Option<String>,
    pub meta: AttributeMeta,
}

/// A field of a struct, a union or an enum variant.
#[derive(Debug)]
pub struct Field {
    pub vis: Visibility,
    pub ident: Option<String>,
    pub ty: TypeExpr,
}

/// The fields of a struct or of an enum variant.
#[derive(Debug)]
pub enum Fields {
    Named(Vec<Field>),
    Unnamed(Vec<Field>),
    Unit,
}

/// A variant of an enum.
#[derive(Debug)]
pub struct Variant {
    pub attrs: Vec<Attribute>,
    pub ident: String,
    pub fields: Fields,
}

/// An item inside a trait.
#[derive(Debug)]
pub enum TraitItem {
    Fn(Signature),
    Type(String),
    Const { ident: String, ty: TypeExpr },
    Other,
}

/// An item inside an implementation block.
#[derive(Debug)]
pub enum ImplItem {
    Fn { vis: Visibility, sig: Signature },
    Const { vis: Visibility, ident: String },
    Type { vis: Visibility, ident: String },
    Other,
}

/// An item inside an `extern` block.
#[derive(Debug)]
pub enum ForeignItem {
    Fn { attrs: Vec<Attribute>, vis: Visibility, sig: Signature },
    Other,
}

/// The tree of a `use` declaration.
#[derive(Debug)]
pub enum UseTree {
    /// `ident::tree`
    Path { ident: String, tree: Box<UseTree> },
    Name(String),
    /// `ident as rename`
    Rename { ident: String, rename: String },
    Glob,
    /// `{a, b}`
    Group(Vec<UseTree>),
}

/// A free function.
#[derive(Debug)]
pub struct ItemFn {
    pub attrs: Vec<Attribute>,
    pub vis: Visibility,
    pub sig: Signature,
}

/// A struct.
#[derive(Debug)]
pub struct ItemStruct {
    pub attrs: Vec<Attribute>,
    pub vis: Visibility,
    pub ident: String,
    pub generics: Generics,
    pub fields: Fields,
}

/// An enum.
#[derive(Debug)]
pub struct ItemEnum {
    pub attrs: Vec<Attribute>,
    pub vis: Visibility,
    pub ident: String,
    pub generics: Generics,
    pub variants: Vec<Variant>,
}

/// A trait.
#[derive(Debug)]
pub struct ItemTrait {
    pub attrs: Vec<Attribute>,
    pub vis: Visibility,
    pub ident: String,
    pub generics: Generics,
    pub supertraits: Vec<Bound>,
    pub items: Vec<TraitItem>,
}

/// A module; `content` is `None` for `mod name;`.
#[derive(Debug)]
pub struct ItemMod {
    pub vis: Visibility,
    pub ident: String,
    pub content: Option<Vec<Item>>,
}

/// A constant.
#[derive(Debug)]
pub struct ItemConst {
    pub attrs: Vec<Attribute>,
    pub vis: Visibility,
    pub ident: String,
    pub ty: TypeExpr,
}

/// A static.
#[derive(Debug)]
pub struct ItemStatic {
    pub attrs: Vec<Attribute>,
    pub vis: Visibility,
    pub mutable: bool,
    pub ident: String,
    pub ty: TypeExpr,
}

/// A type alias.
#[derive(Debug)]
pub struct ItemType {
    pub attrs: Vec<Attribute>,
    pub vis: Visibility,
    pub ident: String,
    pub generics: Generics,
    pub ty: TypeExpr,
}

/// An implementation block; `trait_path` is the implemented trait, if any.
#[derive(Debug)]
pub struct ItemImpl {
    pub attrs: Vec<Attribute>,
    pub generics: Generics,
    pub trait_path: Option<Vec<PathSegment>>,
    pub self_ty: TypeExpr,
    pub items: Vec<ImplItem>,
}

/// A `use` declaration.
#[derive(Debug)]
pub struct ItemUse {
    pub attrs: Vec<Attribute>,
    pub vis: Visibility,
    pub tree: UseTree,
}

/// A macro invocation in item position; `ident` is the name that
/// `macro_rules!` defines.
#[derive(Debug)]
pub struct ItemMacro {
    pub attrs: Vec<Attribute>,
    pub ident: Option<String>,
}

/// An `extern crate` declaration.
#[derive(Debug)]
pub struct ItemExternCrate {
    pub attrs: Vec<Attribute>,
    pub vis: Visibility,
    pub ident: String,
}

/// An `extern` block.
#[derive(Debug)]
pub struct ItemForeignMod {
    pub abi: Abi,
    pub items: Vec<ForeignItem>,
}

/// A union.
#[derive(Debug)]
pub struct ItemUnion {
    pub attrs: Vec<Attribute>,
    pub vis: Visibility,
    pub ident: String,
    pub generics: Generics,
    pub fields: Vec<Field>,
}

/// A trait alias.
#[derive(Debug)]
pub struct ItemTraitAlias {
    pub attrs: Vec<Attribute>,
    pub vis: Visibility,
    pub ident: String,
    pub generics: Generics,
    pub bounds: Vec<Bound>,
}

/// A declaration at the top level of a file or of a module.
#[derive(Debug)]
pub enum Item {
    Fn(ItemFn),
    Struct(ItemStruct),
    Enum(ItemEnum),
    Trait(ItemTrait),
    Mod(ItemMod),
    Const(ItemConst),
    Static(ItemStatic),
    Type(ItemType),
    Impl(ItemImpl),
    Use(ItemUse),
    Macro(ItemMacro),
    ExternCrate(ItemExternCrate),
    ForeignMod(ItemForeignMod),
    Union(ItemUnion),
    TraitAlias(ItemTraitAlias),
    Other,
}

/// A parsed source file.
#[derive(Debug)]
pub struct SourceFile {
    pub items: Vec<Item>,
}

impl Visibility {
    /// Whether the marker is a plain `pub`.
    pub open spec fn is_public(&self) -> bool {
        self is Public
    }
}

} // verus!
