//! The complete rendering of one declaration: a heading, the declaration's
//! code between fences, and its documentation.

use vstd::prelude::*;
use vstd::string::*;
use crate::attributes::{
    cfg_conditions,
    contains_attribute,
    derives,
    docs_text,
    extract_cfg_attributes,
    extract_derives,
    has_attribute,
};
use crate::signature::{
    bounds_text,
    extract_where_clause,
    format_function_signature,
    format_generic_params_plain,
    format_generic_params_simple,
    format_trait_bounds,
    format_use_tree,
    generic_names_text,
    generics_plain_text,
    signature_text,
    use_tree_text,
    where_clause_text,
};
use crate::syntax::{
    Abi,
    Attribute,
    Field,
    Fields,
    GenericParam,
    ImplItem,
    ItemConst,
    ItemEnum,
    ItemExternCrate,
    ItemFn,
    ItemImpl,
    ItemStatic,
    ItemStruct,
    ItemTrait,
    ItemTraitAlias,
    ItemType,
    ItemUnion,
    ItemUse,
    PathSegment,
    Signature,
    TraitItem,
    TypeExpr,
    Variant,
    WherePredicate,
};
use crate::text::{join, join_strings, replace_all, replace_str, same_text, views};
use crate::types::{
    extract_path_with_generics,
    extract_type_name,
    format_segment_names,
    path_text,
    segment_names_text,
    type_text,
};

verus! {

/// The path of the enclosing modules, each followed by `::`.
pub open spec fn mod_prefix(current_mod: Seq<String>) -> Seq<char> {
    if current_mod.len() == 0 {
        ""@
    } else {
        join(views(current_mod), "::"@) + "::"@
    }
}

/// A declaration in the complete document: its title as a third-level
/// heading, its code between fences, then its documentation.
pub open spec fn declaration_text(title: Seq<char>, code: Seq<char>, attrs: Seq<Attribute>) -> Seq<
    char,
> {
    "### "@ + title + "\n\n"@ + "```rust\n"@ + code + "\n```\n\n"@ + docs_text(attrs)
}

/// The generic parameters of a type declaration between angle brackets;
/// empty where there are none.
pub open spec fn generics_angle(params: Seq<GenericParam>) -> Seq<char> {
    if params.len() == 0 {
        ""@
    } else {
        "<"@ + generics_plain_text(params) + ">"@
    }
}

/// The names of the generic parameters between angle brackets; empty where
/// there are none.
pub open spec fn generic_names_angle(params: Seq<GenericParam>) -> Seq<char> {
    if params.len() == 0 {
        ""@
    } else {
        "<"@ + generic_names_text(params) + ">"@
    }
}

/// An attribute line made of `values`; empty where there are none.
pub open spec fn attribute_line(open: Seq<char>, values: Seq<Seq<char>>, close: Seq<char>) -> Seq<
    char,
> {
    if values.len() == 0 {
        ""@
    } else {
        open + join(values, ", "@) + close
    }
}

/// The `derive` line and the `cfg` line that precede a struct or an enum.
pub open spec fn attribute_lines(attrs: Seq<Attribute>) -> Seq<char> {
    attribute_line("#[derive("@, derives(attrs), ")]\n"@) + attribute_line(
        "#[cfg("@,
        cfg_conditions(attrs),
        ")]\n"@,
    )
}

/// The type that an implementation block is for: the names of its path,
/// or `Unknown` for a type that is no path.
pub open spec fn impl_type_text(ty: &TypeExpr) -> Seq<char> {
    match ty {
        TypeExpr::Path(segments) => segment_names_text(segments@),
        _ => "Unknown"@,
    }
}

/// Whether the signature names the ABI `C`.
pub open spec fn is_extern_c(sig: &Signature) -> bool {
    match &sig.abi {
        Some(abi) => match &abi.name {
            Some(name) => name@ == "C"@,
            None => false,
        },
        None => false,
    }
}

/// The name of an ABI, `C` where none is written.
pub open spec fn abi_name(abi: &Abi) -> Seq<char> {
    match &abi.name {
        Some(name) => name@,
        None => "C"@,
    }
}

/// The code of a function: its public signature. A function of the ABI
/// `C` is written `pub extern "C" fn`, after `#[no_mangle]` if it has
/// that attribute.
pub open spec fn fn_code(node: &ItemFn) -> Seq<char> {
    if is_extern_c(&node.sig) {
        (if has_attribute(node.attrs@, "no_mangle"@) {
            "#[no_mangle]\n"@
        } else {
            ""@
        }) + replace_all(signature_text(&node.sig, true, ""@), "pub fn"@, "pub extern \"C\" fn"@)
    } else {
        signature_text(&node.sig, true, ""@)
    }
}

/// The line of a named field, if it is public.
pub open spec fn public_field_line(field: &Field) -> Seq<char> {
    match &field.ident {
        Some(ident) => if field.vis.is_public() {
            "    pub "@ + ident@ + ": "@ + type_text(&field.ty) + ",\n"@
        } else {
            ""@
        },
        None => ""@,
    }
}

/// The lines of the public fields among `fields`.
pub open spec fn public_field_lines(fields: Seq<Field>) -> Seq<char>
    decreases fields.len(),
{
    if fields.len() == 0 {
        ""@
    } else {
        public_field_lines(fields.drop_last()) + public_field_line(&fields.last())
    }
}

/// The public positional fields among `fields`, each as `pub Type`.
pub open spec fn public_tuple_fields(fields: Seq<Field>) -> Seq<Seq<char>>
    decreases fields.len(),
{
    if fields.len() == 0 {
        Seq::empty()
    } else {
        let before = public_tuple_fields(fields.drop_last());
        if fields.last().vis.is_public() {
            before.push("pub "@ + type_text(&fields.last().ty))
        } else {
            before
        }
    }
}

/// The fields of a struct after its name: the public named fields between
/// braces, one per line; the public positional fields between
/// parentheses; or a semicolon for a unit struct.
pub open spec fn struct_fields_text(fields: &Fields) -> Seq<char> {
    match fields {
        Fields::Named(named) => " {\n"@ + public_field_lines(named@) + "}"@,
        Fields::Unnamed(unnamed) => "("@ + join(public_tuple_fields(unnamed@), ", "@) + ");"@,
        Fields::Unit => ";"@,
    }
}

/// The code of a struct.
pub open spec fn struct_code(node: &ItemStruct) -> Seq<char> {
    attribute_lines(node.attrs@) + "pub struct "@ + node.ident@ + generics_angle(
        node.generics.params@,
    ) + struct_fields_text(&node.fields)
}

/// The named fields of a variant, each as ` name: Type`, a public one
/// with `pub` before its name.
pub open spec fn variant_named_fields(fields: Seq<Field>) -> Seq<Seq<char>>
    decreases fields.len(),
{
    if fields.len() == 0 {
        Seq::empty()
    } else {
        let before = variant_named_fields(fields.drop_last());
        let field = fields.last();
        match &field.ident {
            Some(ident) => before.push(
                (if field.vis.is_public() {
                    " pub "@
                } else {
                    " "@
                }) + ident@ + ": "@ + type_text(&field.ty),
            ),
            None => before,
        }
    }
}

/// The type of each field.
pub open spec fn field_types(fields: Seq<Field>) -> Seq<Seq<char>> {
    Seq::new(fields.len(), |i: int| type_text(&fields[i].ty))
}

/// Whether every text in `texts` is `Unknown`.
pub open spec fn all_unknown(texts: Seq<Seq<char>>) -> bool {
    forall|i: int| 0 <= i < texts.len() ==> texts[i] == "Unknown"@
}

/// The fields of a variant after its name. Positional fields are written
/// by their types, or as `..` where none of the types can be written.
pub open spec fn variant_fields_text(fields: &Fields) -> Seq<char> {
    match fields {
        Fields::Named(named) => " {"@ + (if variant_named_fields(named@).len() == 0 {
            ""@
        } else {
            join(variant_named_fields(named@), ","@) + " "@
        }) + "}"@,
        Fields::Unnamed(unnamed) => "("@ + (if all_unknown(field_types(unnamed@)) {
            ".."@
        } else {
            join(field_types(unnamed@), ", "@)
        }) + ")"@,
        Fields::Unit => ""@,
    }
}

/// A variant: its `cfg` line if it has one, its name and its fields.
pub open spec fn variant_text(variant: &Variant) -> Seq<char> {
    (if cfg_conditions(variant.attrs@).len() == 0 {
        "    "@
    } else {
        "    #[cfg("@ + join(cfg_conditions(variant.attrs@), ", "@) + ")]\n    "@
    }) + variant.ident@ + variant_fields_text(&variant.fields)
}

/// The variants of an enum, one per line, each followed by a comma.
pub open spec fn variant_lines(variants: Seq<Variant>) -> Seq<char>
    decreases variants.len(),
{
    if variants.len() == 0 {
        ""@
    } else {
        variant_lines(variants.drop_last()) + (variant_text(&variants.last()) + ",\n"@)
    }
}

/// The code of an enum.
pub open spec fn enum_code(node: &ItemEnum) -> Seq<char> {
    attribute_lines(node.attrs@) + "pub enum "@ + node.ident@ + generics_angle(
        node.generics.params@,
    ) + " {\n"@ + variant_lines(node.variants@) + "}"@
}


/// The line of one trait item: a method's signature, an associated type
/// or an associated constant.
pub open spec fn trait_item_line(item: &TraitItem) -> Seq<char> {
    match item {
        TraitItem::Fn(sig) => "\n    "@ + signature_text(sig, false, "    "@) + ";"@,
        TraitItem::Type(ident) => "\n    type "@ + ident@ + ";"@,
        TraitItem::Const { ident, ty } => "\n    const "@ + ident@ + ": "@ + type_text(ty) + ";"@,
        TraitItem::Other => ""@,
    }
}

/// The lines of the items of a trait, in order.
pub open spec fn trait_item_lines(items: Seq<TraitItem>) -> Seq<char>
    decreases items.len(),
{
    if items.len() == 0 {
        ""@
    } else {
        trait_item_lines(items.drop_last()) + trait_item_line(&items.last())
    }
}

/// The code of a trait: its name, its generic parameters, its
/// supertraits joined by ` + ` (a lifetime with its apostrophe), and its
/// items between braces.
pub open spec fn trait_code(node: &ItemTrait) -> Seq<char> {
    "pub trait "@ + node.ident@ + generics_angle(node.generics.params@) + (if node.supertraits@.len()
        == 0 {
        ""@
    } else {
        ": "@ + bounds_text(node.supertraits@, "Unknown"@)
    }) + " {"@ + trait_item_lines(node.items@) + "\n}"@
}

/// The code of a constant: its name and type, without its value.
pub open spec fn const_code(node: &ItemConst) -> Seq<char> {
    "pub const "@ + node.ident@ + ": "@ + type_text(&node.ty)
}

/// The code of a static: its name and type, without its value.
pub open spec fn static_code(node: &ItemStatic) -> Seq<char> {
    "pub static "@ + (if node.mutable {
        "mut "@
    } else {
        ""@
    }) + node.ident@ + ": "@ + type_text(&node.ty)
}

/// The `where` clause after a type alias or a trait alias.
pub open spec fn alias_where_text(where_clause: Option<Vec<WherePredicate>>) -> Seq<char> {
    match where_clause {
        Some(predicates) => if where_clause_text(predicates@).len() == 0 {
            ""@
        } else {
            "\nwhere\n    "@ + where_clause_text(predicates@)
        },
        None => ""@,
    }
}

/// The code of a type alias.
pub open spec fn type_code(node: &ItemType) -> Seq<char> {
    "pub type "@ + node.ident@ + generics_angle(node.generics.params@) + " = "@ + type_text(
        &node.ty,
    ) + alias_where_text(node.generics.where_clause)
}

/// What an implementation block is titled and opened with after `impl`:
/// the trait with its generic arguments and `for`, where it implements one.
pub open spec fn impl_trait_text(trait_path: Option<Vec<PathSegment>>) -> Seq<char> {
    match trait_path {
        Some(path) => path_text(path@) + " for "@,
        None => ""@,
    }
}

/// The title of an implementation block.
pub open spec fn impl_title(node: &ItemImpl, current_mod: Seq<String>) -> Seq<char> {
    "impl "@ + impl_trait_text(node.trait_path) + mod_prefix(current_mod) + impl_type_text(
        &node.self_ty,
    )
}

/// The line of one item of an implementation block, if it is public. The
/// type of an associated constant is written `Type`.
pub open spec fn impl_item_line(item: &ImplItem) -> Seq<char> {
    match item {
        ImplItem::Fn { vis, sig } => if vis.is_public() {
            "\n    "@ + signature_text(sig, true, "    "@) + ";"@
        } else {
            ""@
        },
        ImplItem::Const { vis, ident } => if vis.is_public() {
            "\n    pub const "@ + ident@ + ": Type;"@
        } else {
            ""@
        },
        ImplItem::Type { vis, ident } => if vis.is_public() {
            "\n    pub type "@ + ident@ + ";"@
        } else {
            ""@
        },
        ImplItem::Other => ""@,
    }
}

/// The lines of the public items of an implementation block, in order.
pub open spec fn impl_item_lines(items: Seq<ImplItem>) -> Seq<char>
    decreases items.len(),
{
    if items.len() == 0 {
        ""@
    } else {
        impl_item_lines(items.drop_last()) + impl_item_line(&items.last())
    }
}

/// The code of an implementation block.
pub open spec fn impl_code(node: &ItemImpl) -> Seq<char> {
    (if node.generics.params@.len() == 0 {
        "impl "@
    } else {
        "impl<"@ + generics_plain_text(node.generics.params@) + "> "@
    }) + impl_trait_text(node.trait_path) + impl_type_text(&node.self_ty) + " {"@
        + impl_item_lines(node.items@) + "\n}"@
}

/// The code of a re-export.
pub open spec fn use_code(node: &ItemUse) -> Seq<char> {
    "pub use "@ + use_tree_text(&node.tree) + ";"@
}

/// The code of a macro: a stub with the macro's name.
pub open spec fn macro_code(ident: Seq<char>) -> Seq<char> {
    "macro_rules! "@ + ident + " {\n    // macro definition\n}"@
}

/// The code of an `extern crate` declaration.
pub open spec fn extern_crate_code(node: &ItemExternCrate) -> Seq<char> {
    "pub extern crate "@ + node.ident@ + ";"@
}

/// The code of a foreign function: its signature inside an `extern` block
/// of its ABI.
pub open spec fn foreign_fn_code(abi: &Abi, sig: &Signature) -> Seq<char> {
    "extern \""@ + abi_name(abi) + "\" {\n"@ + "    "@ + signature_text(sig, true, ""@) + ";\n"@
        + "}"@
}

/// The line of a field of a union.
pub open spec fn union_field_line(field: &Field) -> Seq<char> {
    match &field.ident {
        Some(ident) => "    pub "@ + ident@ + ": "@ + type_text(&field.ty) + ",\n"@,
        None => ""@,
    }
}

/// The lines of the fields of a union, in order.
pub open spec fn union_field_lines(fields: Seq<Field>) -> Seq<char>
    decreases fields.len(),
{
    if fields.len() == 0 {
        ""@
    } else {
        union_field_lines(fields.drop_last()) + union_field_line(&fields.last())
    }
}

/// The code of a union.
pub open spec fn union_code(node: &ItemUnion) -> Seq<char> {
    attribute_line("#["@, cfg_conditions(node.attrs@), "]\n"@) + "pub union "@ + node.ident@
        + generic_names_angle(node.generics.params@) + " {\n"@ + union_field_lines(node.fields@)
        + "}"@
}

/// The code of a trait alias.
pub open spec fn trait_alias_code(node: &ItemTraitAlias) -> Seq<char> {
    "pub trait "@ + node.ident@ + generic_names_angle(node.generics.params@) + " = "@
        + bounds_text(node.bounds@, "Unknown"@) + alias_where_text(node.generics.where_clause)
        + ";"@
}

/// Writes the path of the enclosing modules, each followed by `::`.
pub fn format_mod_prefix(current_mod: &Vec<String>) -> (out: String)
    ensures
        out@ == mod_prefix(current_mod@),
{
    if current_mod.len() == 0 {
        String::from_str("")
    } else {
        let mut out = join_strings(current_mod, "::");
        out.append("::");
        out
    }
}

/// Writes the generic parameters of a type declaration between angle brackets.
pub fn format_generics_angle(params: &Vec<GenericParam>) -> (out: String)
    ensures
        out@ == generics_angle(params@),
{
    if params.len() == 0 {
        String::from_str("")
    } else {
        let mut out = String::from_str("<");
        let inner = format_generic_params_plain(params);
        out.append(inner.as_str());
        out.append(">");
        out
    }
}

/// Writes the names of the generic parameters between angle brackets.
pub fn format_generic_names_angle(params: &Vec<GenericParam>) -> (out: String)
    ensures
        out@ == generic_names_angle(params@),
{
    if params.len() == 0 {
        String::from_str("")
    } else {
        let mut out = String::from_str("<");
        let inner = format_generic_params_simple(params);
        out.append(inner.as_str());
        out.append(">");
        out
    }
}

/// Writes an attribute line made of `values`.
pub fn format_attribute_line(open: &str, values: &Vec<String>, close: &str) -> (out: String)
    ensures
        out@ == attribute_line(open@, views(values@), close@),
{
    if values.len() == 0 {
        String::from_str("")
    } else {
        let mut out = String::from_str(open);
        let inner = join_strings(values, ", ");
        out.append(inner.as_str());
        out.append(close);
        out
    }
}

/// Writes the `derive` line and the `cfg` line of a struct or an enum.
pub fn format_attribute_lines(attrs: &Vec<Attribute>) -> (out: String)
    ensures
        out@ == attribute_lines(attrs@),
{
    let derive_names = extract_derives(attrs);
    let mut out = format_attribute_line("#[derive(", &derive_names, ")]\n");
    let conditions = extract_cfg_attributes(attrs);
    let cfg_line = format_attribute_line("#[cfg(", &conditions, ")]\n");
    out.append(cfg_line.as_str());
    out
}

/// Writes the type that an implementation block is for.
pub fn format_impl_type(ty: &TypeExpr) -> (out: String)
    ensures
        out@ == impl_type_text(ty),
{
    match ty {
        TypeExpr::Path(segments) => format_segment_names(segments),
        _ => String::from_str("Unknown"),
    }
}

/// Whether the signature names the ABI `C`.
pub fn has_extern_c_abi(sig: &Signature) -> (found: bool)
    ensures
        found == is_extern_c(sig),
{
    match &sig.abi {
        Some(abi) => match &abi.name {
            Some(name) => same_text(name.as_str(), "C"),
            None => false,
        },
        None => false,
    }
}

/// Writes the name of an ABI.
pub fn format_abi_name(abi: &Abi) -> (out: String)
    ensures
        out@ == abi_name(abi),
{
    match &abi.name {
        Some(name) => name.clone(),
        None => String::from_str("C"),
    }
}

/// Writes the code of a function.
pub fn format_fn_code(node: &ItemFn) -> (out: String)
    ensures
        out@ == fn_code(node),
{
    let sig = format_function_signature(&node.sig, true, "");
    if has_extern_c_abi(&node.sig) {
        let mut out = String::from_str(
            if contains_attribute(&node.attrs, "no_mangle") {
                "#[no_mangle]\n"
            } else {
                ""
            },
        );
        let extern_sig = replace_str(sig.as_str(), "pub fn", "pub extern \"C\" fn");
        out.append(extern_sig.as_str());
        out
    } else {
        sig
    }
}

/// Writes the fields of a struct after its name.
pub fn format_struct_fields(fields: &Fields) -> (out: String)
    ensures
        out@ == struct_fields_text(fields),
{
    match fields {
        Fields::Named(named) => {
            let mut lines = String::from_str("");
            let mut i: usize = 0;
            while i < named.len()
                invariant
                    i <= named.len(),
                    lines@ == public_field_lines(named@.take(i as int)),
                decreases named.len() - i,
            {
                let field = &named[i];
                assert(named@.take(i + 1).drop_last() =~= named@.take(i as int));
                let mut line = String::from_str("");
                if let Some(ident) = &field.ident {
                    if is_public(&field.vis) {
                        line = String::from_str("    pub ");
                        line.append(ident.as_str());
                        line.append(": ");
                        let ty = extract_type_name(&field.ty);
                        line.append(ty.as_str());
                        line.append(",\n");
                    }
                }
                lines.append(line.as_str());
                i += 1;
            }
            assert(named@.take(named.len() as int) =~= named@);
            let mut out = String::from_str(" {\n");
            out.append(lines.as_str());
            out.append("}");
            out
        },
        Fields::Unnamed(unnamed) => {
            let mut parts: Vec<String> = Vec::new();
            let mut i: usize = 0;
            while i < unnamed.len()
                invariant
                    i <= unnamed.len(),
                    views(parts@) == public_tuple_fields(unnamed@.take(i as int)),
                decreases unnamed.len() - i,
            {
                let field = &unnamed[i];
                assert(unnamed@.take(i + 1).drop_last() =~= unnamed@.take(i as int));
                if is_public(&field.vis) {
                    let mut part = String::from_str("pub ");
                    let ty = extract_type_name(&field.ty);
                    part.append(ty.as_str());
                    parts.push(part);
                }
                i += 1;
            }
            assert(unnamed@.take(unnamed.len() as int) =~= unnamed@);
            let mut out = String::from_str("(");
            let inner = join_strings(&parts, ", ");
            out.append(inner.as_str());
            out.append(");");
            out
        },
        Fields::Unit => String::from_str(";"),
    }
}

/// Whether the marker is a plain `pub`.
pub fn is_public(vis: &crate::syntax::Visibility) -> (public: bool)
    ensures
        public == vis.is_public(),
{
    match vis {
        crate::syntax::Visibility::Public => true,
        _ => false,
    }
}

/// Writes the code of a struct.
pub fn format_struct_code(node: &ItemStruct) -> (out: String)
    ensures
        out@ == struct_code(node),
{
    let mut out = format_attribute_lines(&node.attrs);
    out.append("pub struct ");
    out.append(node.ident.as_str());
    let generics = format_generics_angle(&node.generics.params);
    out.append(generics.as_str());
    let fields = format_struct_fields(&node.fields);
    out.append(fields.as_str());
    out
}

/// Writes the fields of a variant after its name.
pub fn format_variant_fields(fields: &Fields) -> (out: String)
    ensures
        out@ == variant_fields_text(fields),
{
    match fields {
        Fields::Named(named) => {
            let mut parts: Vec<String> = Vec::new();
            let mut i: usize = 0;
            while i < named.len()
                invariant
                    i <= named.len(),
                    views(parts@) == variant_named_fields(named@.take(i as int)),
                decreases named.len() - i,
            {
                let field = &named[i];
                assert(named@.take(i + 1).drop_last() =~= named@.take(i as int));
                if let Some(ident) = &field.ident {
                    let mut part = String::from_str(
                        if is_public(&field.vis) {
                            " pub "
                        } else {
                            " "
                        },
                    );
                    part.append(ident.as_str());
                    part.append(": ");
                    let ty = extract_type_name(&field.ty);
                    part.append(ty.as_str());
                    parts.push(part);
                }
                i += 1;
            }
            assert(named@.take(named.len() as int) =~= named@);
            let mut inner = String::from_str("");
            if parts.len() > 0 {
                inner = join_strings(&parts, ",");
                inner.append(" ");
            }
            let mut out = String::from_str(" {");
            out.append(inner.as_str());
            out.append("}");
            out
        },
        Fields::Unnamed(unnamed) => {
            let mut parts: Vec<String> = Vec::new();
            let mut unknown: bool = true;
            let mut i: usize = 0;
            while i < unnamed.len()
                invariant
                    i <= unnamed.len(),
                    parts@.len() == i,
                    forall|j: int| 0 <= j < i ==> parts@[j]@ == type_text(&unnamed@[j].ty),
                    unknown == (forall|j: int|
                        0 <= j < i ==> #[trigger] type_text(&unnamed@[j].ty) == "Unknown"@),
                decreases unnamed.len() - i,
            {
                let ty = extract_type_name(&unnamed[i].ty);
                if !same_text(ty.as_str(), "Unknown") {
                    unknown = false;
                }
                parts.push(ty);
                i += 1;
            }
            assert(views(parts@) =~= field_types(unnamed@));
            assert(unknown == all_unknown(field_types(unnamed@))) by {
                if !unknown {
                    let j = choose|j: int|
                        0 <= j < unnamed@.len() && #[trigger] type_text(&unnamed@[j].ty)
                            != "Unknown"@;
                    assert(field_types(unnamed@)[j] != "Unknown"@);
                }
            }
            let mut out = String::from_str("(");
            let inner = if unknown {
                String::from_str("..")
            } else {
                join_strings(&parts, ", ")
            };
            out.append(inner.as_str());
            out.append(")");
            out
        },
        Fields::Unit => String::from_str(""),
    }
}

/// Writes a variant of an enum.
pub fn format_variant(variant: &Variant) -> (out: String)
    ensures
        out@ == variant_text(variant),
{
    let conditions = extract_cfg_attributes(&variant.attrs);
    let mut out = String::from_str("    ");
    if conditions.len() > 0 {
        out = String::from_str("    #[cfg(");
        let inner = join_strings(&conditions, ", ");
        out.append(inner.as_str());
        out.append(")]\n    ");
    }
    out.append(variant.ident.as_str());
    let fields = format_variant_fields(&variant.fields);
    out.append(fields.as_str());
    out
}

/// Writes the code of an enum.
pub fn format_enum_code(node: &ItemEnum) -> (out: String)
    ensures
        out@ == enum_code(node),
{
    let mut lines = String::from_str("");
    let mut i: usize = 0;
    while i < node.variants.len()
        invariant
            i <= node.variants.len(),
            lines@ == variant_lines(node.variants@.take(i as int)),
        decreases node.variants.len() - i,
    {
        assert(node.variants@.take(i + 1).drop_last() =~= node.variants@.take(i as int));
        let mut line = format_variant(&node.variants[i]);
        line.append(",\n");
        lines.append(line.as_str());
        i += 1;
    }
    assert(node.variants@.take(node.variants.len() as int) =~= node.variants@);
    let mut out = format_attribute_lines(&node.attrs);
    out.append("pub enum ");
    out.append(node.ident.as_str());
    let generics = format_generics_angle(&node.generics.params);
    out.append(generics.as_str());
    out.append(" {\n");
    out.append(lines.as_str());
    out.append("}");
    out
}

/// Writes the line of one trait item.
pub fn format_trait_item(item: &TraitItem) -> (out: String)
    ensures
        out@ == trait_item_line(item),
{
    match item {
        TraitItem::Fn(sig) => {
            let mut out = String::from_str("\n    ");
            let text = format_function_signature(sig, false, "    ");
            out.append(text.as_str());
            out.append(";");
            out
        },
        TraitItem::Type(ident) => {
            let mut out = String::from_str("\n    type ");
            out.append(ident.as_str());
            out.append(";");
            out
        },
        TraitItem::Const { ident, ty } => {
            let mut out = String::from_str("\n    const ");
            out.append(ident.as_str());
            out.append(": ");
            let text = extract_type_name(ty);
            out.append(text.as_str());
            out.append(";");
            out
        },
        TraitItem::Other => String::from_str(""),
    }
}

/// Writes the code of a trait.
pub fn format_trait_code(node: &ItemTrait) -> (out: String)
    ensures
        out@ == trait_code(node),
{
    let mut supertraits = String::from_str("");
    if node.supertraits.len() > 0 {
        supertraits = String::from_str(": ");
        let inner = format_trait_bounds(&node.supertraits);
        supertraits.append(inner.as_str());
    }
    let mut lines = String::from_str("");
    let mut i: usize = 0;
    while i < node.items.len()
        invariant
            i <= node.items.len(),
            lines@ == trait_item_lines(node.items@.take(i as int)),
        decreases node.items.len() - i,
    {
        assert(node.items@.take(i + 1).drop_last() =~= node.items@.take(i as int));
        let line = format_trait_item(&node.items[i]);
        lines.append(line.as_str());
        i += 1;
    }
    assert(node.items@.take(node.items.len() as int) =~= node.items@);
    let mut out = String::from_str("pub trait ");
    out.append(node.ident.as_str());
    let generics = format_generics_angle(&node.generics.params);
    out.append(generics.as_str());
    out.append(supertraits.as_str());
    out.append(" {");
    out.append(lines.as_str());
    out.append("\n}");
    out
}

/// Writes the code of a constant.
pub fn format_const_code(node: &ItemConst) -> (out: String)
    ensures
        out@ == const_code(node),
{
    let mut out = String::from_str("pub const ");
    out.append(node.ident.as_str());
    out.append(": ");
    let ty = extract_type_name(&node.ty);
    out.append(ty.as_str());
    out
}

/// Writes the code of a static.
pub fn format_static_code(node: &ItemStatic) -> (out: String)
    ensures
        out@ == static_code(node),
{
    let mut out = String::from_str("pub static ");
    out.append(
        if node.mutable {
            "mut "
        } else {
            ""
        },
    );
    out.append(node.ident.as_str());
    out.append(": ");
    let ty = extract_type_name(&node.ty);
    out.append(ty.as_str());
    out
}

/// Writes the `where` clause after a type alias or a trait alias.
pub fn format_alias_where(where_clause: &Option<Vec<WherePredicate>>) -> (out: String)
    ensures
        out@ == alias_where_text(*where_clause),
{
    match where_clause {
        Some(predicates) => {
            let text = extract_where_clause(predicates);
            if text.as_str().is_empty() {
                String::from_str("")
            } else {
                let mut out = String::from_str("\nwhere\n    ");
                out.append(text.as_str());
                out
            }
        },
        None => String::from_str(""),
    }
}

/// Writes the code of a type alias.
pub fn format_type_code(node: &ItemType) -> (out: String)
    ensures
        out@ == type_code(node),
{
    let mut out = String::from_str("pub type ");
    out.append(node.ident.as_str());
    let generics = format_generics_angle(&node.generics.params);
    out.append(generics.as_str());
    out.append(" = ");
    let ty = extract_type_name(&node.ty);
    out.append(ty.as_str());
    let tail = format_alias_where(&node.generics.where_clause);
    out.append(tail.as_str());
    out
}

/// Writes the implemented trait and `for`, where the block implements one.
pub fn format_impl_trait(trait_path: &Option<Vec<PathSegment>>) -> (out: String)
    ensures
        out@ == impl_trait_text(*trait_path),
{
    match trait_path {
        Some(path) => {
            let mut out = extract_path_with_generics(path);
            out.append(" for ");
            out
        },
        None => String::from_str(""),
    }
}

/// Writes the title of an implementation block.
pub fn format_impl_title(node: &ItemImpl, current_mod: &Vec<String>) -> (out: String)
    ensures
        out@ == impl_title(node, current_mod@),
{
    let mut out = String::from_str("impl ");
    let implemented = format_impl_trait(&node.trait_path);
    out.append(implemented.as_str());
    let prefix = format_mod_prefix(current_mod);
    out.append(prefix.as_str());
    let ty = format_impl_type(&node.self_ty);
    out.append(ty.as_str());
    out
}

/// Writes the line of one item of an implementation block.
pub fn format_impl_item(item: &ImplItem) -> (out: String)
    ensures
        out@ == impl_item_line(item),
{
    match item {
        ImplItem::Fn { vis, sig } => {
            if is_public(vis) {
                let mut out = String::from_str("\n    ");
                let text = format_function_signature(sig, true, "    ");
                out.append(text.as_str());
                out.append(";");
                out
            } else {
                String::from_str("")
            }
        },
        ImplItem::Const { vis, ident } => {
            if is_public(vis) {
                let mut out = String::from_str("\n    pub const ");
                out.append(ident.as_str());
                out.append(": Type;");
                out
            } else {
                String::from_str("")
            }
        },
        ImplItem::Type { vis, ident } => {
            if is_public(vis) {
                let mut out = String::from_str("\n    pub type ");
                out.append(ident.as_str());
                out.append(";");
                out
            } else {
                String::from_str("")
            }
        },
        ImplItem::Other => String::from_str(""),
    }
}

/// Writes the code of an implementation block.
pub fn format_impl_code(node: &ItemImpl) -> (out: String)
    ensures
        out@ == impl_code(node),
{
    let mut lines = String::from_str("");
    let mut i: usize = 0;
    while i < node.items.len()
        invariant
            i <= node.items.len(),
            lines@ == impl_item_lines(node.items@.take(i as int)),
        decreases node.items.len() - i,
    {
        assert(node.items@.take(i + 1).drop_last() =~= node.items@.take(i as int));
        let line = format_impl_item(&node.items[i]);
        lines.append(line.as_str());
        i += 1;
    }
    assert(node.items@.take(node.items.len() as int) =~= node.items@);
    let mut out = String::from_str("impl ");
    if node.generics.params.len() > 0 {
        out = String::from_str("impl<");
        let generics = format_generic_params_plain(&node.generics.params);
        out.append(generics.as_str());
        out.append("> ");
    }
    let implemented = format_impl_trait(&node.trait_path);
    out.append(implemented.as_str());
    let ty = format_impl_type(&node.self_ty);
    out.append(ty.as_str());
    out.append(" {");
    out.append(lines.as_str());
    out.append("\n}");
    out
}

/// Writes the code of a re-export.
pub fn format_use_code(node: &ItemUse) -> (out: String)
    ensures
        out@ == use_code(node),
{
    let mut out = String::from_str("pub use ");
    let tree = format_use_tree(&node.tree);
    out.append(tree.as_str());
    out.append(";");
    out
}

/// Writes the code of a macro.
pub fn format_macro_code(ident: &str) -> (out: String)
    ensures
        out@ == macro_code(ident@),
{
    let mut out = String::from_str("macro_rules! ");
    out.append(ident);
    out.append(" {\n    // macro definition\n}");
    out
}

/// Writes the code of an `extern crate` declaration.
pub fn format_extern_crate_code(node: &ItemExternCrate) -> (out: String)
    ensures
        out@ == extern_crate_code(node),
{
    let mut out = String::from_str("pub extern crate ");
    out.append(node.ident.as_str());
    out.append(";");
    out
}

/// Writes the code of a foreign function.
pub fn format_foreign_fn_code(abi: &Abi, sig: &Signature) -> (out: String)
    ensures
        out@ == foreign_fn_code(abi, sig),
{
    let mut out = String::from_str("extern \"");
    let name = format_abi_name(abi);
    out.append(name.as_str());
    out.append("\" {\n");
    out.append("    ");
    let text = format_function_signature(sig, true, "");
    out.append(text.as_str());
    out.append(";\n");
    out.append("}");
    out
}

/// Writes the code of a union.
pub fn format_union_code(node: &ItemUnion) -> (out: String)
    ensures
        out@ == union_code(node),
{
    let mut lines = String::from_str("");
    let mut i: usize = 0;
    while i < node.fields.len()
        invariant
            i <= node.fields.len(),
            lines@ == union_field_lines(node.fields@.take(i as int)),
        decreases node.fields.len() - i,
    {
        let field = &node.fields[i];
        assert(node.fields@.take(i + 1).drop_last() =~= node.fields@.take(i as int));
        let mut line = String::from_str("");
        if let Some(ident) = &field.ident {
            line = String::from_str("    pub ");
            line.append(ident.as_str());
            line.append(": ");
            let ty = extract_type_name(&field.ty);
            line.append(ty.as_str());
            line.append(",\n");
        }
        lines.append(line.as_str());
        i += 1;
    }
    assert(node.fields@.take(node.fields.len() as int) =~= node.fields@);
    let conditions = extract_cfg_attributes(&node.attrs);
    let mut out = format_attribute_line("#[", &conditions, "]\n");
    out.append("pub union ");
    out.append(node.ident.as_str());
    let generics = format_generic_names_angle(&node.generics.params);
    out.append(generics.as_str());
    out.append(" {\n");
    out.append(lines.as_str());
    out.append("}");
    out
}

/// Writes the code of a trait alias.
pub fn format_trait_alias_code(node: &ItemTraitAlias) -> (out: String)
    ensures
        out@ == trait_alias_code(node),
{
    let mut out = String::from_str("pub trait ");
    out.append(node.ident.as_str());
    let generics = format_generic_names_angle(&node.generics.params);
    out.append(generics.as_str());
    out.append(" = ");
    let bounds = format_trait_bounds(&node.bounds);
    out.append(bounds.as_str());
    let tail = format_alias_where(&node.generics.where_clause);
    out.append(tail.as_str());
    out.append(";");
    out
}

} // verus!
