//! The text of types and paths.

use vstd::prelude::*;
use vstd::string::*;
use crate::syntax::{ConstExpr, GenericArgument, PathArguments, PathSegment, TypeExpr};
use crate::text::{join, join_strings, views};

verus! {

/// Names joined by `::`.
pub open spec fn ident_path_text(names: Seq<String>) -> Seq<char> {
    join(views(names), "::"@)
}

/// A lifetime with its apostrophe.
pub open spec fn lifetime_text(ident: Seq<char>) -> Seq<char> {
    "'"@ + ident
}

/// The text of a type. Nested generic arguments are written out; a shape
/// that is not written structurally becomes `impl Trait`, `dyn Trait` or
/// `Unknown`, and the length of an array becomes `N`.
pub open spec fn type_text(ty: &TypeExpr) -> Seq<char>
    decreases ty,
{
    match ty {
        TypeExpr::Path(segments) => join(type_segment_texts(segments@), "::"@),
        TypeExpr::Reference { lifetime, mutable, elem } => "&"@ + (match lifetime {
            Some(name) => "'"@ + name@ + " "@,
            None => ""@,
        }) + (if *mutable {
            "mut "@
        } else {
            ""@
        }) + type_text(elem),
        TypeExpr::Slice(elem) => "["@ + type_text(elem) + "]"@,
        TypeExpr::Array(elem) => "["@ + type_text(elem) + "; N]"@,
        TypeExpr::Pointer { mutable, elem } => (if *mutable {
            "*mut "@
        } else {
            "*const "@
        }) + type_text(elem),
        TypeExpr::Tuple(elems) => "("@ + join(type_texts(elems@), ", "@) + ")"@,
        TypeExpr::ImplTrait => "impl Trait"@,
        TypeExpr::TraitObject => "dyn Trait"@,
        TypeExpr::Other => "Unknown"@,
    }
}

/// The text of each type in `elems`.
pub open spec fn type_texts(elems: Seq<TypeExpr>) -> Seq<Seq<char>>
    decreases elems,
{
    Seq::new(
        elems.len(),
        |i: int|
            if 0 <= i < elems.len() {
                type_text(&elems[i])
            } else {
                ""@
            },
    )
}

/// The text of each segment of a type's path.
pub open spec fn type_segment_texts(segments: Seq<PathSegment>) -> Seq<Seq<char>>
    decreases segments,
{
    Seq::new(
        segments.len(),
        |i: int|
            if 0 <= i < segments.len() {
                type_segment_text(&segments[i])
            } else {
                ""@
            },
    )
}

/// The text of each generic argument inside a type.
pub open spec fn type_argument_texts(args: Seq<GenericArgument>) -> Seq<Seq<char>>
    decreases args,
{
    Seq::new(
        args.len(),
        |i: int|
            if 0 <= i < args.len() {
                type_argument_text(&args[i])
            } else {
                ""@
            },
    )
}

/// One segment of a type's path: its name, then its arguments between
/// angle brackets if it has any, or `(..)` for parenthesized arguments.
pub open spec fn type_segment_text(segment: &PathSegment) -> Seq<char>
    decreases segment,
{
    segment.ident@ + (match &segment.arguments {
        PathArguments::Absent => ""@,
        PathArguments::AngleBracketed(args) => if args@.len() == 0 {
            ""@
        } else {
            "<"@ + join(type_argument_texts(args@), ", "@) + ">"@
        },
        PathArguments::Parenthesized => "(..)"@,
    })
}

/// One generic argument inside a type.
pub open spec fn type_argument_text(arg: &GenericArgument) -> Seq<char>
    decreases arg,
{
    match arg {
        GenericArgument::Type(ty) => type_text(ty),
        GenericArgument::Lifetime(name) => lifetime_text(name@),
        GenericArgument::Const(_) => "Const"@,
        GenericArgument::AssocType { ident, ty } => ident@ + " = "@ + type_text(ty),
        _ => "Unknown"@,
    }
}

/// A const generic argument in a trait path: literals by their value,
/// paths by their names, anything else as `Const`.
pub open spec fn const_expr_text(expr: &ConstExpr) -> Seq<char> {
    match expr {
        ConstExpr::Str(value) => "\""@ + value@ + "\""@,
        ConstExpr::Int(digits) => digits@,
        ConstExpr::Bool(value) => if *value {
            "true"@
        } else {
            "false"@
        },
        ConstExpr::Path(names) => ident_path_text(names@),
        ConstExpr::Other => "Const"@,
    }
}

/// One generic argument of a trait path.
pub open spec fn path_argument_text(arg: &GenericArgument) -> Seq<char> {
    match arg {
        GenericArgument::Type(ty) => type_text(ty),
        GenericArgument::Lifetime(name) => lifetime_text(name@),
        GenericArgument::Const(expr) => const_expr_text(expr),
        GenericArgument::AssocType { ident, ty } => ident@ + " = "@ + type_text(ty),
        GenericArgument::AssocConst => "AssocConst"@,
        GenericArgument::Constraint => "Constraint"@,
        GenericArgument::Other => "GenericArg"@,
    }
}

/// The text of each generic argument of a trait path.
pub open spec fn path_argument_texts(args: Seq<GenericArgument>) -> Seq<Seq<char>> {
    Seq::new(args.len(), |i: int| path_argument_text(&args[i]))
}

/// One segment of a trait path: its name, then its arguments between angle
/// brackets if it has any. Parenthesized arguments are left out.
pub open spec fn path_segment_text(segment: &PathSegment) -> Seq<char> {
    segment.ident@ + (match &segment.arguments {
        PathArguments::AngleBracketed(args) => if args@.len() == 0 {
            ""@
        } else {
            "<"@ + join(path_argument_texts(args@), ", "@) + ">"@
        },
        _ => ""@,
    })
}

/// A path with the generic arguments of each segment.
pub open spec fn path_text(segments: Seq<PathSegment>) -> Seq<char> {
    join(path_segment_texts(segments), "::"@)
}

/// The text of each segment of a trait path.
pub open spec fn path_segment_texts(segments: Seq<PathSegment>) -> Seq<Seq<char>> {
    Seq::new(segments.len(), |i: int| path_segment_text(&segments[i]))
}

/// The name of each segment of a path.
pub open spec fn segment_names(segments: Seq<PathSegment>) -> Seq<Seq<char>> {
    Seq::new(segments.len(), |i: int| segments[i].ident@)
}

/// The names of a path's segments joined by `::`, without their arguments.
pub open spec fn segment_names_text(segments: Seq<PathSegment>) -> Seq<char> {
    join(segment_names(segments), "::"@)
}

/// Writes names joined by `::`.
pub fn format_ident_path(names: &Vec<String>) -> (out: String)
    ensures
        out@ == ident_path_text(names@),
{
    join_strings(names, "::")
}

/// Writes a lifetime with its apostrophe.
pub fn format_lifetime(ident: &str) -> (out: String)
    ensures
        out@ == lifetime_text(ident@),
{
    let mut out = String::from_str("'");
    out.append(ident);
    out
}

/// Writes a type as it appears in a signature.
pub fn extract_type_name(ty: &TypeExpr) -> (out: String)
    ensures
        out@ == type_text(ty),
    decreases ty,
{
    match ty {
        TypeExpr::Path(segments) => {
            let mut parts: Vec<String> = Vec::new();
            let mut i: usize = 0;
            while i < segments.len()
                invariant
                    i <= segments.len(),
                    parts@.len() == i,
                    forall|j: int| 0 <= j < i ==> parts@[j]@ == type_segment_text(&segments@[j]),
                    ty is Path && ty->Path_0 == *segments,
                decreases segments.len() - i,
            {
                parts.push(format_type_segment(&segments[i]));
                i += 1;
            }
            assert(views(parts@) =~= type_segment_texts(segments@));
            join_strings(&parts, "::")
        },
        TypeExpr::Reference { lifetime, mutable, elem } => {
            let mut out = String::from_str("&");
            let mut lifetime_part = String::from_str("");
            if let Some(name) = lifetime {
                lifetime_part = String::from_str("'");
                lifetime_part.append(name.as_str());
                lifetime_part.append(" ");
            }
            out.append(lifetime_part.as_str());
            out.append(
                if *mutable {
                    "mut "
                } else {
                    ""
                },
            );
            let inner = extract_type_name(elem);
            out.append(inner.as_str());
            out
        },
        TypeExpr::Slice(elem) => {
            let mut out = String::from_str("[");
            let inner = extract_type_name(elem);
            out.append(inner.as_str());
            out.append("]");
            out
        },
        TypeExpr::Array(elem) => {
            let mut out = String::from_str("[");
            let inner = extract_type_name(elem);
            out.append(inner.as_str());
            out.append("; N]");
            out
        },
        TypeExpr::Pointer { mutable, elem } => {
            let mut out = String::from_str(
                if *mutable {
                    "*mut "
                } else {
                    "*const "
                },
            );
            let inner = extract_type_name(elem);
            out.append(inner.as_str());
            out
        },
        TypeExpr::Tuple(elems) => {
            let mut parts: Vec<String> = Vec::new();
            let mut i: usize = 0;
            while i < elems.len()
                invariant
                    i <= elems.len(),
                    parts@.len() == i,
                    forall|j: int| 0 <= j < i ==> parts@[j]@ == type_text(&elems@[j]),
                    ty is Tuple && ty->Tuple_0 == *elems,
                decreases elems.len() - i,
            {
                parts.push(extract_type_name(&elems[i]));
                i += 1;
            }
            assert(views(parts@) =~= type_texts(elems@));
            let mut out = String::from_str("(");
            let inner = join_strings(&parts, ", ");
            out.append(inner.as_str());
            out.append(")");
            out
        },
        TypeExpr::ImplTrait => String::from_str("impl Trait"),
        TypeExpr::TraitObject => String::from_str("dyn Trait"),
        TypeExpr::Other => String::from_str("Unknown"),
    }
}

/// Writes one segment of a type's path.
pub fn format_type_segment(segment: &PathSegment) -> (out: String)
    ensures
        out@ == type_segment_text(segment),
    decreases segment,
{
    let mut out = segment.ident.clone();
    let mut tail = String::from_str("");
    match &segment.arguments {
        PathArguments::Absent => {},
        PathArguments::AngleBracketed(args) => {
            if args.len() > 0 {
                let mut parts: Vec<String> = Vec::new();
                let mut i: usize = 0;
                while i < args.len()
                    invariant
                        i <= args.len(),
                        parts@.len() == i,
                        forall|j: int| 0 <= j < i ==> parts@[j]@ == type_argument_text(&args@[j]),
                        segment.arguments is AngleBracketed && segment.arguments->AngleBracketed_0 == *args,
                    decreases args.len() - i,
                {
                    parts.push(format_type_argument(&args[i]));
                    i += 1;
                }
                assert(views(parts@) =~= type_argument_texts(args@));
                tail = String::from_str("<");
                let inner = join_strings(&parts, ", ");
                tail.append(inner.as_str());
                tail.append(">");
            }
        },
        PathArguments::Parenthesized => {
            tail = String::from_str("(..)");
        },
    }
    out.append(tail.as_str());
    out
}

/// Writes one generic argument inside a type.
pub fn format_type_argument(arg: &GenericArgument) -> (out: String)
    ensures
        out@ == type_argument_text(arg),
    decreases arg,
{
    match arg {
        GenericArgument::Type(ty) => extract_type_name(ty),
        GenericArgument::Lifetime(name) => format_lifetime(name.as_str()),
        GenericArgument::Const(_) => String::from_str("Const"),
        GenericArgument::AssocType { ident, ty } => {
            let mut out = ident.clone();
            out.append(" = ");
            let inner = extract_type_name(ty);
            out.append(inner.as_str());
            out
        },
        _ => String::from_str("Unknown"),
    }
}

/// Writes a const generic argument of a trait path.
pub fn format_const_expr(expr: &ConstExpr) -> (out: String)
    ensures
        out@ == const_expr_text(expr),
{
    match expr {
        ConstExpr::Str(value) => {
            let mut out = String::from_str("\"");
            out.append(value.as_str());
            out.append("\"");
            out
        },
        ConstExpr::Int(digits) => digits.clone(),
        ConstExpr::Bool(value) => String::from_str(
            if *value {
                "true"
            } else {
                "false"
            },
        ),
        ConstExpr::Path(names) => format_ident_path(names),
        ConstExpr::Other => String::from_str("Const"),
    }
}

/// Writes one generic argument of a trait path.
pub fn format_path_argument(arg: &GenericArgument) -> (out: String)
    ensures
        out@ == path_argument_text(arg),
{
    match arg {
        GenericArgument::Type(ty) => extract_type_name(ty),
        GenericArgument::Lifetime(name) => format_lifetime(name.as_str()),
        GenericArgument::Const(expr) => format_const_expr(expr),
        GenericArgument::AssocType { ident, ty } => {
            let mut out = ident.clone();
            out.append(" = ");
            let inner = extract_type_name(ty);
            out.append(inner.as_str());
            out
        },
        GenericArgument::AssocConst => String::from_str("AssocConst"),
        GenericArgument::Constraint => String::from_str("Constraint"),
        GenericArgument::Other => String::from_str("GenericArg"),
    }
}

/// Writes one segment of a trait path.
pub fn format_path_segment(segment: &PathSegment) -> (out: String)
    ensures
        out@ == path_segment_text(segment),
{
    let mut out = segment.ident.clone();
    let mut tail = String::from_str("");
    if let PathArguments::AngleBracketed(args) = &segment.arguments {
        if args.len() > 0 {
            let mut parts: Vec<String> = Vec::new();
            let mut i: usize = 0;
            while i < args.len()
                invariant
                    i <= args.len(),
                    parts@.len() == i,
                    forall|j: int| 0 <= j < i ==> parts@[j]@ == path_argument_text(&args@[j]),
                decreases args.len() - i,
            {
                parts.push(format_path_argument(&args[i]));
                i += 1;
            }
            assert(views(parts@) =~= path_argument_texts(args@));
            tail = String::from_str("<");
            let inner = join_strings(&parts, ", ");
            tail.append(inner.as_str());
            tail.append(">");
        }
    }
    out.append(tail.as_str());
    out
}

/// Writes a path with the generic arguments of each segment.
pub fn extract_path_with_generics(path: &Vec<PathSegment>) -> (out: String)
    ensures
        out@ == path_text(path@),
{
    let mut parts: Vec<String> = Vec::new();
    let mut i: usize = 0;
    while i < path.len()
        invariant
            i <= path.len(),
            parts@.len() == i,
            forall|j: int| 0 <= j < i ==> parts@[j]@ == path_segment_text(&path@[j]),
        decreases path.len() - i,
    {
        parts.push(format_path_segment(&path[i]));
        i += 1;
    }
    assert(views(parts@) =~= path_segment_texts(path@));
    join_strings(&parts, "::")
}

/// Writes the names of a path's segments joined by `::`.
pub fn format_segment_names(path: &Vec<PathSegment>) -> (out: String)
    ensures
        out@ == segment_names_text(path@),
{
    let mut parts: Vec<String> = Vec::new();
    let mut i: usize = 0;
    while i < path.len()
        invariant
            i <= path.len(),
            parts@.len() == i,
            forall|j: int| 0 <= j < i ==> parts@[j]@ == path@[j].ident@,
        decreases path.len() - i,
    {
        parts.push(path[i].ident.clone());
        i += 1;
    }
    assert(views(parts@) =~= segment_names(path@));
    join_strings(&parts, "::")
}

} // verus!
