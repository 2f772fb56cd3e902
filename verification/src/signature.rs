//! The text of function signatures and of what they are made of: binding
//! patterns, bounds, generic parameters and `where` clauses. The text of
//! `use` trees is here too.

use vstd::prelude::*;
use vstd::string::*;
use crate::syntax::{Bound, FnArg, GenericParam, Pattern, Signature, UseTree, WherePredicate};
use crate::text::{join, join_strings, views};
use crate::types::{
    extract_type_name,
    format_ident_path,
    format_lifetime,
    ident_path_text,
    lifetime_text,
    type_text,
};

verus! {

/// The name that a binding pattern gives a parameter. A reference or a type
/// annotation is looked through, a tuple is written with its parts, a struct
/// pattern by its path, and any other pattern is `param`.
pub open spec fn pattern_text(pat: &Pattern) -> Seq<char>
    decreases pat,
{
    match pat {
        Pattern::Ident(name) => name@,
        Pattern::Reference(inner) => pattern_text(inner),
        Pattern::Typed(inner) => pattern_text(inner),
        Pattern::Wild => "_"@,
        Pattern::Tuple(elems) => "("@ + join(pattern_texts(elems@), ", "@) + ")"@,
        Pattern::Struct(names) => ident_path_text(names@) + " { .. }"@,
        Pattern::Other => "param"@,
    }
}

/// The text of each pattern in `pats`.
pub open spec fn pattern_texts(pats: Seq<Pattern>) -> Seq<Seq<char>>
    decreases pats,
{
    Seq::new(
        pats.len(),
        |i: int|
            if 0 <= i < pats.len() {
                pattern_text(&pats[i])
            } else {
                ""@
            },
    )
}

/// A bound: a trait by the names of its path, a lifetime with its
/// apostrophe, anything else as `fallback`.
pub open spec fn bound_text(bound: &Bound, fallback: Seq<char>) -> Seq<char> {
    match bound {
        Bound::Trait(names) => ident_path_text(names@),
        Bound::Lifetime(name) => lifetime_text(name@),
        Bound::Other => fallback,
    }
}

/// The text of each bound in `bounds`.
pub open spec fn bound_texts(bounds: Seq<Bound>, fallback: Seq<char>) -> Seq<Seq<char>> {
    Seq::new(bounds.len(), |i: int| bound_text(&bounds[i], fallback))
}

/// Bounds joined by ` + `.
pub open spec fn bounds_text(bounds: Seq<Bound>, fallback: Seq<char>) -> Seq<char> {
    join(bound_texts(bounds, fallback), " + "@)
}

/// Each lifetime of `names` with its apostrophe.
pub open spec fn lifetime_texts(names: Seq<String>) -> Seq<Seq<char>> {
    Seq::new(names.len(), |i: int| lifetime_text(names[i]@))
}

/// Lifetimes joined by ` + `.
pub open spec fn lifetimes_text(names: Seq<String>) -> Seq<char> {
    join(lifetime_texts(names), " + "@)
}

/// A generic parameter by its name alone; a lifetime keeps its apostrophe.
pub open spec fn generic_param_name(param: &GenericParam) -> Seq<char> {
    match param {
        GenericParam::Type { ident, .. } => ident@,
        GenericParam::Lifetime { ident, .. } => lifetime_text(ident@),
        GenericParam::Const { ident, .. } => ident@,
    }
}

/// A generic parameter as a type declaration lists it: without bounds, a
/// const parameter with its type.
pub open spec fn generic_param_plain(param: &GenericParam) -> Seq<char> {
    match param {
        GenericParam::Type { ident, .. } => ident@,
        GenericParam::Lifetime { ident, .. } => lifetime_text(ident@),
        GenericParam::Const { ident, ty } => "const "@ + ident@ + ": "@ + type_text(ty),
    }
}

/// A generic parameter as a function signature lists it: with its bounds.
pub open spec fn generic_param_bounded(param: &GenericParam) -> Seq<char> {
    match param {
        GenericParam::Type { ident, bounds } => ident@ + (if bounds@.len() == 0 {
            ""@
        } else {
            ": "@ + bounds_text(bounds@, "Bound"@)
        }),
        GenericParam::Lifetime { ident, outlives } => lifetime_text(ident@) + (if outlives@.len()
            == 0 {
            ""@
        } else {
            ": "@ + lifetimes_text(outlives@)
        }),
        GenericParam::Const { ident, ty } => "const "@ + ident@ + ": "@ + type_text(ty),
    }
}

/// The name of each generic parameter.
pub open spec fn generic_param_names(params: Seq<GenericParam>) -> Seq<Seq<char>> {
    Seq::new(params.len(), |i: int| generic_param_name(&params[i]))
}

/// Each generic parameter as a type declaration lists it.
pub open spec fn generic_params_plain(params: Seq<GenericParam>) -> Seq<Seq<char>> {
    Seq::new(params.len(), |i: int| generic_param_plain(&params[i]))
}

/// Each generic parameter as a function signature lists it.
pub open spec fn generic_params_bounded(params: Seq<GenericParam>) -> Seq<Seq<char>> {
    Seq::new(params.len(), |i: int| generic_param_bounded(&params[i]))
}

/// The names of the generic parameters, joined by `, `.
pub open spec fn generic_names_text(params: Seq<GenericParam>) -> Seq<char> {
    join(generic_param_names(params), ", "@)
}

/// The generic parameters of a type declaration, joined by `, `.
pub open spec fn generics_plain_text(params: Seq<GenericParam>) -> Seq<char> {
    join(generic_params_plain(params), ", "@)
}

/// One predicate of a `where` clause.
pub open spec fn where_predicate_text(predicate: &WherePredicate) -> Seq<char> {
    match predicate {
        WherePredicate::Type { bounded, bounds } => type_text(bounded) + ": "@ + bounds_text(
            bounds@,
            "Bound"@,
        ),
        WherePredicate::Lifetime { lifetime, outlives } => if outlives@.len() == 0 {
            lifetime_text(lifetime@)
        } else {
            lifetime_text(lifetime@) + ": "@ + lifetimes_text(outlives@)
        },
        WherePredicate::Other => "Where"@,
    }
}

/// The text of each predicate of a `where` clause.
pub open spec fn where_predicate_texts(predicates: Seq<WherePredicate>) -> Seq<Seq<char>> {
    Seq::new(predicates.len(), |i: int| where_predicate_text(&predicates[i]))
}

/// The predicates of a `where` clause, one per line, the lines after the
/// first indented by four spaces.
pub open spec fn where_clause_text(predicates: Seq<WherePredicate>) -> Seq<char> {
    join(where_predicate_texts(predicates), ",\n    "@)
}

/// A parameter of a function: the receiver as `self`, `&self` or
/// `&mut self`, any other as `name: Type`.
pub open spec fn fn_arg_text(arg: &FnArg) -> Seq<char> {
    match arg {
        FnArg::Receiver { reference, mutable } => (if *reference {
            if *mutable {
                "&mut "@
            } else {
                "&"@
            }
        } else {
            ""@
        }) + "self"@,
        FnArg::Typed { pat, ty } => pattern_text(pat) + ": "@ + type_text(ty),
    }
}

/// The text of each parameter of a function.
pub open spec fn fn_arg_texts(args: Seq<FnArg>) -> Seq<Seq<char>> {
    Seq::new(args.len(), |i: int| fn_arg_text(&args[i]))
}

/// The `where` clause that follows a signature, on lines of its own that
/// start with `indent`: the keyword, then one predicate per line, each
/// four spaces further in. Empty where the signature has no predicate.
pub open spec fn signature_where_text(
    where_clause: Option<Vec<WherePredicate>>,
    indent: Seq<char>,
) -> Seq<char> {
    match where_clause {
        Some(predicates) => if predicates@.len() == 0 {
            ""@
        } else {
            "\n"@ + indent + "where\n"@ + indent + "    "@ + join(
                where_predicate_texts(predicates@),
                ",\n"@ + indent + "    "@,
            )
        },
        None => ""@,
    }
}

/// The signature of a function: `fn`, after `pub` if `include_pub`, the
/// name, the generic parameters with their bounds, the parameters on one
/// line, the return type if one is written, and the `where` clause.
pub open spec fn signature_text(sig: &Signature, include_pub: bool, indent: Seq<char>) -> Seq<
    char,
> {
    (if include_pub {
        "pub fn "@
    } else {
        "fn "@
    }) + sig.ident@ + (if sig.generics.params@.len() == 0 {
        ""@
    } else {
        "<"@ + join(generic_params_bounded(sig.generics.params@), ", "@) + ">"@
    }) + "("@ + join(fn_arg_texts(sig.inputs@), ", "@) + ")"@ + (match &sig.output {
        Some(ty) => " -> "@ + type_text(ty),
        None => ""@,
    }) + signature_where_text(sig.generics.where_clause, indent)
}

/// The path of a `use` declaration, with groups, renames and globs.
pub open spec fn use_tree_text(tree: &UseTree) -> Seq<char>
    decreases tree,
{
    match tree {
        UseTree::Path { ident, tree } => ident@ + "::"@ + use_tree_text(tree),
        UseTree::Name(name) => name@,
        UseTree::Rename { ident, rename } => ident@ + " as "@ + rename@,
        UseTree::Glob => "*"@,
        UseTree::Group(items) => "{"@ + join(use_tree_texts(items@), ", "@) + "}"@,
    }
}

/// The text of each tree of a group.
pub open spec fn use_tree_texts(trees: Seq<UseTree>) -> Seq<Seq<char>>
    decreases trees,
{
    Seq::new(
        trees.len(),
        |i: int|
            if 0 <= i < trees.len() {
                use_tree_text(&trees[i])
            } else {
                ""@
            },
    )
}

/// Formatting is a function of its input: whatever two calls of
/// [`format_function_signature`] return for one signature, one flag and
/// one indent is the same text, byte for byte.
pub proof fn lemma_signature_format_is_deterministic(
    sig: &Signature,
    include_pub: bool,
    indent: Seq<char>,
    first: Seq<char>,
    second: Seq<char>,
)
    requires
        first == signature_text(sig, include_pub, indent),
        second == signature_text(sig, include_pub, indent),
    ensures
        first == second,
{
}

/// The two renderings of a signature, with and without `pub`, differ in
/// that word alone.
pub proof fn lemma_public_signature_adds_pub(sig: &Signature, indent: Seq<char>)
    ensures
        signature_text(sig, true, indent) == "pub "@ + signature_text(sig, false, indent),
{
    reveal_strlit("pub fn ");
    reveal_strlit("pub ");
    reveal_strlit("fn ");
}

/// Writes the name that a binding pattern gives a parameter.
pub fn extract_pattern_name(pat: &Pattern) -> (out: String)
    ensures
        out@ == pattern_text(pat),
    decreases pat,
{
    match pat {
        Pattern::Ident(name) => name.clone(),
        Pattern::Reference(inner) => extract_pattern_name(inner),
        Pattern::Typed(inner) => extract_pattern_name(inner),
        Pattern::Wild => String::from_str("_"),
        Pattern::Tuple(elems) => {
            let mut parts: Vec<String> = Vec::new();
            let mut i: usize = 0;
            while i < elems.len()
                invariant
                    i <= elems.len(),
                    parts@.len() == i,
                    forall|j: int| 0 <= j < i ==> parts@[j]@ == pattern_text(&elems@[j]),
                    pat is Tuple && pat->Tuple_0 == *elems,
                decreases elems.len() - i,
            {
                parts.push(extract_pattern_name(&elems[i]));
                i += 1;
            }
            assert(views(parts@) =~= pattern_texts(elems@));
            let mut out = String::from_str("(");
            let inner = join_strings(&parts, ", ");
            out.append(inner.as_str());
            out.append(")");
            out
        },
        Pattern::Struct(names) => {
            let mut out = format_ident_path(names);
            out.append(" { .. }");
            out
        },
        Pattern::Other => String::from_str("param"),
    }
}

/// Writes one bound, `fallback` for one that is neither a trait nor a lifetime.
pub fn format_bound(bound: &Bound, fallback: &str) -> (out: String)
    ensures
        out@ == bound_text(bound, fallback@),
{
    match bound {
        Bound::Trait(names) => format_ident_path(names),
        Bound::Lifetime(name) => format_lifetime(name.as_str()),
        Bound::Other => String::from_str(fallback),
    }
}

/// Writes bounds joined by ` + `.
pub fn format_bounds(bounds: &Vec<Bound>, fallback: &str) -> (out: String)
    ensures
        out@ == bounds_text(bounds@, fallback@),
{
    let mut parts: Vec<String> = Vec::new();
    let mut i: usize = 0;
    while i < bounds.len()
        invariant
            i <= bounds.len(),
            parts@.len() == i,
            forall|j: int| 0 <= j < i ==> parts@[j]@ == bound_text(&bounds@[j], fallback@),
        decreases bounds.len() - i,
    {
        parts.push(format_bound(&bounds[i], fallback));
        i += 1;
    }
    assert(views(parts@) =~= bound_texts(bounds@, fallback@));
    join_strings(&parts, " + ")
}

/// Writes the bounds of a trait alias joined by ` + `; a bound that is
/// neither a trait nor a lifetime is `Unknown`.
pub fn format_trait_bounds(bounds: &Vec<Bound>) -> (out: String)
    ensures
        out@ == bounds_text(bounds@, "Unknown"@),
{
    format_bounds(bounds, "Unknown")
}

/// Writes lifetimes joined by ` + `.
pub fn format_lifetimes(names: &Vec<String>) -> (out: String)
    ensures
        out@ == lifetimes_text(names@),
{
    let mut parts: Vec<String> = Vec::new();
    let mut i: usize = 0;
    while i < names.len()
        invariant
            i <= names.len(),
            parts@.len() == i,
            forall|j: int| 0 <= j < i ==> parts@[j]@ == lifetime_text(names@[j]@),
        decreases names.len() - i,
    {
        parts.push(format_lifetime(names[i].as_str()));
        i += 1;
    }
    assert(views(parts@) =~= lifetime_texts(names@));
    join_strings(&parts, " + ")
}

/// Writes the names of the generic parameters, joined by `, `.
pub fn format_generic_params_simple(params: &Vec<GenericParam>) -> (out: String)
    ensures
        out@ == generic_names_text(params@),
{
    let mut parts: Vec<String> = Vec::new();
    let mut i: usize = 0;
    while i < params.len()
        invariant
            i <= params.len(),
            parts@.len() == i,
            forall|j: int| 0 <= j < i ==> parts@[j]@ == generic_param_name(&params@[j]),
        decreases params.len() - i,
    {
        let part = match &params[i] {
            GenericParam::Type { ident, .. } => ident.clone(),
            GenericParam::Lifetime { ident, .. } => format_lifetime(ident.as_str()),
            GenericParam::Const { ident, .. } => ident.clone(),
        };
        parts.push(part);
        i += 1;
    }
    assert(views(parts@) =~= generic_param_names(params@));
    join_strings(&parts, ", ")
}

/// Writes `const name: Type`.
fn format_const_param(ident: &String, ty: &crate::syntax::TypeExpr) -> (out: String)
    ensures
        out@ == "const "@ + ident@ + ": "@ + type_text(ty),
{
    let mut out = String::from_str("const ");
    out.append(ident.as_str());
    out.append(": ");
    let inner = extract_type_name(ty);
    out.append(inner.as_str());
    out
}

/// Writes the generic parameters of a type declaration, joined by `, `.
pub fn format_generic_params_plain(params: &Vec<GenericParam>) -> (out: String)
    ensures
        out@ == generics_plain_text(params@),
{
    let mut parts: Vec<String> = Vec::new();
    let mut i: usize = 0;
    while i < params.len()
        invariant
            i <= params.len(),
            parts@.len() == i,
            forall|j: int| 0 <= j < i ==> parts@[j]@ == generic_param_plain(&params@[j]),
        decreases params.len() - i,
    {
        let part = match &params[i] {
            GenericParam::Type { ident, .. } => ident.clone(),
            GenericParam::Lifetime { ident, .. } => format_lifetime(ident.as_str()),
            GenericParam::Const { ident, ty } => format_const_param(ident, ty),
        };
        parts.push(part);
        i += 1;
    }
    assert(views(parts@) =~= generic_params_plain(params@));
    join_strings(&parts, ", ")
}

/// Writes one generic parameter with its bounds.
pub fn format_generic_param_bounded(param: &GenericParam) -> (out: String)
    ensures
        out@ == generic_param_bounded(param),
{
    match param {
        GenericParam::Type { ident, bounds } => {
            let mut out = ident.clone();
            let mut tail = String::from_str("");
            if bounds.len() > 0 {
                tail = String::from_str(": ");
                let inner = format_bounds(bounds, "Bound");
                tail.append(inner.as_str());
            }
            out.append(tail.as_str());
            out
        },
        GenericParam::Lifetime { ident, outlives } => {
            let mut out = format_lifetime(ident.as_str());
            let mut tail = String::from_str("");
            if outlives.len() > 0 {
                tail = String::from_str(": ");
                let inner = format_lifetimes(outlives);
                tail.append(inner.as_str());
            }
            out.append(tail.as_str());
            out
        },
        GenericParam::Const { ident, ty } => format_const_param(ident, ty),
    }
}

/// Writes one predicate of a `where` clause.
pub fn format_where_predicate(predicate: &WherePredicate) -> (out: String)
    ensures
        out@ == where_predicate_text(predicate),
{
    match predicate {
        WherePredicate::Type { bounded, bounds } => {
            let mut out = extract_type_name(bounded);
            out.append(": ");
            let inner = format_bounds(bounds, "Bound");
            out.append(inner.as_str());
            out
        },
        WherePredicate::Lifetime { lifetime, outlives } => {
            let mut out = format_lifetime(lifetime.as_str());
            if outlives.len() > 0 {
                out.append(": ");
                let inner = format_lifetimes(outlives);
                out.append(inner.as_str());
            }
            out
        },
        WherePredicate::Other => String::from_str("Where"),
    }
}

/// Writes the predicates of a `where` clause, separated by a comma and a
/// line break.
pub fn extract_where_clause(predicates: &Vec<WherePredicate>) -> (out: String)
    ensures
        out@ == where_clause_text(predicates@),
{
    let parts = format_where_predicates(predicates);
    join_strings(&parts, ",\n    ")
}

/// Writes each predicate of a `where` clause.
pub fn format_where_predicates(predicates: &Vec<WherePredicate>) -> (parts: Vec<String>)
    ensures
        views(parts@) == where_predicate_texts(predicates@),
{
    let mut parts: Vec<String> = Vec::new();
    let mut i: usize = 0;
    while i < predicates.len()
        invariant
            i <= predicates.len(),
            parts@.len() == i,
            forall|j: int| 0 <= j < i ==> parts@[j]@ == where_predicate_text(&predicates@[j]),
        decreases predicates.len() - i,
    {
        parts.push(format_where_predicate(&predicates[i]));
        i += 1;
    }
    assert(views(parts@) =~= where_predicate_texts(predicates@));
    parts
}

/// Writes one parameter of a function.
pub fn format_fn_arg(arg: &FnArg) -> (out: String)
    ensures
        out@ == fn_arg_text(arg),
{
    match arg {
        FnArg::Receiver { reference, mutable } => {
            let mut out = String::from_str(
                if *reference {
                    if *mutable {
                        "&mut "
                    } else {
                        "&"
                    }
                } else {
                    ""
                },
            );
            out.append("self");
            out
        },
        FnArg::Typed { pat, ty } => {
            let mut out = extract_pattern_name(pat);
            out.append(": ");
            let inner = extract_type_name(ty);
            out.append(inner.as_str());
            out
        },
    }
}

/// Writes the `where` clause that follows a signature.
pub fn format_signature_where(where_clause: &Option<Vec<WherePredicate>>, indent: &str) -> (out:
    String)
    ensures
        out@ == signature_where_text(*where_clause, indent@),
{
    match where_clause {
        Some(predicates) => {
            if predicates.len() == 0 {
                String::from_str("")
            } else {
                let mut out = String::from_str("\n");
                out.append(indent);
                out.append("where\n");
                out.append(indent);
                out.append("    ");
                let mut separator = String::from_str(",\n");
                separator.append(indent);
                separator.append("    ");
                let parts = format_where_predicates(predicates);
                let inner = join_strings(&parts, separator.as_str());
                out.append(inner.as_str());
                out
            }
        },
        None => String::from_str(""),
    }
}

/// Writes the signature of a function, without a body. `where_indent`
/// starts each line of the `where` clause.
pub fn format_function_signature(sig: &Signature, include_pub: bool, where_indent: &str) -> (out:
    String)
    ensures
        out@ == signature_text(sig, include_pub, where_indent@),
{
    let mut out = String::from_str(
        if include_pub {
            "pub fn "
        } else {
            "fn "
        },
    );
    out.append(sig.ident.as_str());

    let mut generics = String::from_str("");
    if sig.generics.params.len() > 0 {
        let params = &sig.generics.params;
        let mut parts: Vec<String> = Vec::new();
        let mut i: usize = 0;
        while i < params.len()
            invariant
                i <= params.len(),
                parts@.len() == i,
                forall|j: int| 0 <= j < i ==> parts@[j]@ == generic_param_bounded(&params@[j]),
            decreases params.len() - i,
        {
            parts.push(format_generic_param_bounded(&params[i]));
            i += 1;
        }
        assert(views(parts@) =~= generic_params_bounded(params@));
        generics = String::from_str("<");
        let inner = join_strings(&parts, ", ");
        generics.append(inner.as_str());
        generics.append(">");
    }
    out.append(generics.as_str());

    out.append("(");
    let mut parts: Vec<String> = Vec::new();
    let mut i: usize = 0;
    while i < sig.inputs.len()
        invariant
            i <= sig.inputs.len(),
            parts@.len() == i,
            forall|j: int| 0 <= j < i ==> parts@[j]@ == fn_arg_text(&sig.inputs@[j]),
        decreases sig.inputs.len() - i,
    {
        parts.push(format_fn_arg(&sig.inputs[i]));
        i += 1;
    }
    assert(views(parts@) =~= fn_arg_texts(sig.inputs@));
    let inputs = join_strings(&parts, ", ");
    out.append(inputs.as_str());
    out.append(")");

    let mut output = String::from_str("");
    if let Some(ty) = &sig.output {
        output = String::from_str(" -> ");
        let inner = extract_type_name(ty);
        output.append(inner.as_str());
    }
    out.append(output.as_str());

    let tail = format_signature_where(&sig.generics.where_clause, where_indent);
    out.append(tail.as_str());
    out
}

/// Writes the path of a `use` declaration.
pub fn format_use_tree(tree: &UseTree) -> (out: String)
    ensures
        out@ == use_tree_text(tree),
    decreases tree,
{
    match tree {
        UseTree::Path { ident, tree } => {
            let mut out = ident.clone();
            out.append("::");
            let inner = format_use_tree(tree);
            out.append(inner.as_str());
            out
        },
        UseTree::Name(name) => name.clone(),
        UseTree::Rename { ident, rename } => {
            let mut out = ident.clone();
            out.append(" as ");
            out.append(rename.as_str());
            out
        },
        UseTree::Glob => String::from_str("*"),
        UseTree::Group(items) => {
            let mut parts: Vec<String> = Vec::new();
            let mut i: usize = 0;
            while i < items.len()
                invariant
                    i <= items.len(),
                    parts@.len() == i,
                    forall|j: int| 0 <= j < i ==> parts@[j]@ == use_tree_text(&items@[j]),
                    tree is Group && tree->Group_0 == *items,
                decreases items.len() - i,
            {
                parts.push(format_use_tree(&items[i]));
                i += 1;
            }
            assert(views(parts@) =~= use_tree_texts(items@));
            let mut out = String::from_str("{");
            let inner = join_strings(&parts, ", ");
            out.append(inner.as_str());
            out.append("}");
            out
        },
    }
}

} // verus!
