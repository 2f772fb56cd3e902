use cargo_llms_txt::attributes::extract_cfg_attributes;
use cargo_llms_txt::signature::{
    extract_pattern_name, extract_where_clause, format_function_signature,
    format_generic_params_simple, format_use_tree,
};
use cargo_llms_txt::syntax::{
    Attribute, AttributeMeta, AttributeValue, Bound, Field, Fields, FnArg, GenericArgument,
    GenericParam, Generics, ImplItem, Item, ItemEnum, ItemFn, ItemImpl, ItemMod, ItemStruct,
    MetaEntry, NestedMeta, PathArguments, PathSegment, Pattern, Signature, SourceFile, TypeExpr,
    UseTree, Variant, Visibility, WherePredicate,
};
use cargo_llms_txt::types::{extract_path_with_generics, extract_type_name};
use cargo_llms_txt::visitors::{CompleteDocsVisitor, SummaryVisitor, TocVisitor};

fn segment(name: &str) -> PathSegment {
    PathSegment {
        ident: name.to_string(),
        arguments: PathArguments::Absent,
    }
}

fn segment_with(name: &str, args: Vec<GenericArgument>) -> PathSegment {
    PathSegment {
        ident: name.to_string(),
        arguments: PathArguments::AngleBracketed(args),
    }
}

fn path(names: &[&str]) -> TypeExpr {
    TypeExpr::Path(names.iter().map(|name| segment(name)).collect())
}

fn named(name: &str) -> TypeExpr {
    path(&[name])
}

fn generic(name: &str, args: Vec<TypeExpr>) -> TypeExpr {
    TypeExpr::Path(vec![segment_with(
        name,
        args.into_iter().map(GenericArgument::Type).collect(),
    )])
}

fn reference(lifetime: Option<&str>, mutable: bool, elem: TypeExpr) -> TypeExpr {
    TypeExpr::Reference {
        lifetime: lifetime.map(|name| name.to_string()),
        mutable,
        elem: Box::new(elem),
    }
}

fn arg(name: &str, ty: TypeExpr) -> FnArg {
    FnArg::Typed {
        pat: Pattern::Ident(name.to_string()),
        ty,
    }
}

fn self_ref(mutable: bool) -> FnArg {
    FnArg::Receiver {
        reference: true,
        mutable,
    }
}

fn names(list: &[&str]) -> Vec<String> {
    list.iter().map(|name| name.to_string()).collect()
}

fn trait_bound(list: &[&str]) -> Bound {
    Bound::Trait(names(list))
}

fn type_param(name: &str, bounds: Vec<Bound>) -> GenericParam {
    GenericParam::Type {
        ident: name.to_string(),
        bounds,
    }
}

fn lifetime_param(name: &str, outlives: &[&str]) -> GenericParam {
    GenericParam::Lifetime {
        ident: name.to_string(),
        outlives: names(outlives),
    }
}

fn const_param(name: &str, ty: TypeExpr) -> GenericParam {
    GenericParam::Const {
        ident: name.to_string(),
        ty,
    }
}

fn type_predicate(bounded: &str, bounds: Vec<Bound>) -> WherePredicate {
    WherePredicate::Type {
        bounded: named(bounded),
        bounds,
    }
}

fn lifetime_predicate(lifetime: &str, outlives: &[&str]) -> WherePredicate {
    WherePredicate::Lifetime {
        lifetime: lifetime.to_string(),
        outlives: names(outlives),
    }
}

fn signature(
    name: &str,
    params: Vec<GenericParam>,
    inputs: Vec<FnArg>,
    output: Option<TypeExpr>,
    where_clause: Option<Vec<WherePredicate>>,
) -> Signature {
    Signature {
        abi: None,
        ident: name.to_string(),
        generics: Generics {
            params,
            where_clause,
        },
        inputs,
        output,
    }
}

fn no_generics() -> Generics {
    Generics {
        params: vec![],
        where_clause: None,
    }
}

fn doc(text: &str) -> Attribute {
    Attribute {
        ident: Some("doc".to_string()),
        meta: AttributeMeta::NameValue(AttributeValue::Str(text.to_string())),
    }
}

fn cfg(tokens: &str, entries: Vec<MetaEntry>) -> Attribute {
    Attribute {
        ident: Some("cfg".to_string()),
        meta: AttributeMeta::List {
            tokens: tokens.to_string(),
            nested: NestedMeta {
                entries,
                complete: true,
            },
        },
    }
}

fn key_value(key: &str, value: &str) -> MetaEntry {
    MetaEntry::KeyValue {
        key: key.to_string(),
        value: value.to_string(),
    }
}

fn function(vis: Visibility, attrs: Vec<Attribute>, sig: Signature) -> Item {
    Item::Fn(ItemFn { attrs, vis, sig })
}

fn plain_function(vis: Visibility, name: &str) -> Item {
    function(vis, vec![], signature(name, vec![], vec![], None, None))
}

fn unit_struct(vis: Visibility, name: &str) -> Item {
    Item::Struct(ItemStruct {
        attrs: vec![],
        vis,
        ident: name.to_string(),
        generics: no_generics(),
        fields: Fields::Unit,
    })
}

fn field(vis: Visibility, name: Option<&str>, ty: TypeExpr) -> Field {
    Field {
        vis,
        ident: name.map(|name| name.to_string()),
        ty,
    }
}

fn variant(attrs: Vec<Attribute>, name: &str, fields: Fields) -> Variant {
    Variant {
        attrs,
        ident: name.to_string(),
        fields,
    }
}

fn file(items: Vec<Item>) -> SourceFile {
    SourceFile { items }
}

fn index_of(file: &SourceFile) -> Vec<String> {
    let mut items = Vec::new();
    let mut visitor = TocVisitor {
        items: &mut items,
        current_mod: Vec::new(),
    };
    visitor.visit_file(file);
    items
}

fn docs_of(file: &SourceFile) -> String {
    let mut content = String::new();
    let mut visitor = CompleteDocsVisitor {
        content: &mut content,
        current_mod: Vec::new(),
    };
    visitor.visit_file(file);
    content
}

#[test]
fn test_extract_pattern_name() {
    let pat = Pattern::Ident("x".to_string());
    assert_eq!(extract_pattern_name(&pat), "x");

    let pat = Pattern::Wild;
    assert_eq!(extract_pattern_name(&pat), "_");
}

#[test]
fn test_extract_type_name() {
    let ty = named("u32");
    assert_eq!(extract_type_name(&ty), "u32");

    let ty = reference(None, false, named("str"));
    assert_eq!(extract_type_name(&ty), "&str");

    let ty = reference(None, true, named("String"));
    assert_eq!(extract_type_name(&ty), "&mut String");

    let ty = generic("Vec", vec![named("T")]);
    assert_eq!(extract_type_name(&ty), "Vec<T>");

    let ty = TypeExpr::Slice(Box::new(named("u8")));
    assert_eq!(extract_type_name(&ty), "[u8]");

    let ty = TypeExpr::Array(Box::new(named("u8")));
    let result = extract_type_name(&ty);
    assert!(result.starts_with("[u8; ") && result.ends_with("]"));

    let ty = TypeExpr::Tuple(vec![named("String"), named("i32")]);
    assert_eq!(extract_type_name(&ty), "(String, i32)");
}

#[test]
fn test_extract_where_clause() {
    let where_clause = Some(vec![
        type_predicate("T", vec![trait_bound(&["Clone"]), trait_bound(&["Send"])]),
        type_predicate("T", vec![Bound::Lifetime("static".to_string())]),
    ]);

    if let Some(where_clause) = &where_clause {
        let result = extract_where_clause(where_clause);
        assert!(result.contains("T: Clone + Send"));
    }
}

#[test]
fn test_extract_cfg_attributes() {
    let attrs = vec![
        cfg("feature = \"std\"", vec![key_value("feature", "std")]),
        cfg(
            "target_pointer_width = \"64\"",
            vec![key_value("target_pointer_width", "64")],
        ),
        cfg("unix", vec![MetaEntry::Flag("unix".to_string())]),
    ];
    let cfg_attrs = extract_cfg_attributes(&attrs);

    assert_eq!(cfg_attrs.len(), 3);
    assert!(cfg_attrs.contains(&"feature = \"std\"".to_string()));
    assert!(cfg_attrs.contains(&"target_pointer_width = \"64\"".to_string()));
    assert!(cfg_attrs.contains(&"unix".to_string()));
}

#[test]
fn test_toc_visitor_function() {
    let file = file(vec![
        plain_function(Visibility::Public, "public_function"),
        plain_function(Visibility::Inherited, "private_function"),
    ]);
    let mut items = Vec::new();
    let mut visitor = TocVisitor {
        items: &mut items,
        current_mod: Vec::new(),
    };

    visitor.visit_file(&file);

    assert_eq!(items.len(), 1);
    assert_eq!(items[0], "pub fn public_function");
}

#[test]
fn test_toc_visitor_struct() {
    let file = file(vec![
        unit_struct(Visibility::Public, "PublicStruct"),
        unit_struct(Visibility::Inherited, "PrivateStruct"),
    ]);
    let mut items = Vec::new();
    let mut visitor = TocVisitor {
        items: &mut items,
        current_mod: Vec::new(),
    };

    visitor.visit_file(&file);

    assert_eq!(items.len(), 1);
    assert_eq!(items[0], "pub struct PublicStruct");
}

#[test]
fn test_toc_visitor_enum() {
    let file = file(vec![
        Item::Enum(ItemEnum {
            attrs: vec![],
            vis: Visibility::Public,
            ident: "PublicEnum".to_string(),
            generics: no_generics(),
            variants: vec![
                variant(vec![], "Variant1", Fields::Unit),
                variant(
                    vec![],
                    "Variant2",
                    Fields::Unnamed(vec![field(Visibility::Inherited, None, named("u32"))]),
                ),
            ],
        }),
        Item::Enum(ItemEnum {
            attrs: vec![],
            vis: Visibility::Inherited,
            ident: "PrivateEnum".to_string(),
            generics: no_generics(),
            variants: vec![variant(vec![], "Variant", Fields::Unit)],
        }),
    ]);
    let mut items = Vec::new();
    let mut visitor = TocVisitor {
        items: &mut items,
        current_mod: Vec::new(),
    };

    visitor.visit_file(&file);

    assert_eq!(items.len(), 1);
    assert_eq!(items[0], "pub enum PublicEnum");
}

#[test]
fn test_toc_visitor_with_module() {
    let file = file(vec![Item::Mod(ItemMod {
        vis: Visibility::Public,
        ident: "submodule".to_string(),
        content: Some(vec![
            plain_function(Visibility::Public, "function_in_module"),
            unit_struct(Visibility::Public, "StructInModule"),
        ]),
    })]);
    let mut items = Vec::new();
    let mut visitor = TocVisitor {
        items: &mut items,
        current_mod: Vec::new(),
    };

    visitor.visit_file(&file);

    assert_eq!(items.len(), 3);
    assert_eq!(items[0], "pub mod submodule");
    assert_eq!(items[1], "pub fn submodule::function_in_module");
    assert_eq!(items[2], "pub struct submodule::StructInModule");
}

#[test]
fn test_summary_visitor() {
    let file = file(vec![
        function(
            Visibility::Public,
            vec![doc(" This is a public function")],
            signature(
                "test_function",
                vec![],
                vec![arg("param", named("u32"))],
                Some(named("String")),
                None,
            ),
        ),
        Item::Struct(ItemStruct {
            attrs: vec![doc(" This is a public struct")],
            vis: Visibility::Public,
            ident: "TestStruct".to_string(),
            generics: no_generics(),
            fields: Fields::Named(vec![field(Visibility::Public, Some("field"), named("i32"))]),
        }),
    ]);
    let mut public_count = 0;
    let mut types = Vec::new();

    let mut visitor = SummaryVisitor {
        public_count: &mut public_count,
        types: &mut types,
    };

    visitor.visit_file(&file);

    assert_eq!(public_count, 2);
    assert!(types.contains(&"functions".to_string()));
    assert!(types.contains(&"structs".to_string()));
}

#[test]
fn test_complete_docs_visitor_function_with_generics_and_where() {
    let file = file(vec![function(
        Visibility::Public,
        vec![doc(" A generic function with where clause")],
        signature(
            "generic_function",
            vec![type_param("T", vec![]), type_param("U", vec![])],
            vec![arg("param1", named("T")), arg("param2", named("U"))],
            Some(named("T")),
            Some(vec![
                type_predicate("T", vec![trait_bound(&["Clone"]), trait_bound(&["Send"])]),
                type_predicate("U", vec![trait_bound(&["std", "fmt", "Display"])]),
            ]),
        ),
    )]);
    let mut content = String::new();

    let mut visitor = CompleteDocsVisitor {
        content: &mut content,
        current_mod: Vec::new(),
    };

    visitor.visit_file(&file);

    assert!(content.contains("generic_function<T, U>"));
    assert!(content.contains("param1: T"));
    assert!(content.contains("param2: U"));
    assert!(content.contains("T: Clone + Send"));
    assert!(content.contains("U: std::fmt::Display"));
}

#[test]
fn test_extract_path_with_generics() {
    let path = vec![segment("std"), segment("fmt"), segment("Display")];
    assert_eq!(extract_path_with_generics(&path), "std::fmt::Display");

    let path = vec![segment_with("Vec", vec![GenericArgument::Type(named("T"))])];
    assert_eq!(extract_path_with_generics(&path), "Vec<T>");

    let path = vec![segment_with(
        "HashMap",
        vec![
            GenericArgument::Type(named("String")),
            GenericArgument::Type(named("i32")),
        ],
    )];
    assert_eq!(extract_path_with_generics(&path), "HashMap<String, i32>");

    let path = vec![segment_with(
        "Iterator",
        vec![GenericArgument::AssocType {
            ident: "Item".to_string(),
            ty: named("String"),
        }],
    )];
    let result = extract_path_with_generics(&path);
    assert_eq!(result, "Iterator<Item = String>");

    let path = vec![segment_with(
        "Option",
        vec![GenericArgument::Type(generic("Vec", vec![named("T")]))],
    )];
    assert_eq!(extract_path_with_generics(&path), "Option<Vec<T>>");
}

#[test]
fn test_complete_docs_visitor_enum_with_variants() {
    let file = file(vec![Item::Enum(ItemEnum {
        attrs: vec![doc(" An enum with different variant types")],
        vis: Visibility::Public,
        ident: "TestEnum".to_string(),
        generics: no_generics(),
        variants: vec![
            variant(vec![doc(" Unit variant")], "Unit", Fields::Unit),
            variant(
                vec![doc(" Tuple variant")],
                "Tuple",
                Fields::Unnamed(vec![
                    field(Visibility::Inherited, None, named("String")),
                    field(Visibility::Inherited, None, named("i32")),
                ]),
            ),
            variant(
                vec![doc(" Struct variant  ")],
                "Struct",
                Fields::Named(vec![
                    field(Visibility::Inherited, Some("name"), named("String")),
                    field(Visibility::Inherited, Some("value"), named("i32")),
                ]),
            ),
            variant(
                vec![cfg("feature = \"test\"", vec![key_value("feature", "test")])],
                "ConditionalVariant",
                Fields::Unit,
            ),
        ],
    })]);
    let mut content = String::new();

    let mut visitor = CompleteDocsVisitor {
        content: &mut content,
        current_mod: Vec::new(),
    };

    visitor.visit_file(&file);

    assert!(content.contains("pub enum TestEnum"));
    assert!(content.contains("Unit"));
    assert!(content.contains("Tuple(String, i32)"));
    assert!(content.contains("Struct { name: String, value: i32 }"));
    assert!(content.contains(r#"#[cfg(feature = "test")]"#));
}

#[test]
fn test_complete_docs_visitor_impl_block() {
    let file = file(vec![
        unit_struct(Visibility::Public, "TestStruct"),
        Item::Impl(ItemImpl {
            attrs: vec![],
            generics: no_generics(),
            trait_path: None,
            self_ty: named("TestStruct"),
            items: vec![
                ImplItem::Fn {
                    vis: Visibility::Public,
                    sig: signature(
                        "public_method",
                        vec![],
                        vec![self_ref(false), arg("param", named("u32"))],
                        Some(named("String")),
                        None,
                    ),
                },
                ImplItem::Fn {
                    vis: Visibility::Inherited,
                    sig: signature("private_method", vec![], vec![self_ref(false)], None, None),
                },
            ],
        }),
    ]);
    let mut content = String::new();

    let mut visitor = CompleteDocsVisitor {
        content: &mut content,
        current_mod: Vec::new(),
    };

    visitor.visit_file(&file);

    assert!(content.contains("impl TestStruct"));
    assert!(content.contains("pub fn public_method"));
    assert!(content.contains("param: u32"));
    assert!(!content.contains("private_method"));
}

#[test]
fn test_complete_docs_visitor_impl_with_trait_generics() {
    let file = file(vec![
        unit_struct(Visibility::Public, "MyStruct"),
        Item::Impl(ItemImpl {
            attrs: vec![],
            generics: Generics {
                params: vec![lifetime_param("de", &[])],
                where_clause: None,
            },
            trait_path: Some(vec![
                segment("serde"),
                segment_with(
                    "Deserialize",
                    vec![GenericArgument::Lifetime("de".to_string())],
                ),
            ]),
            self_ty: named("MyStruct"),
            items: vec![ImplItem::Fn {
                vis: Visibility::Inherited,
                sig: signature(
                    "deserialize",
                    vec![type_param("D", vec![])],
                    vec![arg("deserializer", named("D"))],
                    Some(TypeExpr::Path(vec![segment_with(
                        "Result",
                        vec![
                            GenericArgument::Type(named("Self")),
                            GenericArgument::Type(path(&["D", "Error"])),
                        ],
                    )])),
                    Some(vec![WherePredicate::Type {
                        bounded: named("D"),
                        bounds: vec![trait_bound(&["serde", "Deserializer"])],
                    }]),
                ),
            }],
        }),
    ]);
    let mut content = String::new();

    let mut visitor = CompleteDocsVisitor {
        content: &mut content,
        current_mod: Vec::new(),
    };

    visitor.visit_file(&file);

    assert!(content.contains("impl serde::Deserialize"));
    assert!(content.contains("for MyStruct"));
    assert!(content.contains("Deserialize<'de>") || content.contains("Deserialize"));
}

#[test]
fn test_format_function_signature() {
    let sig = signature(
        "simple_function",
        vec![],
        vec![arg("x", named("i32"))],
        Some(named("bool")),
        None,
    );
    let result = format_function_signature(&sig, false, "");
    assert_eq!(result, "fn simple_function(x: i32) -> bool");

    let result = format_function_signature(&sig, true, "");
    assert_eq!(result, "pub fn simple_function(x: i32) -> bool");

    let sig = signature(
        "generic_function",
        vec![type_param("T", vec![])],
        vec![arg("value", named("T"))],
        Some(generic("Option", vec![named("T")])),
        None,
    );
    let result = format_function_signature(&sig, false, "");
    assert_eq!(result, "fn generic_function<T>(value: T) -> Option<T>");

    let sig = signature(
        "method",
        vec![],
        vec![self_ref(false), arg("param", named("String"))],
        Some(generic(
            "Result",
            vec![TypeExpr::Tuple(vec![]), named("Error")],
        )),
        None,
    );
    let result = format_function_signature(&sig, false, "");
    assert_eq!(
        result,
        "fn method(&self, param: String) -> Result<(), Error>"
    );

    let sig = signature(
        "mut_method",
        vec![],
        vec![self_ref(true), arg("x", named("i32"))],
        None,
        None,
    );
    let result = format_function_signature(&sig, true, "");
    assert_eq!(result, "pub fn mut_method(&mut self, x: i32)");

    let sig = signature(
        "multi_param",
        vec![],
        vec![
            arg("a", named("i32")),
            arg("b", reference(None, false, named("str"))),
            arg("c", generic("Vec", vec![named("u8")])),
        ],
        Some(named("String")),
        None,
    );
    let result = format_function_signature(&sig, false, "");
    assert_eq!(
        result,
        "fn multi_param(a: i32, b: &str, c: Vec<u8>) -> String"
    );

    let sig = signature("no_params", vec![], vec![], Some(named("bool")), None);
    let result = format_function_signature(&sig, false, "");
    assert_eq!(result, "fn no_params() -> bool");

    let sig = signature("no_return", vec![], vec![arg("x", named("i32"))], None, None);
    let result = format_function_signature(&sig, false, "");
    assert_eq!(result, "fn no_return(x: i32)");
}

#[test]
fn test_format_function_signature_with_where_clause() {
    let sig = signature(
        "with_where",
        vec![type_param("T", vec![])],
        vec![arg("value", named("T"))],
        Some(named("T")),
        Some(vec![type_predicate("T", vec![trait_bound(&["Clone"])])]),
    );
    let result = format_function_signature(&sig, false, "    ");
    assert!(result.contains("fn with_where<T>(value: T) -> T"));
    assert!(result.contains("where"));
    assert!(result.contains("T: Clone"));

    let sig = signature(
        "complex_where",
        vec![type_param("T", vec![]), type_param("U", vec![])],
        vec![arg("t", named("T")), arg("u", named("U"))],
        Some(TypeExpr::Tuple(vec![named("T"), named("U")])),
        Some(vec![
            type_predicate("T", vec![trait_bound(&["Clone"])]),
            type_predicate("U", vec![trait_bound(&["Send"])]),
        ]),
    );
    let result = format_function_signature(&sig, true, "");
    assert!(result.contains("pub fn complex_where<T, U>(t: T, u: U) -> (T, U)"));
    assert!(result.contains("where"));
    assert!(result.contains("T: Clone"));
    assert!(result.contains("U: Send"));

    let sig = signature(
        "lifetime_generic",
        vec![lifetime_param("a", &[]), type_param("T", vec![])],
        vec![arg("data", reference(Some("a"), false, named("T")))],
        Some(reference(Some("a"), false, named("T"))),
        Some(vec![type_predicate(
            "T",
            vec![Bound::Lifetime("a".to_string())],
        )]),
    );
    let result = format_function_signature(&sig, false, "  ");
    assert!(result.contains("fn lifetime_generic<'a, T>(data: &'a T) -> &'a T"));
    assert!(result.contains("where"));
    assert!(result.contains("T: 'a"));
}

#[test]
fn test_format_function_signature_multiple_lifetimes() {
    let sig = signature(
        "multiple_lifetimes",
        vec![lifetime_param("a", &[]), lifetime_param("b", &[])],
        vec![
            arg("x", reference(Some("a"), false, named("str"))),
            arg("y", reference(Some("b"), false, named("str"))),
        ],
        Some(reference(Some("a"), false, named("str"))),
        None,
    );
    let result = format_function_signature(&sig, false, "");
    assert!(result.contains("fn multiple_lifetimes<'a, 'b>(x: &'a str, y: &'b str) -> &'a str"));

    let result = format_function_signature(&sig, true, "");
    assert!(
        result.contains("pub fn multiple_lifetimes<'a, 'b>(x: &'a str, y: &'b str) -> &'a str")
    );

    let sig = signature(
        "complex_lifetimes",
        vec![
            lifetime_param("a", &[]),
            lifetime_param("b", &[]),
            type_param("T", vec![]),
        ],
        vec![
            arg("x", reference(Some("a"), false, named("T"))),
            arg("y", reference(Some("b"), false, named("T"))),
        ],
        Some(reference(Some("a"), false, named("T"))),
        Some(vec![
            lifetime_predicate("b", &["a"]),
            type_predicate("T", vec![trait_bound(&["Clone"])]),
        ]),
    );
    let result = format_function_signature(&sig, false, "    ");
    assert!(result.contains("fn complex_lifetimes<'a, 'b, T>(x: &'a T, y: &'b T) -> &'a T"));
    assert!(result.contains("where"));
    assert!(result.contains("'b: 'a"));
    assert!(result.contains("T: Clone"));

    let sig = signature(
        "mut_multiple_lifetimes",
        vec![lifetime_param("a", &[]), lifetime_param("b", &[])],
        vec![
            self_ref(true),
            arg("x", reference(Some("a"), true, named("String"))),
            arg("y", reference(Some("b"), false, named("str"))),
        ],
        Some(reference(Some("a"), false, named("String"))),
        None,
    );
    let result = format_function_signature(&sig, true, "");
    assert!(result.contains("pub fn mut_multiple_lifetimes<'a, 'b>(&mut self, x: &'a mut String, y: &'b str) -> &'a String"));

    let sig = signature(
        "with_static",
        vec![lifetime_param("a", &[])],
        vec![
            arg("x", reference(Some("a"), false, named("str"))),
            arg("y", reference(Some("static"), false, named("str"))),
        ],
        Some(reference(Some("a"), false, named("str"))),
        None,
    );
    let result = format_function_signature(&sig, false, "");
    assert!(result.contains("fn with_static<'a>(x: &'a str, y: &'static str) -> &'a str"));

    let sig = signature(
        "lifetime_bounds",
        vec![
            lifetime_param("a", &[]),
            lifetime_param("b", &[]),
            lifetime_param("c", &[]),
            type_param("T", vec![]),
        ],
        vec![arg("data", reference(Some("a"), false, named("T")))],
        Some(reference(Some("a"), false, named("T"))),
        Some(vec![
            lifetime_predicate("b", &["a"]),
            lifetime_predicate("c", &["b"]),
            type_predicate(
                "T",
                vec![
                    Bound::Lifetime("a".to_string()),
                    Bound::Lifetime("b".to_string()),
                ],
            ),
        ]),
    );
    let result = format_function_signature(&sig, false, "  ");
    assert!(result.contains("fn lifetime_bounds<'a, 'b, 'c, T>(data: &'a T) -> &'a T"));
    assert!(result.contains("where"));
    assert!(result.contains("'b: 'a"));
    assert!(result.contains("'c: 'b"));
    assert!(result.contains("T: 'a + 'b"));
}

#[test]
fn test_format_function_signature_lifetime_bounds_in_generics() {
    let sig = signature(
        "lifetime_param_bounds",
        vec![lifetime_param("a", &["b"]), lifetime_param("b", &[])],
        vec![
            arg("x", reference(Some("a"), false, named("str"))),
            arg("y", reference(Some("b"), false, named("str"))),
        ],
        Some(reference(Some("b"), false, named("str"))),
        None,
    );
    let result = format_function_signature(&sig, false, "");
    assert!(result.contains("fn lifetime_param_bounds"));
    assert!(result.contains("'a: 'b"));
    assert!(result.contains("'b"));
    assert!(result.contains("x: &'a str, y: &'b str"));

    let sig = signature(
        "complex_lifetime_bounds",
        vec![
            lifetime_param("a", &["b", "c"]),
            lifetime_param("b", &[]),
            lifetime_param("c", &[]),
        ],
        vec![arg("data", reference(Some("a"), false, named("str")))],
        Some(reference(Some("a"), false, named("str"))),
        None,
    );
    let result = format_function_signature(&sig, true, "");
    assert!(result.contains("pub fn complex_lifetime_bounds"));
    assert!(result.contains("'a: 'b + 'c"));
    assert!(result.contains("'b"));
    assert!(result.contains("'c"));

    let sig = signature(
        "mixed_bounds",
        vec![
            lifetime_param("a", &["b"]),
            lifetime_param("b", &[]),
            type_param("T", vec![]),
        ],
        vec![
            arg("x", reference(Some("a"), false, named("T"))),
            arg("y", reference(Some("b"), false, named("T"))),
        ],
        Some(reference(Some("a"), false, named("T"))),
        Some(vec![type_predicate(
            "T",
            vec![trait_bound(&["Clone"]), Bound::Lifetime("a".to_string())],
        )]),
    );
    let result = format_function_signature(&sig, false, "    ");
    assert!(result.contains("fn mixed_bounds"));
    assert!(result.contains("'a: 'b"));
    assert!(result.contains("'b"));
    assert!(result.contains("T"));
    assert!(result.contains("where"));
    assert!(result.contains("T: Clone + 'a"));

    let sig = signature(
        "static_bounds",
        vec![lifetime_param("a", &["static"])],
        vec![arg("data", reference(Some("a"), false, named("str")))],
        Some(reference(Some("a"), false, named("str"))),
        None,
    );
    let result = format_function_signature(&sig, false, "");
    assert!(result.contains("'a: 'static"));
}

#[test]
fn test_format_function_signature_type_param_bounds() {
    let sig = signature(
        "type_bounds",
        vec![
            type_param("A", vec![trait_bound(&["B"])]),
            type_param("B", vec![trait_bound(&["C"])]),
            type_param("C", vec![]),
        ],
        vec![
            arg("a", named("A")),
            arg("b", named("B")),
            arg("c", named("C")),
        ],
        Some(named("A")),
        None,
    );
    let result = format_function_signature(&sig, false, "");
    assert!(result.contains("fn type_bounds"));
    assert!(result.contains("A: B"));
    assert!(result.contains("B: C"));
    assert!(result.contains("C"));

    let sig = signature(
        "complex_type_bounds",
        vec![
            type_param("T", vec![trait_bound(&["Clone"]), trait_bound(&["Send"])]),
            type_param("U", vec![trait_bound(&["T"]), trait_bound(&["Debug"])]),
        ],
        vec![arg("t", named("T")), arg("u", named("U"))],
        Some(named("T")),
        None,
    );
    let result = format_function_signature(&sig, true, "");
    assert!(result.contains("pub fn complex_type_bounds"));
    assert!(result.contains("T: Clone + Send"));
    assert!(result.contains("U: T + Debug"));
}

fn use_path(segments: &[&str], last: UseTree) -> UseTree {
    let mut tree = last;
    for name in segments.iter().rev() {
        tree = UseTree::Path {
            ident: name.to_string(),
            tree: Box::new(tree),
        };
    }
    tree
}

#[test]
fn test_format_use_tree_simple() {
    let use_tree = UseTree::Name("HashMap".to_string());
    let result = format_use_tree(&use_tree);
    assert_eq!(result, "HashMap");
}

#[test]
fn test_format_use_tree_path() {
    let use_tree = use_path(&["std", "collections"], UseTree::Name("HashMap".to_string()));
    let result = format_use_tree(&use_tree);
    assert_eq!(result, "std::collections::HashMap");
}

#[test]
fn test_format_use_tree_rename() {
    let use_tree = UseTree::Rename {
        ident: "Vec".to_string(),
        rename: "SimpleVec".to_string(),
    };
    let result = format_use_tree(&use_tree);
    assert_eq!(result, "Vec as SimpleVec");
}

#[test]
fn test_format_use_tree_glob() {
    let use_tree = UseTree::Glob;
    let result = format_use_tree(&use_tree);
    assert_eq!(result, "*");
}

#[test]
fn test_format_use_tree_group() {
    let use_tree = UseTree::Group(vec![
        UseTree::Name("HashMap".to_string()),
        UseTree::Name("BTreeMap".to_string()),
    ]);
    let result = format_use_tree(&use_tree);
    assert_eq!(result, "{HashMap, BTreeMap}");
}

#[test]
fn test_format_use_tree_complex() {
    let use_tree = use_path(
        &["std", "vec"],
        UseTree::Rename {
            ident: "Vec".to_string(),
            rename: "SimpleVec".to_string(),
        },
    );
    let result = format_use_tree(&use_tree);
    assert_eq!(result, "std::vec::Vec as SimpleVec");
}

#[test]
fn test_format_generic_params_simple_types() {
    let params = vec![
        type_param("T", vec![]),
        type_param("U", vec![]),
        type_param("V", vec![]),
    ];
    let result = format_generic_params_simple(&params);
    assert_eq!(result, "T, U, V");
}

#[test]
fn test_format_generic_params_simple_lifetimes() {
    let params = vec![
        lifetime_param("a", &[]),
        lifetime_param("b", &[]),
        lifetime_param("c", &[]),
    ];
    let result = format_generic_params_simple(&params);
    assert_eq!(result, "'a, 'b, 'c");
}

#[test]
fn test_format_generic_params_simple_mixed() {
    let params = vec![
        lifetime_param("a", &[]),
        type_param("T", vec![]),
        lifetime_param("b", &[]),
        type_param("U", vec![]),
    ];
    let result = format_generic_params_simple(&params);
    assert_eq!(result, "'a, T, 'b, U");
}

#[test]
fn test_format_generic_params_simple_const() {
    let params = vec![const_param("N", named("usize"))];
    let result = format_generic_params_simple(&params);
    assert_eq!(result, "N");
}

#[test]
fn test_format_generic_params_simple_empty() {
    let params: Vec<GenericParam> = vec![];
    let result = format_generic_params_simple(&params);
    assert_eq!(result, "");
}

#[test]
fn test_format_generic_params_simple_complex() {
    let params = vec![
        lifetime_param("a", &[]),
        type_param("T", vec![]),
        const_param("N", named("usize")),
        lifetime_param("b", &[]),
        type_param("U", vec![]),
    ];
    let result = format_generic_params_simple(&params);
    assert_eq!(result, "'a, T, N, 'b, U");
}

#[test]
fn a_function_is_rendered_in_both_documents() {
    let file = file(vec![function(
        Visibility::Public,
        vec![],
        signature(
            "f",
            vec![],
            vec![arg("x", named("i32"))],
            Some(named("bool")),
            None,
        ),
    )]);
    assert_eq!(index_of(&file), vec!["pub fn f".to_string()]);
    assert_eq!(
        docs_of(&file),
        "### f\n\n```rust\npub fn f(x: i32) -> bool\n```\n\n\n"
    );
}

#[test]
fn a_private_field_never_appears() {
    let file = file(vec![Item::Struct(ItemStruct {
        attrs: vec![],
        vis: Visibility::Public,
        ident: "S".to_string(),
        generics: no_generics(),
        fields: Fields::Named(vec![
            field(Visibility::Public, Some("a"), named("i32")),
            field(Visibility::Inherited, Some("b"), named("String")),
        ]),
    })]);
    let docs = docs_of(&file);
    assert_eq!(
        docs,
        "### S\n\n```rust\npub struct S {\n    pub a: i32,\n}\n```\n\n\n"
    );
    assert!(docs.contains("pub a: i32,"));
    assert!(!docs.contains("b:"));
    assert!(!docs.contains("String"));
}

#[test]
fn a_where_clause_is_indented_as_asked() {
    let sig = signature(
        "g",
        vec![type_param("T", vec![]), lifetime_param("a", &[])],
        vec![],
        None,
        Some(vec![
            type_predicate("T", vec![trait_bound(&["Clone"]), Bound::Other]),
            lifetime_predicate("a", &[]),
            WherePredicate::Other,
        ]),
    );
    assert_eq!(
        format_function_signature(&sig, true, "  "),
        "pub fn g<T, 'a>()\n  where\n      T: Clone + Bound,\n      'a,\n      Where"
    );
    let empty = signature("h", vec![], vec![], None, Some(vec![]));
    assert_eq!(format_function_signature(&empty, false, "  "), "fn h()");
}
