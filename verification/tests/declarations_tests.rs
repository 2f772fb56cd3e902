use cargo_llms_txt::attributes::{
    contains_attribute, extract_cfg_attributes, extract_derives, format_docs,
};
use cargo_llms_txt::declarations::{
    format_fn_code, format_impl_code, format_mod_prefix, format_struct_code, format_trait_code,
    format_variant, has_extern_c_abi,
};
use cargo_llms_txt::signature::{
    extract_pattern_name, format_bound, format_function_signature, format_trait_bounds,
};
use cargo_llms_txt::syntax::{
    Abi, Attribute, AttributeMeta, AttributeValue, Bound, ConstExpr, Field, Fields, FnArg,
    ForeignItem, GenericArgument, Generics, ImplItem, Item, ItemFn, ItemForeignMod, ItemImpl,
    ItemMacro, ItemMod, ItemStruct, ItemTrait, ItemUse, MetaEntry, NestedMeta, PathArguments, PathSegment,
    Pattern, Signature, SourceFile, TypeExpr, UseTree, Variant, Visibility,
};
use cargo_llms_txt::types::{
    extract_path_with_generics, extract_type_name, format_const_expr, format_lifetime,
};
use cargo_llms_txt::visitors::{CompleteDocsVisitor, SummaryVisitor, TocVisitor};

fn segment(name: &str, arguments: PathArguments) -> PathSegment {
    PathSegment {
        ident: name.to_string(),
        arguments,
    }
}

fn named(name: &str) -> TypeExpr {
    TypeExpr::Path(vec![segment(name, PathArguments::Absent)])
}

fn no_generics() -> Generics {
    Generics {
        params: vec![],
        where_clause: None,
    }
}

fn signature(name: &str, abi: Option<Abi>) -> Signature {
    Signature {
        abi,
        ident: name.to_string(),
        generics: no_generics(),
        inputs: vec![],
        output: None,
    }
}

fn plain(name: &str) -> Attribute {
    Attribute {
        ident: Some(name.to_string()),
        meta: AttributeMeta::Path,
    }
}

fn list(name: Option<&str>, tokens: &str, entries: Vec<MetaEntry>, complete: bool) -> Attribute {
    Attribute {
        ident: name.map(|name| name.to_string()),
        meta: AttributeMeta::List {
            tokens: tokens.to_string(),
            nested: NestedMeta { entries, complete },
        },
    }
}

fn doc(text: &str) -> Attribute {
    Attribute {
        ident: Some("doc".to_string()),
        meta: AttributeMeta::NameValue(AttributeValue::Str(text.to_string())),
    }
}

fn flag(name: &str) -> MetaEntry {
    MetaEntry::Flag(name.to_string())
}

fn function(vis: Visibility, name: &str) -> Item {
    Item::Fn(ItemFn {
        attrs: vec![],
        vis,
        sig: signature(name, None),
    })
}

fn index_with(current_mod: Vec<String>, items: Vec<Item>) -> Vec<String> {
    let file = SourceFile { items };
    let mut labels = vec!["kept".to_string()];
    let mut visitor = TocVisitor {
        items: &mut labels,
        current_mod,
    };
    visitor.visit_file(&file);
    labels
}

fn docs_with(current_mod: Vec<String>, items: Vec<Item>) -> String {
    let file = SourceFile { items };
    let mut content = "kept\n".to_string();
    let mut visitor = CompleteDocsVisitor {
        content: &mut content,
        current_mod,
    };
    visitor.visit_file(&file);
    content
}

#[test]
fn types_that_are_not_written_structurally() {
    assert_eq!(extract_type_name(&TypeExpr::ImplTrait), "impl Trait");
    assert_eq!(extract_type_name(&TypeExpr::TraitObject), "dyn Trait");
    assert_eq!(extract_type_name(&TypeExpr::Other), "Unknown");
    assert_eq!(extract_type_name(&TypeExpr::Tuple(vec![])), "()");
    assert_eq!(extract_type_name(&TypeExpr::Path(vec![])), "");
    assert_eq!(
        extract_type_name(&TypeExpr::Pointer {
            mutable: false,
            elem: Box::new(named("u8"))
        }),
        "*const u8"
    );
    assert_eq!(
        extract_type_name(&TypeExpr::Pointer {
            mutable: true,
            elem: Box::new(TypeExpr::Other)
        }),
        "*mut Unknown"
    );
    assert_eq!(
        extract_type_name(&TypeExpr::Reference {
            lifetime: Some("a".to_string()),
            mutable: true,
            elem: Box::new(TypeExpr::Slice(Box::new(named("T"))))
        }),
        "&'a mut [T]"
    );
    assert_eq!(format_lifetime("static"), "'static");
}

#[test]
fn arguments_of_a_type_path() {
    let ty = TypeExpr::Path(vec![
        segment("a", PathArguments::Parenthesized),
        segment("B", PathArguments::AngleBracketed(vec![])),
        segment(
            "C",
            PathArguments::AngleBracketed(vec![
                GenericArgument::Lifetime("x".to_string()),
                GenericArgument::Type(named("T")),
                GenericArgument::Const(ConstExpr::Int("3".to_string())),
                GenericArgument::AssocType {
                    ident: "Item".to_string(),
                    ty: named("u8"),
                },
                GenericArgument::AssocConst,
                GenericArgument::Constraint,
                GenericArgument::Other,
            ]),
        ),
    ]);
    assert_eq!(
        extract_type_name(&ty),
        "a(..)::B::C<'x, T, Const, Item = u8, Unknown, Unknown, Unknown>"
    );
}

#[test]
fn arguments_of_a_trait_path() {
    let path = vec![
        segment("a", PathArguments::Parenthesized),
        segment("B", PathArguments::AngleBracketed(vec![])),
        segment(
            "C",
            PathArguments::AngleBracketed(vec![
                GenericArgument::Lifetime("x".to_string()),
                GenericArgument::Type(named("T")),
                GenericArgument::Const(ConstExpr::Int("3".to_string())),
                GenericArgument::AssocType {
                    ident: "Item".to_string(),
                    ty: named("u8"),
                },
                GenericArgument::AssocConst,
                GenericArgument::Constraint,
                GenericArgument::Other,
            ]),
        ),
    ];
    assert_eq!(
        extract_path_with_generics(&path),
        "a::B::C<'x, T, 3, Item = u8, AssocConst, Constraint, GenericArg>"
    );
    assert_eq!(extract_path_with_generics(&vec![]), "");
    assert_eq!(format_const_expr(&ConstExpr::Str("s".to_string())), "\"s\"");
    assert_eq!(format_const_expr(&ConstExpr::Bool(true)), "true");
    assert_eq!(format_const_expr(&ConstExpr::Bool(false)), "false");
    assert_eq!(
        format_const_expr(&ConstExpr::Path(vec!["a".to_string(), "B".to_string()])),
        "a::B"
    );
    assert_eq!(format_const_expr(&ConstExpr::Other), "Const");
}

#[test]
fn names_of_binding_patterns() {
    assert_eq!(extract_pattern_name(&Pattern::Other), "param");
    assert_eq!(
        extract_pattern_name(&Pattern::Reference(Box::new(Pattern::Typed(Box::new(
            Pattern::Ident("x".to_string())
        ))))),
        "x"
    );
    assert_eq!(
        extract_pattern_name(&Pattern::Tuple(vec![
            Pattern::Ident("a".to_string()),
            Pattern::Wild,
            Pattern::Other,
            Pattern::Tuple(vec![]),
        ])),
        "(a, _, param, ())"
    );
    assert_eq!(
        extract_pattern_name(&Pattern::Struct(vec!["geo".to_string(), "Point".to_string()])),
        "geo::Point { .. }"
    );
}

#[test]
fn bounds_with_their_fallback() {
    assert_eq!(format_bound(&Bound::Other, "Bound"), "Bound");
    assert_eq!(
        format_trait_bounds(&vec![
            Bound::Trait(vec!["std".to_string(), "fmt".to_string(), "Debug".to_string()]),
            Bound::Lifetime("a".to_string()),
            Bound::Other,
        ]),
        "std::fmt::Debug + 'a + Unknown"
    );
    assert_eq!(format_trait_bounds(&vec![]), "");
}

#[test]
fn receivers_are_written_by_reference_and_mutability() {
    let mut sig = signature("m", None);
    sig.inputs = vec![
        FnArg::Receiver {
            reference: false,
            mutable: false,
        },
        FnArg::Receiver {
            reference: false,
            mutable: true,
        },
        FnArg::Receiver {
            reference: true,
            mutable: false,
        },
        FnArg::Receiver {
            reference: true,
            mutable: true,
        },
    ];
    assert_eq!(
        format_function_signature(&sig, false, ""),
        "fn m(self, self, &self, &mut self)"
    );
}

#[test]
fn formatting_twice_gives_the_same_text() {
    let mut sig = signature("m", None);
    sig.inputs = vec![FnArg::Typed {
        pat: Pattern::Ident("x".to_string()),
        ty: named("u8"),
    }];
    sig.output = Some(named("bool"));
    let first = format_function_signature(&sig, true, "  ");
    let second = format_function_signature(&sig, true, "  ");
    assert_eq!(first, second);
    assert_eq!(
        format_function_signature(&sig, true, ""),
        format!("pub {}", format_function_signature(&sig, false, ""))
    );
    let items = || vec![function(Visibility::Public, "f")];
    assert_eq!(index_with(vec![], items()), index_with(vec![], items()));
    assert_eq!(docs_with(vec![], items()), docs_with(vec![], items()));
}

#[test]
fn cfg_lists_that_could_not_be_read_keep_their_tokens() {
    let attrs = vec![
        list(Some("cfg"), "unix", vec![flag("unix")], true),
        list(Some("cfg"), "a = 1", vec![], false),
        list(Some("cfg"), "any (a , b)", vec![flag("any")], false),
        list(Some("cfg"), "", vec![], true),
        list(
            Some("cfg"),
            "x , a :: b",
            vec![
                flag("x"),
                MetaEntry::Path(vec!["a".to_string(), "b".to_string()]),
                MetaEntry::KeyValue {
                    key: "k".to_string(),
                    value: "v".to_string(),
                },
            ],
            true,
        ),
        list(Some("derive"), "unix", vec![flag("unix")], true),
        list(None, "unix", vec![flag("unix")], true),
        plain("cfg"),
        Attribute {
            ident: Some("cfg".to_string()),
            meta: AttributeMeta::NameValue(AttributeValue::Str("unix".to_string())),
        },
    ];
    assert_eq!(
        extract_cfg_attributes(&attrs),
        vec!["unix", "a = 1", "any, any (a , b)", "", "x, a::b, k = \"v\""]
    );
    assert_eq!(extract_derives(&attrs), vec!["unix"]);
    assert!(contains_attribute(&attrs, "derive"));
    assert!(!contains_attribute(&attrs, "no_mangle"));
    assert!(!contains_attribute(&vec![], "cfg"));
}

#[test]
fn documentation_comes_from_doc_strings_only() {
    let attrs = vec![
        doc(" first "),
        plain("doc"),
        list(Some("doc"), "hidden", vec![flag("hidden")], true),
        Attribute {
            ident: Some("doc".to_string()),
            meta: AttributeMeta::NameValue(AttributeValue::Other),
        },
        Attribute {
            ident: Some("other".to_string()),
            meta: AttributeMeta::NameValue(AttributeValue::Str("x".to_string())),
        },
        Attribute {
            ident: None,
            meta: AttributeMeta::NameValue(AttributeValue::Str("x".to_string())),
        },
        doc(""),
        doc("  ## Heading"),
    ];
    assert_eq!(format_docs(&attrs), "first\n\n##### Heading\n\n");
    assert_eq!(format_docs(&vec![]), "\n");
}

#[test]
fn functions_of_the_c_abi() {
    let c = Some(Abi {
        name: Some("C".to_string()),
    });
    assert!(has_extern_c_abi(&signature("f", c)));
    assert!(!has_extern_c_abi(&signature("f", Some(Abi { name: None }))));
    assert!(!has_extern_c_abi(&signature("f", None)));
    assert!(!has_extern_c_abi(&signature(
        "f",
        Some(Abi {
            name: Some("c".to_string())
        })
    )));
    let node = ItemFn {
        attrs: vec![doc("x"), plain("no_mangle")],
        vis: Visibility::Public,
        sig: Signature {
            abi: Some(Abi {
                name: Some("C".to_string()),
            }),
            ident: "pub fn".to_string(),
            generics: no_generics(),
            inputs: vec![],
            output: Some(named("pub fn")),
        },
    };
    assert_eq!(
        format_fn_code(&node),
        "#[no_mangle]\npub extern \"C\" fn pub extern \"C\" fn() -> pub extern \"C\" fn"
    );
}

#[test]
fn fields_of_structs_and_variants() {
    let field = |vis: Visibility, name: Option<&str>, ty: TypeExpr| Field {
        vis,
        ident: name.map(|name| name.to_string()),
        ty,
    };
    let unnamed = ItemStruct {
        attrs: vec![],
        vis: Visibility::Public,
        ident: "S".to_string(),
        generics: no_generics(),
        fields: Fields::Unnamed(vec![
            field(Visibility::Inherited, None, named("u8")),
            field(Visibility::Restricted, None, named("u16")),
        ]),
    };
    assert_eq!(format_struct_code(&unnamed), "pub struct S();");
    let named_fields = ItemStruct {
        attrs: vec![],
        vis: Visibility::Public,
        ident: "S".to_string(),
        generics: no_generics(),
        fields: Fields::Named(vec![
            field(Visibility::Public, None, named("u8")),
            field(Visibility::Restricted, Some("b"), named("u16")),
        ]),
    };
    assert_eq!(format_struct_code(&named_fields), "pub struct S {\n}");
    let variant = |fields: Fields| Variant {
        attrs: vec![],
        ident: "V".to_string(),
        fields,
    };
    assert_eq!(format_variant(&variant(Fields::Unit)), "    V");
    assert_eq!(format_variant(&variant(Fields::Unnamed(vec![]))), "    V(..)");
    assert_eq!(
        format_variant(&variant(Fields::Unnamed(vec![
            field(Visibility::Inherited, None, TypeExpr::Other),
            field(Visibility::Inherited, None, TypeExpr::Other),
        ]))),
        "    V(..)"
    );
    assert_eq!(
        format_variant(&variant(Fields::Unnamed(vec![
            field(Visibility::Inherited, None, named("Unknown")),
        ]))),
        "    V(..)"
    );
    assert_eq!(
        format_variant(&variant(Fields::Unnamed(vec![
            field(Visibility::Public, None, TypeExpr::Other),
            field(Visibility::Inherited, None, TypeExpr::ImplTrait),
        ]))),
        "    V(Unknown, impl Trait)"
    );
    assert_eq!(format_variant(&variant(Fields::Named(vec![]))), "    V {}");
    assert_eq!(
        format_variant(&variant(Fields::Named(vec![
            field(Visibility::Public, Some("a"), named("u8")),
            field(Visibility::Inherited, None, named("u8")),
            field(Visibility::Restricted, Some("b"), named("u16")),
        ]))),
        "    V { pub a: u8, b: u16 }"
    );
}

#[test]
fn items_of_an_implementation_block() {
    let node = ItemImpl {
        attrs: vec![],
        generics: no_generics(),
        trait_path: None,
        self_ty: TypeExpr::Tuple(vec![]),
        items: vec![
            ImplItem::Const {
                vis: Visibility::Public,
                ident: "A".to_string(),
            },
            ImplItem::Const {
                vis: Visibility::Restricted,
                ident: "B".to_string(),
            },
            ImplItem::Type {
                vis: Visibility::Public,
                ident: "C".to_string(),
            },
            ImplItem::Type {
                vis: Visibility::Inherited,
                ident: "D".to_string(),
            },
            ImplItem::Other,
        ],
    };
    assert_eq!(
        format_impl_code(&node),
        "impl Unknown {\n    pub const A: Type;\n    pub type C;\n}"
    );
}

#[test]
fn visitors_add_to_what_they_were_given() {
    let current_mod = vec!["a".to_string(), "b".to_string()];
    assert_eq!(format_mod_prefix(&current_mod), "a::b::");
    assert_eq!(format_mod_prefix(&vec![]), "");
    assert_eq!(
        index_with(current_mod.clone(), vec![function(Visibility::Public, "f")]),
        vec!["kept", "pub fn a::b::f"]
    );
    assert_eq!(
        docs_with(current_mod, vec![function(Visibility::Public, "f")]),
        "kept\n### a::b::f\n\n```rust\npub fn f()\n```\n\n\n"
    );
    let file = SourceFile {
        items: vec![function(Visibility::Public, "f")],
    };
    let mut public_count = 41;
    let mut types = vec!["kept".to_string()];
    let mut visitor = SummaryVisitor {
        public_count: &mut public_count,
        types: &mut types,
    };
    visitor.visit_file(&file);
    assert_eq!(public_count, 42);
    assert_eq!(types, vec!["kept", "functions"]);
}

#[test]
fn hidden_declarations_are_in_neither_document() {
    let hidden = |vis: fn() -> Visibility| {
        vec![
            function(vis(), "f"),
            Item::Struct(ItemStruct {
                attrs: vec![doc("secret")],
                vis: vis(),
                ident: "S".to_string(),
                generics: no_generics(),
                fields: Fields::Unit,
            }),
            Item::Use(ItemUse {
                attrs: vec![],
                vis: vis(),
                tree: UseTree::Glob,
            }),
            Item::ForeignMod(ItemForeignMod {
                abi: Abi { name: None },
                items: vec![
                    ForeignItem::Fn {
                        attrs: vec![],
                        vis: vis(),
                        sig: signature("g", None),
                    },
                    ForeignItem::Other,
                ],
            }),
            Item::Macro(ItemMacro {
                attrs: vec![],
                ident: None,
            }),
            Item::Mod(ItemMod {
                vis: vis(),
                ident: "m".to_string(),
                content: Some(vec![function(vis(), "h")]),
            }),
            Item::Mod(ItemMod {
                vis: vis(),
                ident: "n".to_string(),
                content: None,
            }),
            Item::Other,
        ]
    };
    for vis in [(|| Visibility::Inherited) as fn() -> Visibility, || Visibility::Restricted] {
        assert_eq!(index_with(vec![], hidden(vis)), vec!["kept"]);
        assert_eq!(docs_with(vec![], hidden(vis)), "kept\n");
        let file = SourceFile { items: hidden(vis) };
        let mut public_count = 0;
        let mut types = Vec::new();
        let mut visitor = SummaryVisitor {
            public_count: &mut public_count,
            types: &mut types,
        };
        visitor.visit_file(&file);
        assert_eq!(public_count, 0);
        assert!(types.is_empty());
    }
}

#[test]
fn a_hidden_module_shows_its_public_contents() {
    let items = vec![Item::Mod(ItemMod {
        vis: Visibility::Inherited,
        ident: "m".to_string(),
        content: Some(vec![
            function(Visibility::Public, "f"),
            Item::Macro(ItemMacro {
                attrs: vec![],
                ident: Some("shout".to_string()),
            }),
        ]),
    })];
    assert_eq!(
        index_with(vec![], items),
        vec!["kept", "pub fn m::f", "m::shout!"]
    );
}

#[test]
fn supertraits_are_written_as_bounds() {
    let node = |supertraits: Vec<Bound>| ItemTrait {
        attrs: vec![],
        vis: Visibility::Public,
        ident: "T".to_string(),
        generics: no_generics(),
        supertraits,
        items: vec![],
    };
    assert_eq!(format_trait_code(&node(vec![])), "pub trait T {\n}");
    assert_eq!(
        format_trait_code(&node(vec![Bound::Lifetime("static".to_string())])),
        "pub trait T: 'static {\n}"
    );
    assert_eq!(
        format_trait_code(&node(vec![
            Bound::Trait(vec!["std".to_string(), "fmt".to_string(), "Debug".to_string()]),
            Bound::Lifetime("a".to_string()),
            Bound::Other,
        ])),
        "pub trait T: std::fmt::Debug + 'a + Unknown {\n}"
    );
}
