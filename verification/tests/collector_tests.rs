use rust_introspect::collector::{introspect_decls, APICollector};
use rust_introspect::decl::{
    Annotation, Decl, EnumDecl, FnArg, FnDecl, FnSig, ModDecl, StructDecl, TraitDecl, TraitMethod,
    Visibility,
};
use rust_introspect::record::ApiKind;
use rust_introspect::signature::get_fn_signature;

fn ann(name: &str, value: Option<&str>) -> Annotation {
    Annotation { name: name.to_string(), value: value.map(|v| v.to_string()) }
}

fn sig(ident: &str, is_async: bool, inputs: Vec<FnArg>, output: Option<&str>) -> FnSig {
    FnSig { ident: ident.to_string(), is_async, inputs, output: output.map(|t| t.to_string()) }
}

fn typed(pat: &str, ty: &str) -> FnArg {
    FnArg::Typed { pat: pat.to_string(), ty: ty.to_string() }
}

fn public_fn(name: &str, inputs: Vec<FnArg>, output: Option<&str>) -> Decl {
    Decl::Function(FnDecl { vis: Visibility::Public, attrs: vec![], sig: sig(name, false, inputs, output) })
}

#[test]
fn signature_rendering() {
    assert_eq!(get_fn_signature(&sig("f", false, vec![], None)), "()");
    assert_eq!(get_fn_signature(&sig("f", false, vec![FnArg::Receiver], None)), "(self)");
    assert_eq!(
        get_fn_signature(&sig("f", false, vec![typed("r", "Radius")], Some("Area"))),
        "(r: Radius) -> Area"
    );
    assert_eq!(
        get_fn_signature(&sig("f", true, vec![FnArg::Receiver, typed("n", "u64"), typed("s", "&str")], Some("bool"))),
        "(self, n: u64, s: &str) -> bool"
    );
}

#[test]
fn current_module_joins_the_stack() {
    let c = APICollector::new("mylib".to_string());
    assert_eq!(c.current_module(), "mylib");
}

#[test]
fn three_records() {
    // A module `shapes` with a public `area` and a private `helper`: one
    // function record comes out of `area` and nothing out of `helper`.
    let tree = vec![Decl::Module(ModDecl {
        vis: Visibility::Public,
        ident: "shapes".to_string(),
        content: Some(vec![
            public_fn("area", vec![typed("r", "Radius")], Some("Area")),
            Decl::Function(FnDecl {
                vis: Visibility::Inherited,
                attrs: vec![],
                sig: sig("helper", false, vec![], None),
            }),
        ]),
    })];
    let apis = introspect_decls("lib".to_string(), &tree);
    assert_eq!(apis.len(), 1);
    assert_eq!(apis[0].api, "lib::shapes::area");
    assert_eq!(apis[0].module, "lib::shapes");
    assert_eq!(apis[0].api_type, ApiKind::Function);
    assert_eq!(apis[0].signature, "(r: Radius) -> Area");
    assert!(apis[0].in_all);
    assert!(!apis[0].is_async);
}

#[test]
fn interface_yields_type_and_method_records() {
    let tree = vec![Decl::Trait(TraitDecl {
        vis: Visibility::Public,
        attrs: vec![],
        ident: "Drawable".to_string(),
        items: vec![TraitMethod {
            attrs: vec![],
            sig: sig("draw", false, vec![FnArg::Receiver], None),
        }],
    })];
    let apis = introspect_decls("lib".to_string(), &tree);
    assert_eq!(apis.len(), 2);
    assert_eq!(apis[0].api, "lib::Drawable");
    assert_eq!(apis[0].api_type, ApiKind::Class);
    assert_eq!(apis[0].signature, "trait Drawable");
    assert_eq!(apis[1].api, "lib::Drawable::draw");
    assert_eq!(apis[1].api_type, ApiKind::Method);
    assert_eq!(apis[1].module, "lib");
    assert_eq!(apis[1].signature, "(self)");
}

#[test]
fn interface_with_n_members_yields_one_plus_n_prefixed_records() {
    let tree = vec![Decl::Trait(TraitDecl {
        vis: Visibility::Public,
        attrs: vec![],
        ident: "Shape".to_string(),
        items: vec![
            TraitMethod { attrs: vec![], sig: sig("area", false, vec![FnArg::Receiver], Some("f64")) },
            TraitMethod { attrs: vec![], sig: sig("name", false, vec![FnArg::Receiver], Some("String")) },
            TraitMethod { attrs: vec![], sig: sig("scale", false, vec![FnArg::Receiver, typed("by", "u32")], None) },
        ],
    })];
    let apis = introspect_decls("lib".to_string(), &tree);
    assert_eq!(apis.len(), 1 + 3);
    assert_eq!(apis[0].api_type, ApiKind::Class);
    for m in &apis[1..] {
        assert_eq!(m.api_type, ApiKind::Method);
        assert!(m.api.starts_with(&apis[0].api));
    }
}

#[test]
fn private_module_hides_public_contents() {
    let tree = vec![
        Decl::Module(ModDecl {
            vis: Visibility::Inherited,
            ident: "internal".to_string(),
            content: Some(vec![
                public_fn("exposed", vec![], None),
                Decl::Struct(StructDecl {
                    vis: Visibility::Public,
                    attrs: vec![],
                    ident: "Hidden".to_string(),
                }),
            ]),
        }),
        Decl::Module(ModDecl {
            vis: Visibility::Restricted,
            ident: "semi".to_string(),
            content: Some(vec![public_fn("also_hidden", vec![], None)]),
        }),
    ];
    let apis = introspect_decls("lib".to_string(), &tree);
    assert_eq!(apis.len(), 0);
}

#[test]
fn nested_public_modules_scope_the_path() {
    let tree = vec![Decl::Module(ModDecl {
        vis: Visibility::Public,
        ident: "outer".to_string(),
        content: Some(vec![
            Decl::Module(ModDecl {
                vis: Visibility::Public,
                ident: "inner".to_string(),
                content: Some(vec![public_fn("f", vec![], None)]),
            }),
            public_fn("g", vec![], None),
        ]),
    })];
    let apis = introspect_decls("lib".to_string(), &tree);
    assert_eq!(apis.len(), 2);
    assert_eq!(apis[0].api, "lib::outer::inner::f");
    assert_eq!(apis[0].module, "lib::outer::inner");
    assert_eq!(apis[1].api, "lib::outer::g");
    assert_eq!(apis[1].module, "lib::outer");
}

#[test]
fn structs_enums_and_other_nodes() {
    let tree = vec![
        Decl::Struct(StructDecl {
            vis: Visibility::Public,
            attrs: vec![ann("doc", Some("A point."))],
            ident: "Point".to_string(),
        }),
        Decl::Enum(EnumDecl {
            vis: Visibility::Public,
            attrs: vec![],
            ident: "Color".to_string(),
        }),
        Decl::Struct(StructDecl {
            vis: Visibility::Inherited,
            attrs: vec![],
            ident: "Private".to_string(),
        }),
        Decl::Other,
        Decl::Module(ModDecl {
            vis: Visibility::Public,
            ident: "empty".to_string(),
            content: None,
        }),
    ];
    let apis = introspect_decls("lib".to_string(), &tree);
    assert_eq!(apis.len(), 2);
    assert_eq!(apis[0].api, "lib::Point");
    assert_eq!(apis[0].signature, "struct Point");
    assert!(apis[0].has_docstring);
    assert_eq!(apis[1].api, "lib::Color");
    assert_eq!(apis[1].signature, "enum Color");
    assert_eq!(apis[1].api_type, ApiKind::Class);
}

#[test]
fn async_and_deprecation_metadata_carried() {
    let tree = vec![Decl::Function(FnDecl {
        vis: Visibility::Public,
        attrs: vec![ann("doc", Some("Deprecated: use X instead"))],
        sig: sig("old_fetch", true, vec![typed("url", "&str")], Some("Response")),
    })];
    let apis = introspect_decls("lib".to_string(), &tree);
    assert_eq!(apis.len(), 1);
    assert!(apis[0].is_async);
    assert!(apis[0].has_docstring);
    assert!(apis[0].is_deprecated);
}

fn util_helper_file() -> Vec<Decl> {
    vec![Decl::Module(ModDecl {
        vis: Visibility::Public,
        ident: "util".to_string(),
        content: Some(vec![public_fn("helper", vec![], None)]),
    })]
}

#[test]
fn two_files_keep_duplicate_names() {
    // Two input files that both declare `lib::util::helper`: both records stay.
    let mut collector = APICollector::new("lib".to_string());
    let first = util_helper_file();
    let second = util_helper_file();
    collector.visit_file(&first);
    collector.visit_file(&second);
    assert_eq!(collector.apis.len(), 2);
    assert_eq!(collector.apis[0].api, "lib::util::helper");
    assert_eq!(collector.apis[1].api, "lib::util::helper");
    assert_eq!(collector.apis[0], collector.apis[1]);
}

#[test]
fn rerun_is_deterministic() {
    let build = || {
        vec![
            Decl::Module(ModDecl {
                vis: Visibility::Public,
                ident: "shapes".to_string(),
                content: Some(vec![
                    public_fn("area", vec![typed("r", "Radius")], Some("Area")),
                    Decl::Trait(TraitDecl {
                        vis: Visibility::Public,
                        attrs: vec![ann("deprecated", None)],
                        ident: "Drawable".to_string(),
                        items: vec![TraitMethod {
                            attrs: vec![],
                            sig: sig("draw", false, vec![FnArg::Receiver], None),
                        }],
                    }),
                ]),
            }),
        ]
    };
    let first = introspect_decls("lib".to_string(), &build());
    let second = introspect_decls("lib".to_string(), &build());
    assert_eq!(first, second);
}

#[test]
fn private_module_inside_public_module_stays_hidden() {
    let tree = vec![Decl::Module(ModDecl {
        vis: Visibility::Public,
        ident: "outer".to_string(),
        content: Some(vec![
            Decl::Module(ModDecl {
                vis: Visibility::Inherited,
                ident: "hidden".to_string(),
                content: Some(vec![public_fn("inner", vec![], None)]),
            }),
            public_fn("visible", vec![], None),
        ]),
    })];
    let apis = introspect_decls("lib".to_string(), &tree);
    assert_eq!(apis.len(), 1);
    assert_eq!(apis[0].api, "lib::outer::visible");
}

#[test]
fn async_trait_method_flagged() {
    let tree = vec![Decl::Trait(TraitDecl {
        vis: Visibility::Public,
        attrs: vec![],
        ident: "Fetcher".to_string(),
        items: vec![TraitMethod {
            attrs: vec![ann("doc", Some("Fetches."))],
            sig: sig("fetch", true, vec![FnArg::Receiver, typed("url", "&str")], Some("Vec<u8>")),
        }],
    })];
    let apis = introspect_decls("lib".to_string(), &tree);
    assert_eq!(apis.len(), 2);
    assert!(!apis[0].is_async);
    assert!(apis[1].is_async);
    assert!(apis[1].has_docstring);
    assert_eq!(apis[1].signature, "(self, url: &str) -> Vec<u8>");
}
