use rust_introspect::collector::introspect_decls;
use rust_introspect::decl::{Annotation, Decl, FnDecl, FnSig, StructDecl, TraitDecl, TraitMethod, Visibility};
use rust_introspect::record::ApiKind;
use rust_introspect::report::build_output;

fn public_fn_with(attrs: Vec<Annotation>, name: &str) -> Decl {
    Decl::Function(FnDecl {
        vis: Visibility::Public,
        attrs,
        sig: FnSig { ident: name.to_string(), is_async: false, inputs: vec![], output: None },
    })
}

#[test]
fn kind_tags() {
    assert_eq!(ApiKind::Function.as_text(), "function");
    assert_eq!(ApiKind::Class.as_text(), "class");
    assert_eq!(ApiKind::Method.as_text(), "method");
}

#[test]
fn empty_report() {
    let out = build_output("lib".to_string(), "1.0.0".to_string(), vec![]);
    assert_eq!(out.library, "lib");
    assert_eq!(out.version, "1.0.0");
    assert_eq!(out.language, "rust");
    assert_eq!(out.total_apis, 0);
    assert_eq!(out.apis.len(), 0);
    assert_eq!(out.by_type.function + out.by_type.class + out.by_type.method, 0);
    assert_eq!(out.deprecated_count, 0);
}

#[test]
fn aggregate_counts_partition_the_records() {
    let dep = vec![Annotation { name: "deprecated".to_string(), value: None }];
    let tree = vec![
        public_fn_with(vec![], "a"),
        public_fn_with(dep.clone(), "b"),
        Decl::Struct(StructDecl {
            vis: Visibility::Public,
            attrs: vec![],
            ident: "S".to_string(),
        }),
        Decl::Trait(TraitDecl {
            vis: Visibility::Public,
            attrs: dep,
            ident: "T".to_string(),
            items: vec![
                TraitMethod {
                    attrs: vec![],
                    sig: FnSig {
                        ident: "m1".to_string(),
                        is_async: false,
                        inputs: vec![],
                        output: None,
                    },
                },
                TraitMethod {
                    attrs: vec![],
                    sig: FnSig {
                        ident: "m2".to_string(),
                        is_async: false,
                        inputs: vec![],
                        output: None,
                    },
                },
            ],
        }),
    ];
    let apis = introspect_decls("lib".to_string(), &tree);
    let out = build_output("lib".to_string(), "0.2.1".to_string(), apis);
    assert_eq!(out.total_apis, out.apis.len());
    assert_eq!(out.total_apis, 6);
    assert_eq!(out.by_type.function, 2);
    assert_eq!(out.by_type.class, 2);
    assert_eq!(out.by_type.method, 2);
    assert_eq!(
        out.by_type.function + out.by_type.class + out.by_type.method,
        out.total_apis
    );
    let dep_by_hand = out.apis.iter().filter(|r| r.is_deprecated).count();
    assert_eq!(out.deprecated_count, dep_by_hand);
    assert_eq!(out.deprecated_count, 2);
}

#[test]
fn records_kept_in_discovery_order_unchanged() {
    let tree = vec![public_fn_with(vec![], "first"), public_fn_with(vec![], "second")];
    let apis = introspect_decls("lib".to_string(), &tree);
    let expected: Vec<String> = apis.iter().map(|r| r.api.clone()).collect();
    let out = build_output("lib".to_string(), "1.0".to_string(), apis);
    let got: Vec<String> = out.apis.iter().map(|r| r.api.clone()).collect();
    assert_eq!(got, expected);
    assert_eq!(got, vec!["lib::first".to_string(), "lib::second".to_string()]);
}
