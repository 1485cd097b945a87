use codegen::features::Features;
use codegen::types::{Definitions, Enum, Field, Node, Punctuated, Struct, Type, Variant};
use std::collections::BTreeMap;

fn feats(flags: &[&str]) -> Features {
    let mut names: Vec<String> = Vec::new();
    for flag in flags {
        names.push(flag.to_string());
    }
    Features::new(names)
}

fn flag_names(features: &Features) -> Vec<String> {
    features.iter().to_vec()
}

#[test]
fn join_empty_adopts_other_in_order() {
    let mut a = feats(&[]);
    let b = feats(&["derive", "full"]);
    assert!(a.can_join(&b));
    a.join(&b);
    assert_eq!(a.len(), 2);
    assert_eq!(a.index(0), "derive");
    assert_eq!(a.index(1), "full");
}

#[test]
fn join_empty_with_empty_stays_empty() {
    let mut a = feats(&[]);
    let b = feats(&[]);
    assert!(a.can_join(&b));
    a.join(&b);
    assert_eq!(a.len(), 0);
}

#[test]
fn join_subset_into_superset_yields_superset() {
    let mut a = feats(&["x"]);
    let b = feats(&["x", "y"]);
    assert!(a.can_join(&b));
    a.join(&b);
    assert_eq!(a.len(), 2);
    assert!(a.contains("x"));
    assert!(a.contains("y"));
}

#[test]
fn join_superset_with_subset_yields_superset() {
    let mut b = feats(&["x", "y"]);
    let a = feats(&["x"]);
    assert!(b.can_join(&a));
    b.join(&a);
    assert_eq!(b.len(), 2);
    assert!(b.contains("x"));
    assert!(b.contains("y"));
}

#[test]
fn join_equal_sets_keeps_other_order() {
    let mut a = feats(&["x", "y"]);
    let b = feats(&["y", "x"]);
    assert!(a.can_join(&b));
    a.join(&b);
    assert_eq!(a.len(), 2);
    assert_eq!(a.index(0), "y");
    assert_eq!(a.index(1), "x");
}

#[test]
fn join_incomparable_sets_is_refused() {
    let a = feats(&["x", "y"]);
    let b = feats(&["x", "z"]);
    assert!(!a.can_join(&b));
    assert!(!b.can_join(&a));
}

#[test]
fn join_disjoint_unequal_sets_is_refused() {
    let a = feats(&["x"]);
    let b = feats(&["y", "z"]);
    assert!(!a.can_join(&b));
    assert!(!b.can_join(&a));
}

#[test]
fn contains_every_inserted_flag_and_no_other() {
    let features = feats(&["alpha", "beta"]);
    assert!(features.contains("alpha"));
    assert!(features.contains("beta"));
    assert!(!features.contains("gamma"));
    assert!(!features.contains(""));
}

#[test]
fn new_keeps_order_and_duplicates_verbatim() {
    let features = feats(&["b", "a", "b"]);
    assert_eq!(features.len(), 3);
    assert_eq!(features.index(0), "b");
    assert_eq!(features.index(1), "a");
    assert_eq!(features.index(2), "b");
}

#[test]
fn iter_returns_flags_in_original_order() {
    let features = feats(&["full", "derive", "printing"]);
    let names = flag_names(&features);
    assert_eq!(names, vec!["full".to_string(), "derive".to_string(), "printing".to_string()]);
}

#[test]
fn default_features_are_empty() {
    let features = Features::default();
    assert_eq!(features.len(), 0);
    assert!(!features.contains("full"));
    assert!(flag_names(&features).is_empty());
}

#[test]
fn struct_round_trip_discriminators() {
    let fields = vec![
        Field::new("a".to_string(), Type::Std("String".to_string())),
        Field::new(
            "b".to_string(),
            Type::Option(Box::new(Type::Box(Box::new(Type::Item("Expr".to_string()))))),
        ),
    ];
    let item = Struct::new("Binary".to_string(), Features::default(), fields, true);
    let node = Node::Struct(item);
    assert_eq!(node.tag(), "struct");
    assert_eq!(node.ident(), "Binary");
    match &node {
        Node::Struct(item) => {
            let fields = item.fields();
            assert_eq!(fields.len(), 2);
            assert_eq!(fields[0].ident(), "a");
            assert_eq!(fields[0].ty().tag(), "std");
            assert_eq!(fields[1].ident(), "b");
            let outer = fields[1].ty();
            assert_eq!(outer.tag(), "option");
            match outer {
                Type::Option(middle) => {
                    assert_eq!(middle.tag(), "box");
                    match &**middle {
                        Type::Box(inner) => {
                            assert_eq!(inner.tag(), "item");
                            match &**inner {
                                Type::Item(name) => assert_eq!(name, "Expr"),
                                other => panic!("expected an item type, got {:?}", other),
                            }
                        }
                        other => panic!("expected a box type, got {:?}", other),
                    }
                }
                other => panic!("expected an option type, got {:?}", other),
            }
        }
        Node::Enum(_) => panic!("expected a struct node"),
    }
}

#[test]
fn enum_preserves_variant_order_and_field_counts() {
    let variants = vec![
        Variant::new("Unit".to_string(), vec![]),
        Variant::new("Assign".to_string(), vec![Type::Token("Eq".to_string())]),
    ];
    let item = Enum::new("Stmt".to_string(), feats(&["full"]), variants);
    let node = Node::Enum(item);
    assert_eq!(node.tag(), "enum");
    assert_eq!(node.ident(), "Stmt");
    assert_eq!(node.features().len(), 1);
    assert!(node.features().contains("full"));
    match &node {
        Node::Enum(item) => {
            let variants = item.variants();
            assert_eq!(variants.len(), 2);
            assert_eq!(variants[0].ident(), "Unit");
            assert_eq!(variants[0].fields().len(), 0);
            assert_eq!(variants[1].ident(), "Assign");
            assert_eq!(variants[1].fields().len(), 1);
            assert_eq!(variants[1].fields()[0].tag(), "token");
            match &variants[1].fields()[0] {
                Type::Token(name) => assert_eq!(name, "Eq"),
                other => panic!("expected a token type, got {:?}", other),
            }
        }
        Node::Struct(_) => panic!("expected an enum node"),
    }
}

#[test]
fn type_tags_cover_every_variant() {
    let element = Punctuated::new(Type::Item("Expr".to_string()), ",".to_string());
    assert_eq!(Type::Item("Expr".to_string()).tag(), "item");
    assert_eq!(Type::Std("String".to_string()).tag(), "std");
    assert_eq!(Type::Ext("Span".to_string()).tag(), "ext");
    assert_eq!(Type::Token("Eq".to_string()).tag(), "token");
    assert_eq!(Type::Group("Paren".to_string()).tag(), "group");
    assert_eq!(Type::Punctuated(element).tag(), "punctuated");
    assert_eq!(Type::Option(Box::new(Type::Std("u32".to_string()))).tag(), "option");
    assert_eq!(Type::Box(Box::new(Type::Item("Expr".to_string()))).tag(), "box");
    assert_eq!(Type::Vec(Box::new(Type::Item("Attribute".to_string()))).tag(), "vec");
    assert_eq!(Type::Tuple(vec![]).tag(), "tuple");
}

#[test]
fn punctuated_exposes_element_and_separator() {
    let list = Punctuated::new(Type::Item("Expr".to_string()), ",".to_string());
    assert_eq!(list.element().tag(), "item");
    assert_eq!(list.punct(), ",");
    match list.element() {
        Type::Item(name) => assert_eq!(name, "Expr"),
        other => panic!("expected an item type, got {:?}", other),
    }
}

#[test]
fn struct_accessors_report_constructed_values() {
    let item = Struct::new(
        "ExprPath".to_string(),
        feats(&["full"]),
        vec![Field::new("path".to_string(), Type::Item("Path".to_string()))],
        false,
    );
    assert_eq!(item.features().len(), 1);
    assert!(item.features().contains("full"));
    assert_eq!(item.fields().len(), 1);
    assert!(!item.all_fields_pub());
}

#[test]
fn field_accessors_report_constructed_values() {
    let field = Field::new("attrs".to_string(), Type::Vec(Box::new(Type::Item("Attribute".to_string()))));
    assert_eq!(field.ident(), "attrs");
    assert_eq!(field.ty().tag(), "vec");
}

#[test]
fn definitions_holds_nodes_and_token_mapping() {
    let node = Node::Struct(Struct::new("Lit".to_string(), Features::default(), vec![], true));
    let mut tokens: BTreeMap<String, String> = BTreeMap::new();
    tokens.insert("==".to_string(), "EqEq".to_string());
    tokens.insert("=".to_string(), "Eq".to_string());
    let definitions = Definitions { types: vec![node], tokens };
    assert_eq!(definitions.types.len(), 1);
    assert_eq!(definitions.types[0].ident(), "Lit");
    assert_eq!(definitions.tokens.get("=").map(String::as_str), Some("Eq"));
    assert_eq!(definitions.tokens.get("==").map(String::as_str), Some("EqEq"));
    assert_eq!(definitions.tokens.len(), 2);
}
