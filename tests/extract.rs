use ts_shape::{
    extract_file, hover_text, parse_all, render_structure, render_structures, ClassMember,
    Content, DataType, Declaration, ExtractError, Field, Fields, Item, Keyword, ParsedStructure,
    Processor, Property, PropertyKey, Signature, StructureIndex, StructureInfo, StructureType,
    TypeNode,
};

fn kw(k: Keyword) -> TypeNode {
    TypeNode::Keyword(k)
}

fn property(name: &str, optional: bool, annotation: Option<TypeNode>) -> Property {
    Property { key: PropertyKey::Identifier(name.to_string()), optional, annotation }
}

fn field(name: &str, data_type: DataType, optional: bool) -> Field {
    Field { name: name.to_string(), data_type, optional }
}

fn class_c() -> Declaration {
    Declaration::Class {
        name: Some("C".to_string()),
        members: vec![
            ClassMember::Property(property("n", false, Some(kw(Keyword::Number)))),
            ClassMember::Property(property("s", true, Some(kw(Keyword::String)))),
        ],
    }
}

fn interface(name: &str) -> Declaration {
    Declaration::Interface { name: name.to_string(), members: vec![] }
}

fn key(name: &str, kind: StructureType, path: &str) -> StructureInfo {
    StructureInfo::new(name.to_string(), kind, path.to_string())
}

#[test]
fn class_end_to_end() {
    let path = "src/c.ts".to_string();
    let outcome = extract_file(&vec![Item::Declaration(class_c())], &path);
    assert!(outcome.errors.is_empty());
    assert_eq!(outcome.structures.len(), 1);
    let s = &outcome.structures[0];
    assert_eq!(s.0, key("C", StructureType::Class, "src/c.ts"));
    assert_eq!(
        s.1,
        Content::Fields(Fields(vec![
            field("n", DataType::Number, false),
            field("s", DataType::String, true),
        ]))
    );
    let text = render_structure(s);
    assert_eq!(text, "C (Class) in src/c.ts\n  n: Number\n  s?: String\n");
    assert!(text.contains("  n: Number\n"));
    assert!(text.contains("  s?: String\n"));
    assert!(!text.contains("n?"));

    let index = parse_all(vec![outcome]);
    assert_eq!(index.len(), 1);
    let all = index.into_structures();
    assert_eq!(all.len(), 1);
    assert_eq!(all[0].0, key("C", StructureType::Class, "src/c.ts"));
}

#[test]
fn class_members_other_than_properties_are_skipped() {
    let d = Declaration::Class {
        name: Some("K".to_string()),
        members: vec![
            ClassMember::Method,
            ClassMember::Property(property("untyped", false, None)),
            ClassMember::Accessor,
            ClassMember::StaticBlock,
            ClassMember::IndexSignature,
            ClassMember::Property(Property {
                key: PropertyKey::Expression,
                optional: false,
                annotation: Some(kw(Keyword::Number)),
            }),
            ClassMember::Property(Property {
                key: PropertyKey::PrivateIdentifier("hidden".to_string()),
                optional: true,
                annotation: Some(kw(Keyword::Number)),
            }),
        ],
    };
    let s = ParsedStructure::try_new(&d, &"k.ts".to_string()).unwrap();
    assert_eq!(
        s.1,
        Content::Fields(Fields(vec![
            field("untyped", DataType::Any, false),
            field("hidden", DataType::Number, true),
        ]))
    );
}

#[test]
fn interface_with_property_signatures() {
    let d = Declaration::Interface {
        name: "I".to_string(),
        members: vec![
            Signature::Property(property("id", false, Some(kw(Keyword::Number)))),
            Signature::Method,
            Signature::Index,
            Signature::Property(property("tags", true, Some(TypeNode::Array(Box::new(kw(
                Keyword::String,
            )))))),
        ],
    };
    let s = d.process(&"i.ts".to_string()).unwrap();
    assert_eq!(s.0, key("I", StructureType::Interface, "i.ts"));
    assert_eq!(
        s.1,
        Content::Fields(Fields(vec![
            field("id", DataType::Number, false),
            field("tags", DataType::Array(Box::new(DataType::String)), true),
        ]))
    );
    assert_eq!(
        render_structure(&s),
        "I (Interface) in i.ts\n  id: Number\n  tags?: Array of String\n"
    );
}

#[test]
fn alias_of_union_of_object_types_gives_union_members() {
    let rhs = TypeNode::Union(vec![
        TypeNode::TypeLiteral(vec![Signature::Property(property(
            "x",
            false,
            Some(kw(Keyword::String)),
        ))]),
        TypeNode::TypeLiteral(vec![Signature::Property(property(
            "y",
            false,
            Some(kw(Keyword::Number)),
        ))]),
    ]);
    let d = Declaration::TypeAlias { name: "T".to_string(), annotation: rhs };
    let s = ParsedStructure::try_new(&d, &"t.ts".to_string()).unwrap();
    assert_eq!(s.0, key("T", StructureType::TypeAlias, "t.ts"));
    assert_eq!(
        s.1,
        Content::UnionMembers(vec![
            DataType::TypeLiteral(Fields(vec![field("x", DataType::String, false)])),
            DataType::TypeLiteral(Fields(vec![field("y", DataType::Number, false)])),
        ])
    );
    assert_eq!(
        render_structure(&s),
        "T (TypeAlias) in t.ts\n  | TypeLiteral of { x: String }\n  | TypeLiteral of { y: Number }\n"
    );
}

#[test]
fn alias_contents_by_right_hand_side() {
    let path = "a.ts".to_string();
    let obj = Declaration::TypeAlias {
        name: "O".to_string(),
        annotation: TypeNode::TypeLiteral(vec![Signature::Property(property(
            "k",
            true,
            None,
        ))]),
    };
    let s = ParsedStructure::try_new(&obj, &path).unwrap();
    assert_eq!(s.1, Content::Fields(Fields(vec![field("k", DataType::Any, true)])));

    let inter = Declaration::TypeAlias {
        name: "X".to_string(),
        annotation: TypeNode::Intersection(vec![kw(Keyword::Object), kw(Keyword::Null)]),
    };
    let s = ParsedStructure::try_new(&inter, &path).unwrap();
    assert_eq!(s.1, Content::IntersectionMembers(vec![DataType::Object, DataType::Null]));
    assert_eq!(render_structure(&s), "X (TypeAlias) in a.ts\n  & Object\n  & Null\n");

    let prim = Declaration::TypeAlias { name: "P".to_string(), annotation: kw(Keyword::Number) };
    let s = ParsedStructure::try_new(&prim, &path).unwrap();
    assert_eq!(s.1, Content::NoContent);
    assert_eq!(render_structure(&s), "P (TypeAlias) in a.ts\n  (no content)\n");
}

#[test]
fn anonymous_class_fails_and_sibling_still_appears() {
    let path = "m.ts".to_string();
    let anonymous = Declaration::Class { name: None, members: vec![] };
    assert_eq!(
        ParsedStructure::try_new(&anonymous, &path).unwrap_err(),
        ExtractError::MissingName
    );
    let items = vec![Item::Exported(anonymous), Item::Declaration(interface("Ok"))];
    let outcome = extract_file(&items, &path);
    assert_eq!(outcome.errors, vec![ExtractError::MissingName]);
    assert_eq!(outcome.structures.len(), 1);
    assert_eq!(outcome.structures[0].0, key("Ok", StructureType::Interface, "m.ts"));
    let index = parse_all(vec![outcome]);
    assert_eq!(index.len(), 1);
}

#[test]
fn other_declarations_and_statements() {
    let path = "o.ts".to_string();
    assert_eq!(
        ParsedStructure::try_new(&Declaration::Other, &path).unwrap_err(),
        ExtractError::Unsupported
    );
    let items = vec![
        Item::Other,
        Item::Declaration(Declaration::Other),
        Item::Exported(interface("E")),
        Item::Other,
    ];
    let outcome = extract_file(&items, &path);
    assert_eq!(outcome.path, "o.ts");
    assert_eq!(outcome.errors, vec![ExtractError::Unsupported]);
    assert_eq!(outcome.structures.len(), 1);
    assert_eq!(outcome.structures[0].0, key("E", StructureType::Interface, "o.ts"));
}

#[test]
fn same_interface_in_two_files_and_twice_in_one() {
    let a = extract_file(&vec![Item::Declaration(interface("Foo"))], &"a.ts".to_string());
    let b = extract_file(&vec![Item::Declaration(interface("Foo"))], &"b.ts".to_string());
    let index = parse_all(vec![a, b]);
    assert_eq!(index.len(), 2);
    let mut keys: Vec<String> =
        index.into_structures().into_iter().map(|s| s.0.file_path.clone()).collect();
    keys.sort();
    assert_eq!(keys, vec!["a.ts".to_string(), "b.ts".to_string()]);

    let first = extract_file(&vec![Item::Declaration(interface("Foo"))], &"a.ts".to_string());
    let second = extract_file(
        &vec![Item::Declaration(Declaration::Interface {
            name: "Foo".to_string(),
            members: vec![Signature::Property(property("v", false, Some(kw(Keyword::Void))))],
        })],
        &"a.ts".to_string(),
    );
    let index = parse_all(vec![first, second]);
    assert_eq!(index.len(), 1);
    let all = index.into_structures();
    assert_eq!(all.len(), 1);
    assert_eq!(all[0].0, key("Foo", StructureType::Interface, "a.ts"));
    assert_eq!(all[0].1, Content::Fields(Fields(vec![field("v", DataType::Void, false)])));
}

#[test]
fn index_insert_replaces_content_for_equal_key() {
    let mut index = StructureIndex::new();
    assert_eq!(index.len(), 0);
    index.insert(ParsedStructure(key("A", StructureType::Class, "x.ts"), Content::NoContent));
    index.insert(ParsedStructure(key("A", StructureType::Interface, "x.ts"), Content::NoContent));
    index.insert(ParsedStructure(
        key("A", StructureType::Class, "x.ts"),
        Content::UnionMembers(vec![DataType::Never]),
    ));
    assert_eq!(index.len(), 2);
    let all = index.into_structures();
    let class = all.iter().find(|s| s.0.struct_type == StructureType::Class).unwrap();
    assert_eq!(class.1, Content::UnionMembers(vec![DataType::Never]));
}

#[test]
fn index_insert_all_keeps_last_write() {
    let mut index = StructureIndex::new();
    index.insert_all(vec![
        ParsedStructure(key("B", StructureType::TypeAlias, "y.ts"), Content::NoContent),
        ParsedStructure(
            key("B", StructureType::TypeAlias, "y.ts"),
            Content::IntersectionMembers(vec![DataType::Any]),
        ),
    ]);
    let all = index.into_structures();
    assert_eq!(all.len(), 1);
    assert_eq!(all[0].1, Content::IntersectionMembers(vec![DataType::Any]));
}

#[test]
fn empty_batch_gives_empty_index() {
    let index = parse_all(vec![]);
    assert_eq!(index.len(), 0);
    assert!(index.into_structures().is_empty());
}

#[test]
fn hover_and_batch_text() {
    let path = "h.ts".to_string();
    let items = vec![Item::Declaration(class_c()), Item::Exported(interface("J"))];
    assert_eq!(
        hover_text(&items, &path),
        "C (Class) in h.ts\n  n: Number\n  s?: String\n\nJ (Interface) in h.ts\n"
    );
    assert_eq!(hover_text(&vec![], &path), "");
    let outcome = extract_file(&items, &path);
    assert_eq!(render_structures(&outcome.structures), hover_text(&items, &path));
}
