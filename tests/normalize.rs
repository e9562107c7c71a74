use ts_shape::{
    normalize, render, DataType, EntityName, Field, Fields, Keyword, LiteralNode, LiteralType,
    Property, PropertyKey, Signature, TupleElement, TypeNode, TypeParser, TypeQuery, MAX_NESTING,
};

fn kw(k: Keyword) -> TypeNode {
    TypeNode::Keyword(k)
}

fn prop(name: &str, optional: bool, annotation: Option<TypeNode>) -> Signature {
    Signature::Property(Property {
        key: PropertyKey::Identifier(name.to_string()),
        optional,
        annotation,
    })
}

#[test]
fn keywords_normalize_to_primitives_with_fixed_labels() {
    let cases = vec![
        (Keyword::Any, DataType::Any, "Any"),
        (Keyword::Unknown, DataType::Unknown, "Unknown"),
        (Keyword::Number, DataType::Number, "Number"),
        (Keyword::String, DataType::String, "String"),
        (Keyword::Object, DataType::Object, "Object"),
        (Keyword::BigInt, DataType::BigInt, "BigInt"),
        (Keyword::Symbol, DataType::Symbol, "Symbol"),
        (Keyword::Void, DataType::Void, "Void"),
        (Keyword::Undefined, DataType::Undefined, "Undefined"),
        (Keyword::Null, DataType::Null, "Null"),
        (Keyword::Never, DataType::Never, "Never"),
        (Keyword::Boolean, DataType::Boolean, "Boolean"),
    ];
    for (k, d, label) in cases {
        let n = normalize(&kw(k));
        assert_eq!(n, d);
        assert_eq!(render(&n), label);
    }
}

#[test]
fn array_renders_as_array_of_element() {
    let t = TypeNode::Array(Box::new(kw(Keyword::String)));
    assert_eq!(render(&normalize(&t)), "Array of String");
    let tt = TypeNode::Array(Box::new(TypeNode::Array(Box::new(kw(Keyword::String)))));
    let d = normalize(&tt);
    assert_eq!(
        d,
        DataType::Array(Box::new(DataType::Array(Box::new(DataType::String))))
    );
    assert_eq!(render(&d), "Array of Array of String");
}

#[test]
fn type_literal_keeps_fields_in_declaration_order() {
    let t = TypeNode::TypeLiteral(vec![
        prop("a", false, Some(kw(Keyword::String))),
        prop("b", true, Some(kw(Keyword::Number))),
    ]);
    let expected = DataType::TypeLiteral(Fields(vec![
        Field { name: "a".to_string(), data_type: DataType::String, optional: false },
        Field { name: "b".to_string(), data_type: DataType::Number, optional: true },
    ]));
    assert_eq!(normalize(&t), expected);
    assert_eq!(render(&expected), "TypeLiteral of { a: String, b?: Number }");
}

#[test]
fn type_literal_member_rules() {
    let t = TypeNode::TypeLiteral(vec![
        prop("untyped", false, None),
        Signature::Property(Property {
            key: PropertyKey::Expression,
            optional: false,
            annotation: Some(kw(Keyword::Number)),
        }),
        Signature::Property(Property {
            key: PropertyKey::PrivateIdentifier("secret".to_string()),
            optional: false,
            annotation: Some(kw(Keyword::Boolean)),
        }),
        Signature::Method,
        Signature::Index,
        Signature::Call,
        Signature::Construct,
    ]);
    let expected = DataType::TypeLiteral(Fields(vec![
        Field { name: "untyped".to_string(), data_type: DataType::Any, optional: false },
        Field { name: "secret".to_string(), data_type: DataType::Boolean, optional: false },
    ]));
    assert_eq!(normalize(&t), expected);
}

#[test]
fn union_and_intersection_keep_order_without_flattening() {
    let inner = TypeNode::Union(vec![kw(Keyword::Null), kw(Keyword::Undefined)]);
    let t = TypeNode::Union(vec![kw(Keyword::String), inner, kw(Keyword::String)]);
    let d = normalize(&t);
    assert_eq!(
        d,
        DataType::Union(vec![
            DataType::String,
            DataType::Union(vec![DataType::Null, DataType::Undefined]),
            DataType::String,
        ])
    );
    assert_eq!(render(&d), "Union of String, Union of Null, Undefined, String");
    let i = TypeNode::Intersection(vec![kw(Keyword::Object), kw(Keyword::Unknown)]);
    assert_eq!(render(&normalize(&i)), "Intersection of Object, Unknown");
}

#[test]
fn tuple_elements_optional_and_rest() {
    let t = TypeNode::Tuple(vec![
        TupleElement::Plain(kw(Keyword::Number)),
        TupleElement::Optional(kw(Keyword::String)),
        TupleElement::Rest(TypeNode::Array(Box::new(kw(Keyword::Boolean)))),
    ]);
    let d = normalize(&t);
    assert_eq!(
        d,
        DataType::Tuple(vec![
            DataType::Number,
            DataType::Optional(Box::new(DataType::String)),
            DataType::Other,
        ])
    );
    assert_eq!(render(&d), "Tuple of Number, Optional of String, Other");
    assert_eq!(render(&normalize(&TypeNode::Tuple(vec![]))), "Tuple of ");
}

#[test]
fn qualified_reference_keeps_rightmost_segment() {
    let name = EntityName::Qualified(
        Box::new(EntityName::Qualified(
            Box::new(EntityName::Identifier("A".to_string())),
            "B".to_string(),
        )),
        "C".to_string(),
    );
    let d = normalize(&TypeNode::Reference(name));
    assert_eq!(d, DataType::TypeReference("C".to_string()));
    assert_eq!(render(&d), "C");
    let plain = normalize(&TypeNode::Reference(EntityName::Identifier("Foo".to_string())));
    assert_eq!(plain, DataType::TypeReference("Foo".to_string()));
}

#[test]
fn type_queries_and_imports() {
    let q = TypeNode::Query(TypeQuery::Entity(EntityName::Qualified(
        Box::new(EntityName::Identifier("ns".to_string())),
        "value".to_string(),
    )));
    assert_eq!(normalize(&q), DataType::TypeReference("value".to_string()));
    let qi = TypeNode::Query(TypeQuery::Import("./mod".to_string()));
    assert_eq!(normalize(&qi), DataType::Import("./mod".to_string()));
    let i = normalize(&TypeNode::Import("lib".to_string()));
    assert_eq!(i, DataType::Import("lib".to_string()));
    assert_eq!(render(&i), "Import of \"lib\"");
}

#[test]
fn literal_types_render_with_their_kind() {
    let cases = vec![
        (LiteralNode::String("hi".to_string()), "Literal of String(\"hi\")"),
        (LiteralNode::Boolean(true), "Literal of Boolean(true)"),
        (LiteralNode::Boolean(false), "Literal of Boolean(false)"),
        (LiteralNode::Number("42".to_string()), "Literal of Number(42)"),
        (LiteralNode::BigInt("10n".to_string()), "Literal of BigInt(10n)"),
        (LiteralNode::RegExp("/a+/g".to_string()), "Literal of RegExp(/a+/g)"),
        (LiteralNode::UnaryExpression, "Literal of UnaryExpression"),
        (LiteralNode::Null, "Literal of Null"),
    ];
    for (l, text) in cases {
        assert_eq!(render(&normalize(&TypeNode::Literal(l))), text);
    }
    let tpl = TypeNode::Literal(LiteralNode::Template(vec![
        kw(Keyword::String),
        kw(Keyword::Number),
    ]));
    let d = normalize(&tpl);
    assert_eq!(
        d,
        DataType::LiteralTypes(LiteralType::Template(vec![DataType::String, DataType::Number]))
    );
    assert_eq!(render(&d), "Literal of Template of String, Number");
}

#[test]
fn unsupported_constructs_become_other() {
    assert_eq!(normalize(&TypeNode::Unsupported), DataType::Other);
    assert_eq!(render(&DataType::Other), "Other");
}

#[test]
fn nesting_past_the_limit_becomes_other() {
    let mut t = kw(Keyword::String);
    for _ in 0..(MAX_NESTING + 10) {
        t = TypeNode::Array(Box::new(t));
    }
    let mut d = &normalize(&t);
    let mut arrays = 0;
    while let DataType::Array(inner) = d {
        arrays += 1;
        d = inner;
    }
    assert_eq!(arrays, MAX_NESTING);
    assert_eq!(*d, DataType::Other);

    let mut shallow = kw(Keyword::String);
    for _ in 0..(MAX_NESTING - 1) {
        shallow = TypeNode::Array(Box::new(shallow));
    }
    let mut e = &normalize(&shallow);
    while let DataType::Array(inner) = e {
        e = inner;
    }
    assert_eq!(*e, DataType::String);
}

#[test]
fn rendering_twice_gives_the_same_text() {
    let t = TypeNode::Union(vec![
        TypeNode::TypeLiteral(vec![prop("x", true, Some(kw(Keyword::String)))]),
        TypeNode::Array(Box::new(kw(Keyword::Number))),
    ]);
    let d = normalize(&t);
    let first = render(&d);
    let second = render(&d);
    assert_eq!(first, second);
    assert_eq!(first, "Union of TypeLiteral of { x?: String }, Array of Number");
}

#[test]
fn trait_parser_matches_normalize() {
    let t = TypeNode::Array(Box::new(kw(Keyword::Symbol)));
    assert_eq!(t.parser(), normalize(&t));
}
