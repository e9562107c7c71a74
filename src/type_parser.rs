//! Normalization of a type expression into the closed type model.
use vstd::prelude::*;

use crate::syntax::{
    EntityName, Keyword, LiteralNode, Property, PropertyKey, Signature, TupleElement, TypeNode,
    TypeQuery,
};
use crate::types::{
    field_model, field_models, literal_model, type_model, type_models, DataType, Field, FieldModel, Fields,
    LiteralModel, LiteralType, TypeModel,
};

verus! {

/// Nesting depth past which a type expression is no longer followed and
/// normalizes to `Other`; it keeps adversarially deep input from exhausting
/// the stack.
pub const MAX_NESTING: usize = 256;

/// The primitive variant that a keyword stands for.
pub open spec fn keyword_model(k: Keyword) -> TypeModel {
    match k {
        Keyword::Any => TypeModel::Any,
        Keyword::Unknown => TypeModel::Unknown,
        Keyword::Number => TypeModel::Number,
        Keyword::String => TypeModel::String,
        Keyword::Object => TypeModel::Object,
        Keyword::BigInt => TypeModel::BigInt,
        Keyword::Symbol => TypeModel::Symbol,
        Keyword::Void => TypeModel::Void,
        Keyword::Undefined => TypeModel::Undefined,
        Keyword::Null => TypeModel::Null,
        Keyword::Never => TypeModel::Never,
        Keyword::Boolean => TypeModel::Boolean,
    }
}

/// The rightmost identifier of a possibly qualified name.
pub open spec fn rightmost(e: EntityName) -> Seq<char> {
    match e {
        EntityName::Identifier(s) => s@,
        EntityName::Qualified(_, s) => s@,
    }
}

/// The model of the type expression `n` met at nesting depth `depth`.
pub open spec fn normalized(n: TypeNode, depth: nat) -> TypeModel
    decreases MAX_NESTING - depth, 1int,
{
    if depth >= MAX_NESTING {
        TypeModel::Other
    } else {
        match n {
            TypeNode::Keyword(k) => keyword_model(k),
            TypeNode::Array(e) => TypeModel::Array(Box::new(normalized(*e, depth + 1))),
            TypeNode::Tuple(es) => TypeModel::Tuple(normalized_elements(es@, depth + 1)),
            TypeNode::Union(v) => TypeModel::Union(normalized_all(v@, depth + 1)),
            TypeNode::Intersection(v) => TypeModel::Intersection(normalized_all(v@, depth + 1)),
            TypeNode::TypeLiteral(ms) => TypeModel::TypeLiteral(signature_fields(ms@, depth + 1)),
            TypeNode::Reference(e) => TypeModel::TypeReference(rightmost(e)),
            TypeNode::Query(TypeQuery::Entity(e)) => TypeModel::TypeReference(rightmost(e)),
            TypeNode::Query(TypeQuery::Import(m)) => TypeModel::Import(m@),
            TypeNode::Import(m) => TypeModel::Import(m@),
            TypeNode::Literal(l) => TypeModel::Literal(
                match l {
                    LiteralNode::String(s) => LiteralModel::String(s@),
                    LiteralNode::Boolean(b) => LiteralModel::Boolean(b),
                    LiteralNode::Number(s) => LiteralModel::Number(s@),
                    LiteralNode::BigInt(s) => LiteralModel::BigInt(s@),
                    LiteralNode::RegExp(s) => LiteralModel::RegExp(s@),
                    LiteralNode::Template(v) => LiteralModel::Template(
                        normalized_all(v@, depth + 1),
                    ),
                    LiteralNode::UnaryExpression => LiteralModel::UnaryExpression,
                    LiteralNode::Null => LiteralModel::Null,
                },
            ),
            TypeNode::Unsupported => TypeModel::Other,
        }
    }
}

/// The models of a sequence of type expressions, in order.
pub open spec fn normalized_all(s: Seq<TypeNode>, depth: nat) -> Seq<TypeModel>
    decreases MAX_NESTING - depth, s.len() + 3,
{
    if s.len() == 0 {
        Seq::empty()
    } else {
        normalized_all(s.drop_last(), depth).push(normalized(s.last(), depth))
    }
}

/// The model of one tuple element: an element marked optional becomes
/// `Optional`, a rest element is not modelled.
pub open spec fn normalized_element(e: TupleElement, depth: nat) -> TypeModel
    decreases MAX_NESTING - depth, 2int,
{
    match e {
        TupleElement::Plain(t) => normalized(t, depth),
        TupleElement::Optional(t) => TypeModel::Optional(Box::new(normalized(t, depth))),
        TupleElement::Rest(_) => TypeModel::Other,
    }
}

pub open spec fn normalized_elements(s: Seq<TupleElement>, depth: nat) -> Seq<TypeModel>
    decreases MAX_NESTING - depth, s.len() + 3,
{
    if s.len() == 0 {
        Seq::empty()
    } else {
        normalized_elements(s.drop_last(), depth).push(normalized_element(s.last(), depth))
    }
}

/// The name of a property key, where it has a plain one.
pub open spec fn key_name(k: PropertyKey) -> Option<Seq<char>> {
    match k {
        PropertyKey::Identifier(s) => Some(s@),
        PropertyKey::PrivateIdentifier(s) => Some(s@),
        PropertyKey::Expression => None,
    }
}

/// The field that a property yields: none where its key has no plain name;
/// a property without a type annotation is of type `Any`.
pub open spec fn property_field(p: Property, depth: nat) -> Option<FieldModel>
    decreases MAX_NESTING - depth, 2int,
{
    match key_name(p.key) {
        Some(name) => Some(
            FieldModel {
                name,
                data_type: match p.annotation {
                    Some(t) => normalized(t, depth),
                    None => TypeModel::Any,
                },
                optional: p.optional,
            },
        ),
        None => None,
    }
}

/// The fields of a list of signatures: one per property signature with a
/// plain name, in order; method, index, call and construct signatures are
/// skipped.
pub open spec fn signature_fields(s: Seq<Signature>, depth: nat) -> Seq<FieldModel>
    decreases MAX_NESTING - depth, s.len() + 3,
{
    if s.len() == 0 {
        Seq::empty()
    } else {
        let rest = signature_fields(s.drop_last(), depth);
        match s.last() {
            Signature::Property(p) => match property_field(p, depth) {
                Some(f) => rest.push(f),
                None => rest,
            },
            _ => rest,
        }
    }
}

/// The model of a type expression at the top of a declaration.
pub open spec fn normalize_spec(n: TypeNode) -> TypeModel {
    normalized(n, 0)
}

proof fn lemma_type_models_push(s: Seq<DataType>, x: DataType)
    ensures
        type_models(s.push(x)) == type_models(s).push(type_model(x)),
{
    assert(s.push(x).drop_last() =~= s);
}

proof fn lemma_field_models_push(s: Seq<Field>, x: Field)
    ensures
        field_models(s.push(x)) == field_models(s).push(field_model(x)),
{
    assert(s.push(x).drop_last() =~= s);
}

fn keyword_type(k: Keyword) -> (r: DataType)
    ensures
        r@ == keyword_model(k),
{
    match k {
        Keyword::Any => DataType::Any,
        Keyword::Unknown => DataType::Unknown,
        Keyword::Number => DataType::Number,
        Keyword::String => DataType::String,
        Keyword::Object => DataType::Object,
        Keyword::BigInt => DataType::BigInt,
        Keyword::Symbol => DataType::Symbol,
        Keyword::Void => DataType::Void,
        Keyword::Undefined => DataType::Undefined,
        Keyword::Null => DataType::Null,
        Keyword::Never => DataType::Never,
        Keyword::Boolean => DataType::Boolean,
    }
}

fn rightmost_name(e: &EntityName) -> (r: String)
    ensures
        r@ == rightmost(*e),
{
    match e {
        EntityName::Identifier(s) => s.clone(),
        EntityName::Qualified(_, s) => s.clone(),
    }
}

/// Normalizes the type expression `n` met at nesting depth `depth`.
pub fn normalize_at(n: &TypeNode, depth: usize) -> (r: DataType)
    ensures
        r@ == normalized(*n, depth as nat),
    decreases MAX_NESTING - depth, 1int,
{
    if depth >= MAX_NESTING {
        return DataType::Other;
    }
    let next = depth + 1;
    match n {
        TypeNode::Keyword(k) => keyword_type(*k),
        TypeNode::Array(e) => DataType::Array(Box::new(normalize_at(e, next))),
        TypeNode::Tuple(es) => DataType::Tuple(normalize_elements(es, next)),
        TypeNode::Union(v) => DataType::Union(normalize_all(v, next)),
        TypeNode::Intersection(v) => DataType::Intersection(normalize_all(v, next)),
        TypeNode::TypeLiteral(ms) => DataType::TypeLiteral(Fields(signatures_to_fields(ms, next))),
        TypeNode::Reference(e) => DataType::TypeReference(rightmost_name(e)),
        TypeNode::Query(TypeQuery::Entity(e)) => DataType::TypeReference(rightmost_name(e)),
        TypeNode::Query(TypeQuery::Import(m)) => DataType::Import(m.clone()),
        TypeNode::Import(m) => DataType::Import(m.clone()),
        TypeNode::Literal(l) => {
            let lit = match l {
                LiteralNode::String(s) => LiteralType::String(s.clone()),
                LiteralNode::Boolean(b) => LiteralType::Boolean(*b),
                LiteralNode::Number(s) => LiteralType::Number(s.clone()),
                LiteralNode::BigInt(s) => LiteralType::BigInt(s.clone()),
                LiteralNode::RegExp(s) => LiteralType::RegExp(s.clone()),
                LiteralNode::Template(v) => LiteralType::Template(normalize_all(v, next)),
                LiteralNode::UnaryExpression => LiteralType::UnaryExpression,
                LiteralNode::Null => LiteralType::Null,
            };
            assert(TypeModel::Literal(literal_model(lit)) == normalized(*n, depth as nat));
            DataType::LiteralTypes(lit)
        },
        TypeNode::Unsupported => DataType::Other,
    }
}

/// Normalizes each of a sequence of type expressions, keeping their order.
pub fn normalize_all(v: &Vec<TypeNode>, depth: usize) -> (r: Vec<DataType>)
    ensures
        type_models(r@) == normalized_all(v@, depth as nat),
    decreases MAX_NESTING - depth, 3int,
{
    let mut out: Vec<DataType> = Vec::new();
    let mut i: usize = 0;
    while i < v.len()
        invariant
            i <= v.len(),
            type_models(out@) == normalized_all(v@.subrange(0, i as int), depth as nat),
        decreases v.len() - i,
    {
        let t = normalize_at(&v[i], depth);
        proof {
            lemma_type_models_push(out@, t);
            assert(v@.subrange(0, i + 1).drop_last() =~= v@.subrange(0, i as int));
        }
        out.push(t);
        i = i + 1;
    }
    assert(v@.subrange(0, v.len() as int) =~= v@);
    out
}

fn normalize_element(e: &TupleElement, depth: usize) -> (r: DataType)
    ensures
        r@ == normalized_element(*e, depth as nat),
    decreases MAX_NESTING - depth, 2int,
{
    match e {
        TupleElement::Plain(t) => normalize_at(t, depth),
        TupleElement::Optional(t) => DataType::Optional(Box::new(normalize_at(t, depth))),
        TupleElement::Rest(_) => DataType::Other,
    }
}

fn normalize_elements(v: &Vec<TupleElement>, depth: usize) -> (r: Vec<DataType>)
    ensures
        type_models(r@) == normalized_elements(v@, depth as nat),
    decreases MAX_NESTING - depth, 3int,
{
    let mut out: Vec<DataType> = Vec::new();
    let mut i: usize = 0;
    while i < v.len()
        invariant
            i <= v.len(),
            type_models(out@) == normalized_elements(v@.subrange(0, i as int), depth as nat),
        decreases v.len() - i,
    {
        let t = normalize_element(&v[i], depth);
        proof {
            lemma_type_models_push(out@, t);
            assert(v@.subrange(0, i + 1).drop_last() =~= v@.subrange(0, i as int));
        }
        out.push(t);
        i = i + 1;
    }
    assert(v@.subrange(0, v.len() as int) =~= v@);
    out
}

fn key_text(k: &PropertyKey) -> (r: Option<String>)
    ensures
        match r {
            Some(s) => key_name(*k) == Some(s@),
            None => key_name(*k) is None,
        },
{
    match k {
        PropertyKey::Identifier(s) => Some(s.clone()),
        PropertyKey::PrivateIdentifier(s) => Some(s.clone()),
        PropertyKey::Expression => None,
    }
}

/// The field that the property `p` yields at nesting depth `depth`.
pub fn property_to_field(p: &Property, depth: usize) -> (r: Option<Field>)
    ensures
        match r {
            Some(f) => property_field(*p, depth as nat) == Some(f@),
            None => property_field(*p, depth as nat) is None,
        },
    decreases MAX_NESTING - depth, 2int,
{
    match key_text(&p.key) {
        Some(name) => {
            let data_type = match &p.annotation {
                Some(t) => normalize_at(t, depth),
                None => DataType::Any,
            };
            Some(Field { name, data_type, optional: p.optional })
        },
        None => None,
    }
}

/// The fields of a list of signatures (see `signature_fields`).
pub fn signatures_to_fields(v: &Vec<Signature>, depth: usize) -> (r: Vec<Field>)
    ensures
        field_models(r@) == signature_fields(v@, depth as nat),
    decreases MAX_NESTING - depth, 3int,
{
    let mut out: Vec<Field> = Vec::new();
    let mut i: usize = 0;
    while i < v.len()
        invariant
            i <= v.len(),
            field_models(out@) == signature_fields(v@.subrange(0, i as int), depth as nat),
        decreases v.len() - i,
    {
        proof {
            assert(v@.subrange(0, i + 1).drop_last() =~= v@.subrange(0, i as int));
        }
        match &v[i] {
            Signature::Property(p) => match property_to_field(p, depth) {
                Some(f) => {
                    proof {
                        lemma_field_models_push(out@, f);
                    }
                    out.push(f);
                },
                None => {},
            },
            _ => {},
        }
        i = i + 1;
    }
    assert(v@.subrange(0, v.len() as int) =~= v@);
    out
}

/// Maps a type expression to the type model.
pub trait TypeParser {
    /// The model that `parser` yields.
    spec fn parsed(&self) -> TypeModel;

    fn parser(&self) -> (r: DataType)
        ensures
            r@ == self.parsed(),
    ;
}

impl TypeParser for TypeNode {
    open spec fn parsed(&self) -> TypeModel {
        normalize_spec(*self)
    }

    fn parser(&self) -> (r: DataType) {
        normalize(self)
    }
}

/// Normalizes a type expression into the type model.
pub fn normalize(n: &TypeNode) -> (r: DataType)
    ensures
        r@ == normalize_spec(*n),
{
    normalize_at(n, 0)
}

} // verus!
