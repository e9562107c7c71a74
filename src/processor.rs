//! Extraction of declarations into keyed structures.
use vstd::prelude::*;

use crate::syntax::{ClassMember, Declaration, TypeNode};
use crate::type_parser::{
    normalize, normalize_spec, property_field, property_to_field, signature_fields,
    signatures_to_fields,
};
use crate::types::{
    field_model, field_models, Content, ContentModel, DataType, Field, FieldModel,
    Fields, StructureInfo, StructureType, TypeModel,
};

verus! {

/// Why a declaration yields no structure.
#[derive(Debug, Clone, Copy, PartialEq, Eq, Structural)]
pub enum ExtractError {
    /// A class declaration without a name.
    MissingName,
    /// A declaration that is neither a class, an interface nor a type alias.
    Unsupported,
}

/// The model of a structure key: name, kind and source path.
pub type KeyModel = (Seq<char>, StructureType, Seq<char>);

/// The model of an extracted structure.
pub type StructureModel = (KeyModel, ContentModel);

/// One extracted declaration: its key and its content.
#[derive(Debug)]
pub struct ParsedStructure(pub StructureInfo, pub Content);

impl View for ParsedStructure {
    type V = StructureModel;

    open spec fn view(&self) -> StructureModel {
        (self.0@, self.1@)
    }
}

/// The fields of a class body: one per property member with a plain name,
/// in order; methods, accessors, static blocks and index signatures are
/// skipped.
pub open spec fn class_fields(s: Seq<ClassMember>) -> Seq<FieldModel>
    decreases s.len(),
{
    if s.len() == 0 {
        Seq::empty()
    } else {
        let rest = class_fields(s.drop_last());
        match s.last() {
            ClassMember::Property(p) => match property_field(p, 0) {
                Some(f) => rest.push(f),
                None => rest,
            },
            _ => rest,
        }
    }
}

/// The content of a type alias, read off the model of its right-hand side:
/// an object type gives its fields, a union or an intersection its members,
/// anything else no content.
pub open spec fn alias_content(t: TypeNode) -> ContentModel {
    match normalize_spec(t) {
        TypeModel::TypeLiteral(fs) => ContentModel::Fields(fs),
        TypeModel::Union(ms) => ContentModel::UnionMembers(ms),
        TypeModel::Intersection(ms) => ContentModel::IntersectionMembers(ms),
        _ => ContentModel::NoContent,
    }
}

/// What a declaration found in the file at `path` yields.
pub open spec fn extracted(d: Declaration, path: Seq<char>) -> Result<StructureModel, ExtractError> {
    match d {
        Declaration::Class { name, members } => match name {
            Some(n) => Ok(
                ((n@, StructureType::Class, path), ContentModel::Fields(class_fields(members@))),
            ),
            None => Err(ExtractError::MissingName),
        },
        Declaration::Interface { name, members } => Ok(
            (
                (name@, StructureType::Interface, path),
                ContentModel::Fields(signature_fields(members@, 0)),
            ),
        ),
        Declaration::TypeAlias { name, annotation } => Ok(
            ((name@, StructureType::TypeAlias, path), alias_content(annotation)),
        ),
        Declaration::Other => Err(ExtractError::Unsupported),
    }
}

/// Maps a declaration to a keyed structure.
pub trait Processor {
    /// What `process` yields for a declaration found in the file at `path`.
    spec fn processed(&self, path: Seq<char>) -> Result<StructureModel, ExtractError>;

    fn process(&self, path: &String) -> (r: Result<ParsedStructure, ExtractError>)
        ensures
            match r {
                Ok(s) => self.processed(path@) == Ok::<StructureModel, ExtractError>(s@),
                Err(e) => self.processed(path@) == Err::<StructureModel, ExtractError>(e),
            },
    ;
}

impl Processor for Declaration {
    open spec fn processed(&self, path: Seq<char>) -> Result<StructureModel, ExtractError> {
        extracted(*self, path)
    }

    fn process(&self, path: &String) -> (r: Result<ParsedStructure, ExtractError>) {
        ParsedStructure::try_new(self, path)
    }
}

proof fn lemma_field_models_push(s: Seq<Field>, x: Field)
    ensures
        field_models(s.push(x)) == field_models(s).push(field_model(x)),
{
    assert(s.push(x).drop_last() =~= s);
}

fn class_members_to_fields(v: &Vec<ClassMember>) -> (r: Vec<Field>)
    ensures
        field_models(r@) == class_fields(v@),
{
    let mut out: Vec<Field> = Vec::new();
    let mut i: usize = 0;
    while i < v.len()
        invariant
            i <= v.len(),
            field_models(out@) == class_fields(v@.subrange(0, i as int)),
        decreases v.len() - i,
    {
        proof {
            assert(v@.subrange(0, i + 1).drop_last() =~= v@.subrange(0, i as int));
        }
        match &v[i] {
            ClassMember::Property(p) => match property_to_field(p, 0) {
                Some(f) => {
                    proof {
                        lemma_field_models_push(out@, f);
                    }
                    out.push(f);
                },
                None => {},
            },
            _ => {},
        }
        i = i + 1;
    }
    assert(v@.subrange(0, v.len() as int) =~= v@);
    out
}

/// The content of a type alias whose right-hand side is `t`.
pub fn alias_to_content(t: &TypeNode) -> (r: Content)
    ensures
        r@ == alias_content(*t),
{
    match normalize(t) {
        DataType::TypeLiteral(fs) => Content::Fields(fs),
        DataType::Union(ms) => Content::UnionMembers(ms),
        DataType::Intersection(ms) => Content::IntersectionMembers(ms),
        _ => Content::NoContent,
    }
}

impl ParsedStructure {
    /// Extracts the declaration `d` found in the file at `path`.
    pub fn try_new(d: &Declaration, path: &String) -> (r: Result<ParsedStructure, ExtractError>)
        ensures
            match r {
                Ok(s) => extracted(*d, path@) == Ok::<StructureModel, ExtractError>(s@),
                Err(e) => extracted(*d, path@) == Err::<StructureModel, ExtractError>(e),
            },
    {
        match d {
            Declaration::Class { name, members } => match name {
                Some(n) => {
                    let info = StructureInfo::new(n.clone(), StructureType::Class, path.clone());
                    let fields = class_members_to_fields(members);
                    Ok(ParsedStructure(info, Content::Fields(Fields(fields))))
                },
                None => Err(ExtractError::MissingName),
            },
            Declaration::Interface { name, members } => {
                let info = StructureInfo::new(name.clone(), StructureType::Interface, path.clone());
                let fields = signatures_to_fields(members, 0);
                Ok(ParsedStructure(info, Content::Fields(Fields(fields))))
            },
            Declaration::TypeAlias { name, annotation } => {
                let info = StructureInfo::new(name.clone(), StructureType::TypeAlias, path.clone());
                Ok(ParsedStructure(info, alias_to_content(annotation)))
            },
            Declaration::Other => Err(ExtractError::Unsupported),
        }
    }
}

} // verus!
