use vstd::prelude::*;

verus! {

/// The kind of a declaration that yields a structure.
#[derive(Debug, Clone, Copy, PartialEq, Eq, Hash, Structural)]
pub enum StructureType {
    Class,
    Interface,
    TypeAlias,
}

/// The declared name of a structure.
#[derive(Debug, Clone, PartialEq, Eq, Hash)]
pub struct StructureName(pub String);

impl View for StructureName {
    type V = Seq<char>;

    open spec fn view(&self) -> Seq<char> {
        self.0@
    }
}

/// Identity of one extracted declaration: its name, its kind and the file it
/// was found in. Two keys are the same exactly when all three agree.
#[derive(Debug, Clone, PartialEq, Eq, Hash)]
pub struct StructureInfo {
    pub struct_name: StructureName,
    pub struct_type: StructureType,
    pub file_path: String,
}

impl View for StructureInfo {
    type V = (Seq<char>, StructureType, Seq<char>);

    open spec fn view(&self) -> (Seq<char>, StructureType, Seq<char>) {
        (self.struct_name@, self.struct_type, self.file_path@)
    }
}

impl StructureInfo {
    pub fn new(name: String, kind: StructureType, path: String) -> (r: StructureInfo)
        ensures
            r@ == (name@, kind, path@),
    {
        StructureInfo { struct_name: StructureName(name), struct_type: kind, file_path: path }
    }
}

/// The value of a literal type.
#[derive(Debug, PartialEq)]
pub enum LiteralType {
    String(String),
    Boolean(bool),
    /// A numeric literal, held as its decimal text.
    Number(String),
    BigInt(String),
    RegExp(String),
    /// A template literal type with the types of its interpolations.
    Template(Vec<DataType>),
    UnaryExpression,
    Null,
}

/// One named member of a structure or of an inline object type.
#[derive(Debug, PartialEq)]
pub struct Field {
    pub name: String,
    pub data_type: DataType,
    pub optional: bool,
}

/// An ordered list of fields.
#[derive(Debug, PartialEq)]
pub struct Fields(pub Vec<Field>);

/// The closed model of a TypeScript type expression.
#[derive(Debug, PartialEq)]
pub enum DataType {
    Array(Box<DataType>),
    Tuple(Vec<DataType>),
    Optional(Box<DataType>),
    Union(Vec<DataType>),
    Intersection(Vec<DataType>),
    TypeReference(String),
    Import(String),
    TypeLiteral(Fields),
    LiteralTypes(LiteralType),
    Any,
    Unknown,
    Number,
    String,
    Object,
    BigInt,
    Symbol,
    Void,
    Undefined,
    Null,
    Never,
    Boolean,
    Other,
}

/// The body of an extracted structure.
#[derive(Debug, PartialEq)]
pub enum Content {
    Fields(Fields),
    UnionMembers(Vec<DataType>),
    IntersectionMembers(Vec<DataType>),
    NoContent,
}

/// Mathematical counterpart of `DataType`.
pub enum TypeModel {
    Array(Box<TypeModel>),
    Tuple(Seq<TypeModel>),
    Optional(Box<TypeModel>),
    Union(Seq<TypeModel>),
    Intersection(Seq<TypeModel>),
    TypeReference(Seq<char>),
    Import(Seq<char>),
    TypeLiteral(Seq<FieldModel>),
    Literal(LiteralModel),
    Any,
    Unknown,
    Number,
    String,
    Object,
    BigInt,
    Symbol,
    Void,
    Undefined,
    Null,
    Never,
    Boolean,
    Other,
}

/// Mathematical counterpart of `Field`.
pub struct FieldModel {
    pub name: Seq<char>,
    pub data_type: TypeModel,
    pub optional: bool,
}

/// Mathematical counterpart of `LiteralType`.
pub enum LiteralModel {
    String(Seq<char>),
    Boolean(bool),
    Number(Seq<char>),
    BigInt(Seq<char>),
    RegExp(Seq<char>),
    Template(Seq<TypeModel>),
    UnaryExpression,
    Null,
}

/// Mathematical counterpart of `Content`.
pub enum ContentModel {
    Fields(Seq<FieldModel>),
    UnionMembers(Seq<TypeModel>),
    IntersectionMembers(Seq<TypeModel>),
    NoContent,
}

pub open spec fn type_model(d: DataType) -> TypeModel
    decreases d,
{
    match d {
        DataType::Array(e) => TypeModel::Array(Box::new(type_model(*e))),
        DataType::Tuple(v) => TypeModel::Tuple(type_models(v@)),
        DataType::Optional(e) => TypeModel::Optional(Box::new(type_model(*e))),
        DataType::Union(v) => TypeModel::Union(type_models(v@)),
        DataType::Intersection(v) => TypeModel::Intersection(type_models(v@)),
        DataType::TypeReference(n) => TypeModel::TypeReference(n@),
        DataType::Import(m) => TypeModel::Import(m@),
        DataType::TypeLiteral(f) => TypeModel::TypeLiteral(field_models(f.0@)),
        DataType::LiteralTypes(l) => TypeModel::Literal(literal_model(l)),
        DataType::Any => TypeModel::Any,
        DataType::Unknown => TypeModel::Unknown,
        DataType::Number => TypeModel::Number,
        DataType::String => TypeModel::String,
        DataType::Object => TypeModel::Object,
        DataType::BigInt => TypeModel::BigInt,
        DataType::Symbol => TypeModel::Symbol,
        DataType::Void => TypeModel::Void,
        DataType::Undefined => TypeModel::Undefined,
        DataType::Null => TypeModel::Null,
        DataType::Never => TypeModel::Never,
        DataType::Boolean => TypeModel::Boolean,
        DataType::Other => TypeModel::Other,
    }
}

pub open spec fn type_models(s: Seq<DataType>) -> Seq<TypeModel>
    decreases s,
{
    if s.len() == 0 {
        Seq::empty()
    } else {
        type_models(s.drop_last()).push(type_model(s.last()))
    }
}

pub open spec fn field_model(f: Field) -> FieldModel
    decreases f,
{
    FieldModel { name: f.name@, data_type: type_model(f.data_type), optional: f.optional }
}

pub open spec fn field_models(s: Seq<Field>) -> Seq<FieldModel>
    decreases s,
{
    if s.len() == 0 {
        Seq::empty()
    } else {
        field_models(s.drop_last()).push(field_model(s.last()))
    }
}

pub open spec fn literal_model(l: LiteralType) -> LiteralModel
    decreases l,
{
    match l {
        LiteralType::String(s) => LiteralModel::String(s@),
        LiteralType::Boolean(b) => LiteralModel::Boolean(b),
        LiteralType::Number(s) => LiteralModel::Number(s@),
        LiteralType::BigInt(s) => LiteralModel::BigInt(s@),
        LiteralType::RegExp(s) => LiteralModel::RegExp(s@),
        LiteralType::Template(v) => LiteralModel::Template(type_models(v@)),
        LiteralType::UnaryExpression => LiteralModel::UnaryExpression,
        LiteralType::Null => LiteralModel::Null,
    }
}

impl View for DataType {
    type V = TypeModel;

    open spec fn view(&self) -> TypeModel {
        type_model(*self)
    }
}

impl View for Field {
    type V = FieldModel;

    open spec fn view(&self) -> FieldModel {
        field_model(*self)
    }
}

impl View for Fields {
    type V = Seq<FieldModel>;

    open spec fn view(&self) -> Seq<FieldModel> {
        field_models(self.0@)
    }
}

impl View for LiteralType {
    type V = LiteralModel;

    open spec fn view(&self) -> LiteralModel {
        literal_model(*self)
    }
}

impl View for Content {
    type V = ContentModel;

    open spec fn view(&self) -> ContentModel {
        match *self {
            Content::Fields(f) => ContentModel::Fields(f@),
            Content::UnionMembers(v) => ContentModel::UnionMembers(type_models(v@)),
            Content::IntersectionMembers(v) => ContentModel::IntersectionMembers(type_models(v@)),
            Content::NoContent => ContentModel::NoContent,
        }
    }
}

} // verus!
