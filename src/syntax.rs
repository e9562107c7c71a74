//! The parser-facing syntax tree: the type-level constructs of a TypeScript
//! source file that extraction reads, as plain values.
use vstd::prelude::*;

verus! {

/// A primitive type keyword.
#[derive(Debug, Clone, Copy, PartialEq, Eq, Structural)]
pub enum Keyword {
    Any,
    Unknown,
    Number,
    String,
    Object,
    BigInt,
    Symbol,
    Void,
    Undefined,
    Null,
    Never,
    Boolean,
}

/// A possibly qualified entity name such as `A.B.C`.
#[derive(Debug)]
pub enum EntityName {
    Identifier(String),
    /// A qualified name: its left part and its rightmost identifier.
    Qualified(Box<EntityName>, String),
}

/// The operand of a `typeof` type query.
#[derive(Debug)]
pub enum TypeQuery {
    Entity(EntityName),
    /// `typeof import("module")`.
    Import(String),
}

/// One element of a tuple type.
#[derive(Debug)]
pub enum TupleElement {
    Plain(TypeNode),
    /// An element marked with a trailing `?`.
    Optional(TypeNode),
    /// A rest element `...T`.
    Rest(TypeNode),
}

/// A literal type.
#[derive(Debug)]
pub enum LiteralNode {
    String(String),
    Boolean(bool),
    /// A numeric literal, held as its decimal text.
    Number(String),
    BigInt(String),
    RegExp(String),
    /// A template literal type with the types of its interpolations.
    Template(Vec<TypeNode>),
    UnaryExpression,
    Null,
}

/// The key of a property.
#[derive(Debug)]
pub enum PropertyKey {
    Identifier(String),
    /// A `#name` key, held without the `#`.
    PrivateIdentifier(String),
    /// A computed or literal key, which has no plain name.
    Expression,
}

/// A property: a property signature, or a field of a class.
#[derive(Debug)]
pub struct Property {
    pub key: PropertyKey,
    pub optional: bool,
    pub annotation: Option<TypeNode>,
}

/// A member of an interface body or of an inline object type.
#[derive(Debug)]
pub enum Signature {
    Property(Property),
    Method,
    Index,
    Call,
    Construct,
}

/// A member of a class body.
#[derive(Debug)]
pub enum ClassMember {
    Property(Property),
    Method,
    Accessor,
    StaticBlock,
    IndexSignature,
}

/// A type expression.
#[derive(Debug)]
pub enum TypeNode {
    Keyword(Keyword),
    Array(Box<TypeNode>),
    Tuple(Vec<TupleElement>),
    Union(Vec<TypeNode>),
    Intersection(Vec<TypeNode>),
    /// An inline object type `{ ... }`.
    TypeLiteral(Vec<Signature>),
    Reference(EntityName),
    Query(TypeQuery),
    /// An import type `import("module")`.
    Import(String),
    Literal(LiteralNode),
    /// Any construct that the type model does not enumerate (function,
    /// conditional, mapped types and the like).
    Unsupported,
}

/// A declaration.
#[derive(Debug)]
pub enum Declaration {
    /// A class; anonymous when it has no name.
    Class { name: Option<String>, members: Vec<ClassMember> },
    Interface { name: String, members: Vec<Signature> },
    TypeAlias { name: String, annotation: TypeNode },
    /// Any other declaration (function, variable, enum, module).
    Other,
}

/// A top-level statement of a module.
#[derive(Debug)]
pub enum Item {
    Declaration(Declaration),
    /// A declaration under an `export` or `export default` wrapper.
    Exported(Declaration),
    /// An export without a declaration, or any other statement.
    Other,
}

} // verus!
