//! Extraction of structural type information from TypeScript declarations.
//!
//! The library maps a syntax tree of TypeScript type-level constructs into a
//! closed type model, extracts classes, interfaces and type aliases into keyed
//! structures, collects them into an index and renders them as text.

pub mod cli;
pub mod index;
pub mod parser;
pub mod processor;
pub mod render;
pub mod syntax;
pub mod type_parser;
pub mod types;

pub use cli::{Arg, Command, InputError, InputTree, Options};
pub use index::StructureIndex;
pub use parser::{extract_file, parse_all, FileOutcome};
pub use processor::{ExtractError, ParsedStructure, Processor};
pub use render::{hover_text, render, render_structure, render_structures};
pub use syntax::{
    ClassMember, Declaration, EntityName, Item, Keyword, LiteralNode, Property, PropertyKey,
    Signature, TupleElement, TypeNode, TypeQuery,
};
pub use type_parser::{normalize, TypeParser, MAX_NESTING};
pub use types::{
    Content, DataType, Field, Fields, LiteralType, StructureInfo, StructureName, StructureType,
};
