//! Deterministic text rendering of the type model and of structures.
use vstd::prelude::*;

use crate::index::structure_models;
use crate::parser::{extract_file, file_structures};
use crate::processor::{KeyModel, ParsedStructure, StructureModel};
use crate::syntax::{Item, Keyword, TypeNode};
use crate::type_parser::{keyword_model, normalize_spec, normalized, MAX_NESTING};
use crate::types::{
    field_model, field_models, type_model, type_models, Content, ContentModel,
    DataType, Field, FieldModel, LiteralModel, LiteralType, StructureType, TypeModel,
};

verus! {

/// The text of a type: composite types read `<Kind> of <members>`, with the
/// members joined by `, `; a reference is its bare name; a primitive is its
/// fixed label.
pub open spec fn type_text(t: TypeModel) -> Seq<char>
    decreases t,
{
    match t {
        TypeModel::Array(e) => "Array of "@ + type_text(*e),
        TypeModel::Tuple(ts) => "Tuple of "@ + list_text(ts),
        TypeModel::Optional(e) => "Optional of "@ + type_text(*e),
        TypeModel::Union(ts) => "Union of "@ + list_text(ts),
        TypeModel::Intersection(ts) => "Intersection of "@ + list_text(ts),
        TypeModel::TypeReference(n) => n,
        TypeModel::Import(m) => "Import of \""@ + m + "\""@,
        TypeModel::TypeLiteral(fs) => "TypeLiteral of { "@ + fields_text(fs) + " }"@,
        TypeModel::Literal(l) => "Literal of "@ + literal_text(l),
        TypeModel::Any => "Any"@,
        TypeModel::Unknown => "Unknown"@,
        TypeModel::Number => "Number"@,
        TypeModel::String => "String"@,
        TypeModel::Object => "Object"@,
        TypeModel::BigInt => "BigInt"@,
        TypeModel::Symbol => "Symbol"@,
        TypeModel::Void => "Void"@,
        TypeModel::Undefined => "Undefined"@,
        TypeModel::Null => "Null"@,
        TypeModel::Never => "Never"@,
        TypeModel::Boolean => "Boolean"@,
        TypeModel::Other => "Other"@,
    }
}

/// The texts of a sequence of types, joined by `, `.
pub open spec fn list_text(s: Seq<TypeModel>) -> Seq<char>
    decreases s,
{
    if s.len() == 0 {
        Seq::empty()
    } else if s.len() == 1 {
        type_text(s[0])
    } else {
        list_text(s.drop_last()) + ", "@ + type_text(s.last())
    }
}

/// The text of a field: its name, `?` where it is optional, then its type.
pub open spec fn field_text(f: FieldModel) -> Seq<char>
    decreases f,
{
    f.name + (if f.optional {
        "?"@
    } else {
        Seq::empty()
    }) + ": "@ + type_text(f.data_type)
}

/// The texts of a sequence of fields, joined by `, `.
pub open spec fn fields_text(s: Seq<FieldModel>) -> Seq<char>
    decreases s,
{
    if s.len() == 0 {
        Seq::empty()
    } else if s.len() == 1 {
        field_text(s[0])
    } else {
        fields_text(s.drop_last()) + ", "@ + field_text(s.last())
    }
}

/// The text of a literal: its kind, then its value.
pub open spec fn literal_text(l: LiteralModel) -> Seq<char>
    decreases l,
{
    match l {
        LiteralModel::String(s) => "String(\""@ + s + "\")"@,
        LiteralModel::Boolean(b) => if b {
            "Boolean(true)"@
        } else {
            "Boolean(false)"@
        },
        LiteralModel::Number(s) => "Number("@ + s + ")"@,
        LiteralModel::BigInt(s) => "BigInt("@ + s + ")"@,
        LiteralModel::RegExp(s) => "RegExp("@ + s + ")"@,
        LiteralModel::Template(ts) => "Template of "@ + list_text(ts),
        LiteralModel::UnaryExpression => "UnaryExpression"@,
        LiteralModel::Null => "Null"@,
    }
}

pub open spec fn kind_text(k: StructureType) -> Seq<char> {
    match k {
        StructureType::Class => "Class"@,
        StructureType::Interface => "Interface"@,
        StructureType::TypeAlias => "TypeAlias"@,
    }
}

/// The first line of a structure: name, kind and source path.
pub open spec fn header_text(k: KeyModel) -> Seq<char> {
    k.0 + " ("@ + kind_text(k.1) + ") in "@ + k.2 + "\n"@
}

/// One indented line per field.
pub open spec fn field_lines(s: Seq<FieldModel>) -> Seq<char>
    decreases s.len(),
{
    if s.len() == 0 {
        Seq::empty()
    } else {
        field_lines(s.drop_last()) + "  "@ + field_text(s.last()) + "\n"@
    }
}

/// One indented line per member, each after the given marker.
pub open spec fn member_lines(marker: Seq<char>, s: Seq<TypeModel>) -> Seq<char>
    decreases s.len(),
{
    if s.len() == 0 {
        Seq::empty()
    } else {
        member_lines(marker, s.drop_last()) + "  "@ + marker + type_text(s.last()) + "\n"@
    }
}

/// The content section of a structure.
pub open spec fn content_text(c: ContentModel) -> Seq<char> {
    match c {
        ContentModel::Fields(fs) => field_lines(fs),
        ContentModel::UnionMembers(ms) => member_lines("| "@, ms),
        ContentModel::IntersectionMembers(ms) => member_lines("& "@, ms),
        ContentModel::NoContent => "  (no content)\n"@,
    }
}

/// The text of a structure: its header line, then its content section.
pub open spec fn structure_text(s: StructureModel) -> Seq<char> {
    header_text(s.0) + content_text(s.1)
}

/// The texts of a sequence of structures, separated by blank lines.
pub open spec fn structures_text(s: Seq<StructureModel>) -> Seq<char>
    decreases s.len(),
{
    if s.len() == 0 {
        Seq::empty()
    } else if s.len() == 1 {
        structure_text(s[0])
    } else {
        structures_text(s.drop_last()) + "\n"@ + structure_text(s.last())
    }
}

/// The fixed label of a primitive keyword.
pub open spec fn keyword_label(k: Keyword) -> Seq<char> {
    match k {
        Keyword::Any => "Any"@,
        Keyword::Unknown => "Unknown"@,
        Keyword::Number => "Number"@,
        Keyword::String => "String"@,
        Keyword::Object => "Object"@,
        Keyword::BigInt => "BigInt"@,
        Keyword::Symbol => "Symbol"@,
        Keyword::Void => "Void"@,
        Keyword::Undefined => "Undefined"@,
        Keyword::Null => "Null"@,
        Keyword::Never => "Never"@,
        Keyword::Boolean => "Boolean"@,
    }
}

/// Every primitive keyword normalizes to its primitive variant, and that
/// variant renders as the keyword's fixed label.
pub proof fn lemma_keyword_label(k: Keyword)
    ensures
        normalize_spec(TypeNode::Keyword(k)) == keyword_model(k),
        type_text(normalize_spec(TypeNode::Keyword(k))) == keyword_label(k),
{
}

/// An array type renders as `Array of ` followed by the text of its element
/// type, at every depth below the nesting limit; nested arrays compose.
pub proof fn lemma_array_text(e: TypeNode, depth: nat)
    requires
        depth < MAX_NESTING,
    ensures
        type_text(normalized(TypeNode::Array(Box::new(e)), depth)) == "Array of "@ + type_text(
            normalized(e, depth + 1),
        ),
{
}

/// Rendering depends on the model alone: two types with the same model, and
/// two structures with the same model, render to the same text.
pub proof fn lemma_render_pure(a: DataType, b: DataType, s: ParsedStructure, t: ParsedStructure)
    requires
        a@ == b@,
        s@ == t@,
    ensures
        type_text(a@) == type_text(b@),
        structure_text(s@) == structure_text(t@),
{
}

proof fn lemma_type_models_push(s: Seq<DataType>, x: DataType)
    ensures
        type_models(s.push(x)) == type_models(s).push(type_model(x)),
{
    assert(s.push(x).drop_last() =~= s);
}

proof fn lemma_field_models_push(s: Seq<Field>, x: Field)
    ensures
        field_models(s.push(x)) == field_models(s).push(field_model(x)),
{
    assert(s.push(x).drop_last() =~= s);
}

fn push_type(d: &DataType, out: &mut String)
    ensures
        final(out)@ == old(out)@ + type_text(d@),
    decreases d,
{
    match d {
        DataType::Array(e) => {
            out.append("Array of ");
            push_type(e, out);
        },
        DataType::Tuple(v) => {
            out.append("Tuple of ");
            push_list(v, out);
        },
        DataType::Optional(e) => {
            out.append("Optional of ");
            push_type(e, out);
        },
        DataType::Union(v) => {
            out.append("Union of ");
            push_list(v, out);
        },
        DataType::Intersection(v) => {
            out.append("Intersection of ");
            push_list(v, out);
        },
        DataType::TypeReference(n) => out.append(n.as_str()),
        DataType::Import(m) => {
            out.append("Import of \"");
            out.append(m.as_str());
            out.append("\"");
        },
        DataType::TypeLiteral(fs) => {
            out.append("TypeLiteral of { ");
            push_fields(&fs.0, out);
            out.append(" }");
        },
        DataType::LiteralTypes(l) => {
            out.append("Literal of ");
            push_literal(l, out);
        },
        DataType::Any => out.append("Any"),
        DataType::Unknown => out.append("Unknown"),
        DataType::Number => out.append("Number"),
        DataType::String => out.append("String"),
        DataType::Object => out.append("Object"),
        DataType::BigInt => out.append("BigInt"),
        DataType::Symbol => out.append("Symbol"),
        DataType::Void => out.append("Void"),
        DataType::Undefined => out.append("Undefined"),
        DataType::Null => out.append("Null"),
        DataType::Never => out.append("Never"),
        DataType::Boolean => out.append("Boolean"),
        DataType::Other => out.append("Other"),
    }
}

fn push_list(v: &Vec<DataType>, out: &mut String)
    ensures
        final(out)@ == old(out)@ + list_text(type_models(v@)),
    decreases v,
{
    let ghost start = out@;
    let mut i: usize = 0;
    while i < v.len()
        invariant
            i <= v.len(),
            out@ == start + list_text(type_models(v@.subrange(0, i as int))),
        decreases v.len() - i,
    {
        let ghost prev = type_models(v@.subrange(0, i as int));
        proof {
            assert(v@.subrange(0, i + 1) =~= v@.subrange(0, i as int).push(v@[i as int]));
            lemma_type_models_push(v@.subrange(0, i as int), v@[i as int]);
            assert(prev.push(type_model(v@[i as int])).drop_last() =~= prev);
        }
        if i > 0 {
            out.append(", ");
        }
        push_type(&v[i], out);
        proof {
            assert(out@ =~= start + list_text(type_models(v@.subrange(0, i + 1))));
        }
        i = i + 1;
    }
    assert(v@.subrange(0, v.len() as int) =~= v@);
}

fn push_field(f: &Field, out: &mut String)
    ensures
        final(out)@ == old(out)@ + field_text(f@),
    decreases f,
{
    out.append(f.name.as_str());
    if f.optional {
        out.append("?");
    }
    out.append(": ");
    push_type(&f.data_type, out);
    proof {
        assert(out@ =~= old(out)@ + field_text(f@));
    }
}

fn push_fields(v: &Vec<Field>, out: &mut String)
    ensures
        final(out)@ == old(out)@ + fields_text(field_models(v@)),
    decreases v,
{
    let ghost start = out@;
    let mut i: usize = 0;
    while i < v.len()
        invariant
            i <= v.len(),
            out@ == start + fields_text(field_models(v@.subrange(0, i as int))),
        decreases v.len() - i,
    {
        let ghost prev = field_models(v@.subrange(0, i as int));
        proof {
            assert(v@.subrange(0, i + 1) =~= v@.subrange(0, i as int).push(v@[i as int]));
            lemma_field_models_push(v@.subrange(0, i as int), v@[i as int]);
            assert(prev.push(field_model(v@[i as int])).drop_last() =~= prev);
        }
        if i > 0 {
            out.append(", ");
        }
        push_field(&v[i], out);
        proof {
            assert(out@ =~= start + fields_text(field_models(v@.subrange(0, i + 1))));
        }
        i = i + 1;
    }
    assert(v@.subrange(0, v.len() as int) =~= v@);
}

fn push_literal(l: &LiteralType, out: &mut String)
    ensures
        final(out)@ == old(out)@ + literal_text(l@),
    decreases l,
{
    match l {
        LiteralType::String(s) => {
            out.append("String(\"");
            out.append(s.as_str());
            out.append("\")");
        },
        LiteralType::Boolean(b) => {
            if *b {
                out.append("Boolean(true)");
            } else {
                out.append("Boolean(false)");
            }
        },
        LiteralType::Number(s) => {
            out.append("Number(");
            out.append(s.as_str());
            out.append(")");
        },
        LiteralType::BigInt(s) => {
            out.append("BigInt(");
            out.append(s.as_str());
            out.append(")");
        },
        LiteralType::RegExp(s) => {
            out.append("RegExp(");
            out.append(s.as_str());
            out.append(")");
        },
        LiteralType::Template(v) => {
            out.append("Template of ");
            push_list(v, out);
        },
        LiteralType::UnaryExpression => out.append("UnaryExpression"),
        LiteralType::Null => out.append("Null"),
    }
}

/// Renders a type.
pub fn render(d: &DataType) -> (r: String)
    ensures
        r@ == type_text(d@),
{
    let mut out = String::new();
    push_type(d, &mut out);
    assert(out@ =~= type_text(d@));
    out
}

fn push_kind(k: StructureType, out: &mut String)
    ensures
        final(out)@ == old(out)@ + kind_text(k),
{
    match k {
        StructureType::Class => out.append("Class"),
        StructureType::Interface => out.append("Interface"),
        StructureType::TypeAlias => out.append("TypeAlias"),
    }
}

fn push_field_lines(v: &Vec<Field>, out: &mut String)
    ensures
        final(out)@ == old(out)@ + field_lines(field_models(v@)),
{
    let ghost start = out@;
    let mut i: usize = 0;
    while i < v.len()
        invariant
            i <= v.len(),
            out@ == start + field_lines(field_models(v@.subrange(0, i as int))),
        decreases v.len() - i,
    {
        let ghost prev = field_models(v@.subrange(0, i as int));
        proof {
            assert(v@.subrange(0, i + 1) =~= v@.subrange(0, i as int).push(v@[i as int]));
            lemma_field_models_push(v@.subrange(0, i as int), v@[i as int]);
            assert(prev.push(field_model(v@[i as int])).drop_last() =~= prev);
        }
        out.append("  ");
        push_field(&v[i], out);
        out.append("\n");
        proof {
            assert(out@ =~= start + field_lines(field_models(v@.subrange(0, i + 1))));
        }
        i = i + 1;
    }
    assert(v@.subrange(0, v.len() as int) =~= v@);
}

fn push_member_lines(marker: &str, v: &Vec<DataType>, out: &mut String)
    ensures
        final(out)@ == old(out)@ + member_lines(marker@, type_models(v@)),
{
    let ghost start = out@;
    let mut i: usize = 0;
    while i < v.len()
        invariant
            i <= v.len(),
            out@ == start + member_lines(marker@, type_models(v@.subrange(0, i as int))),
        decreases v.len() - i,
    {
        let ghost prev = type_models(v@.subrange(0, i as int));
        proof {
            assert(v@.subrange(0, i + 1) =~= v@.subrange(0, i as int).push(v@[i as int]));
            lemma_type_models_push(v@.subrange(0, i as int), v@[i as int]);
            assert(prev.push(type_model(v@[i as int])).drop_last() =~= prev);
        }
        out.append("  ");
        out.append(marker);
        push_type(&v[i], out);
        out.append("\n");
        proof {
            assert(out@ =~= start + member_lines(marker@, type_models(v@.subrange(0, i + 1))));
        }
        i = i + 1;
    }
    assert(v@.subrange(0, v.len() as int) =~= v@);
}

fn push_structure(s: &ParsedStructure, out: &mut String)
    ensures
        final(out)@ == old(out)@ + structure_text(s@),
{
    let info = &s.0;
    out.append(info.struct_name.0.as_str());
    out.append(" (");
    push_kind(info.struct_type, out);
    out.append(") in ");
    out.append(info.file_path.as_str());
    out.append("\n");
    match &s.1 {
        Content::Fields(fs) => push_field_lines(&fs.0, out),
        Content::UnionMembers(v) => push_member_lines("| ", v, out),
        Content::IntersectionMembers(v) => push_member_lines("& ", v, out),
        Content::NoContent => out.append("  (no content)\n"),
    }
    proof {
        assert(out@ =~= old(out)@ + structure_text(s@));
    }
}

/// Renders one structure: a header line with its name, kind and path, then
/// one line per field or member, or a line saying that it has no content.
pub fn render_structure(s: &ParsedStructure) -> (r: String)
    ensures
        r@ == structure_text(s@),
{
    let mut out = String::new();
    push_structure(s, &mut out);
    assert(out@ =~= structure_text(s@));
    out
}

/// Renders structures in order, separated by blank lines.
pub fn render_structures(v: &Vec<ParsedStructure>) -> (r: String)
    ensures
        r@ == structures_text(structure_models(v@)),
{
    let mut out = String::new();
    let mut i: usize = 0;
    while i < v.len()
        invariant
            i <= v.len(),
            out@ == structures_text(structure_models(v@.subrange(0, i as int))),
        decreases v.len() - i,
    {
        let ghost prev = structure_models(v@.subrange(0, i as int));
        proof {
            assert(structure_models(v@.subrange(0, i + 1)) =~= prev.push(v@[i as int]@));
            assert(prev.push(v@[i as int]@).drop_last() =~= prev);
        }
        if i > 0 {
            out.append("\n");
        }
        push_structure(&v[i], &mut out);
        proof {
            assert(out@ =~= structures_text(structure_models(v@.subrange(0, i + 1))));
        }
        i = i + 1;
    }
    assert(v@.subrange(0, v.len() as int) =~= v@);
    out
}

/// The text shown for one file under the cursor of an editor: every
/// structure of the file, in source order, separated by blank lines; empty
/// where the file declares none.
pub fn hover_text(items: &Vec<Item>, path: &String) -> (r: String)
    ensures
        r@ == structures_text(file_structures(items@, path@)),
{
    let outcome = extract_file(items, path);
    render_structures(&outcome.structures)
}

} // verus!
