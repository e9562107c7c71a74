//! Extraction over whole files, and the merge of many files into one index.
use vstd::prelude::*;

use crate::index::{
    inserted_all, into_reversed, lemma_inserted_all_concat, structure_models, IndexModel,
    StructureIndex,
};
use crate::processor::{extracted, ExtractError, ParsedStructure, StructureModel};
use crate::syntax::{Declaration, Item};

verus! {

/// What extraction of one file yielded: its structures and its failures,
/// each in source order.
#[derive(Debug)]
pub struct FileOutcome {
    pub path: String,
    pub structures: Vec<ParsedStructure>,
    pub errors: Vec<ExtractError>,
}

/// The declaration that a top-level statement holds, with any `export`
/// wrapper taken off.
pub open spec fn item_declaration(i: Item) -> Option<Declaration> {
    match i {
        Item::Declaration(d) => Some(d),
        Item::Exported(d) => Some(d),
        Item::Other => None,
    }
}

/// The structures that the statements `items` of the file at `path` yield,
/// in source order.
pub open spec fn file_structures(items: Seq<Item>, path: Seq<char>) -> Seq<StructureModel>
    decreases items.len(),
{
    if items.len() == 0 {
        Seq::empty()
    } else {
        let rest = file_structures(items.drop_last(), path);
        match item_declaration(items.last()) {
            Some(d) => match extracted(d, path) {
                Ok(s) => rest.push(s),
                Err(_) => rest,
            },
            None => rest,
        }
    }
}

/// The failures of extraction over the statements `items`, in source order.
pub open spec fn file_errors(items: Seq<Item>, path: Seq<char>) -> Seq<ExtractError>
    decreases items.len(),
{
    if items.len() == 0 {
        Seq::empty()
    } else {
        let rest = file_errors(items.drop_last(), path);
        match item_declaration(items.last()) {
            Some(d) => match extracted(d, path) {
                Ok(_) => rest,
                Err(e) => rest.push(e),
            },
            None => rest,
        }
    }
}

/// Extraction over two runs of statements is extraction over each, one
/// after the other.
pub proof fn lemma_file_structures_concat(a: Seq<Item>, b: Seq<Item>, path: Seq<char>)
    ensures
        file_structures(a + b, path) == file_structures(a, path) + file_structures(b, path),
    decreases b.len(),
{
    if b.len() == 0 {
        assert(a + b =~= a);
    } else {
        lemma_file_structures_concat(a, b.drop_last(), path);
        assert((a + b).drop_last() =~= a + b.drop_last());
    }
}

/// A declaration whose extraction fails, such as an anonymous class,
/// contributes no structure, and the statements around it yield what they
/// yield without it.
pub proof fn lemma_failed_declaration_skipped(
    pre: Seq<Item>,
    bad: Item,
    post: Seq<Item>,
    path: Seq<char>,
)
    requires
        item_declaration(bad) matches Some(d) && extracted(d, path) is Err,
    ensures
        file_structures(pre + seq![bad] + post, path) == file_structures(pre + post, path),
{
    lemma_file_structures_concat(pre, seq![bad], path);
    lemma_file_structures_concat(pre + seq![bad], post, path);
    lemma_file_structures_concat(pre, post, path);
    let one = seq![bad];
    assert(one.drop_last() =~= Seq::<Item>::empty());
    assert(one.last() == bad);
    assert(file_structures(Seq::<Item>::empty(), path) =~= Seq::<StructureModel>::empty());
    assert(file_structures(one, path) =~= Seq::<StructureModel>::empty());
    assert(file_structures(pre, path) + Seq::<StructureModel>::empty() =~= file_structures(pre, path));
}

/// All structures of a sequence of file outcomes, file after file.
pub open spec fn outcome_structures(s: Seq<FileOutcome>) -> Seq<StructureModel>
    decreases s.len(),
{
    if s.len() == 0 {
        Seq::empty()
    } else {
        outcome_structures(s.drop_last()) + structure_models(s.last().structures@)
    }
}

/// Extracts every top-level declaration of the file at `path`. A declaration
/// that fails is recorded and the others go on.
pub fn extract_file(items: &Vec<Item>, path: &String) -> (r: FileOutcome)
    ensures
        r.path@ == path@,
        structure_models(r.structures@) == file_structures(items@, path@),
        r.errors@ == file_errors(items@, path@),
{
    let mut structures: Vec<ParsedStructure> = Vec::new();
    let mut errors: Vec<ExtractError> = Vec::new();
    let mut i: usize = 0;
    while i < items.len()
        invariant
            i <= items.len(),
            structure_models(structures@) == file_structures(
                items@.subrange(0, i as int),
                path@,
            ),
            errors@ == file_errors(items@.subrange(0, i as int), path@),
        decreases items.len() - i,
    {
        proof {
            assert(items@.subrange(0, i + 1).drop_last() =~= items@.subrange(0, i as int));
        }
        let declaration = match &items[i] {
            Item::Declaration(d) => Some(d),
            Item::Exported(d) => Some(d),
            Item::Other => None,
        };
        match declaration {
            Some(d) => match ParsedStructure::try_new(d, path) {
                Ok(s) => {
                    proof {
                        assert(structure_models(structures@.push(s)) =~= structure_models(
                            structures@,
                        ).push(s@));
                    }
                    structures.push(s);
                },
                Err(e) => {
                    errors.push(e);
                },
            },
            None => {},
        }
        i = i + 1;
    }
    assert(items@.subrange(0, items.len() as int) =~= items@);
    FileOutcome { path: path.clone(), structures, errors }
}

/// Merges the structures of every file outcome into a new index, file after
/// file and in source order within a file; a later structure replaces an
/// earlier one with the same key.
pub fn parse_all(outcomes: Vec<FileOutcome>) -> (r: StructureIndex)
    ensures
        r@ == inserted_all(IndexModel::empty(), outcome_structures(outcomes@)),
{
    let ghost all = outcomes@;
    let n = outcomes.len();
    let mut rest = into_reversed(outcomes);
    let mut index = StructureIndex::new();
    let mut k: usize = 0;
    while k < n
        invariant
            k <= n,
            n == all.len(),
            rest@.len() == n - k,
            forall|i: int| 0 <= i < rest@.len() ==> #[trigger] rest@[i] == all[n - 1 - i],
            index@ == inserted_all(IndexModel::empty(), outcome_structures(all.subrange(0, k as int))),
        decreases n - k,
    {
        let outcome = rest.pop().unwrap();
        proof {
            assert(outcome == all[k as int]);
            assert(all.subrange(0, k + 1).drop_last() =~= all.subrange(0, k as int));
            lemma_inserted_all_concat(
                IndexModel::empty(),
                outcome_structures(all.subrange(0, k as int)),
                structure_models(outcome.structures@),
            );
        }
        index.insert_all(outcome.structures);
        k = k + 1;
    }
    assert(all.subrange(0, n as int) =~= all);
    index
}

} // verus!
