//! Two-phase rename of citation and bibliography entry keys.
//!
//! `prepare_rename` yields the exact span of the key under the cursor;
//! `rename` re-derives the same classification and computes, per document of
//! the project, one edit for every occurrence of the key: citation keys in
//! documents of the primary grammar, entry keys in bibliography documents.
//! Documents of other variants are skipped; documents with no occurrence
//! still appear, with an empty edit list.

use vstd::prelude::*;
use crate::cursor::{citation_key_at, entry_key_at, CursorContext};
use crate::document::{Document, DocumentData, Project};
use crate::latex::{LatexNode, Token};
use crate::bibtex::BibNode;
use crate::text::TextRange;

verus! {

/// One text edit: delete a span, insert a replacement.
#[derive(Clone, Debug)]
pub struct Indel {
    pub delete: TextRange,
    pub insert: String,
}

/// The edits of one document, keyed by its URI.
#[derive(Clone, Debug)]
pub struct DocumentEdits {
    pub uri: String,
    pub edits: Vec<Indel>,
}

/// A rename outcome: the touched documents in project order, each with its
/// edit list.
#[derive(Clone, Debug)]
pub struct RenameResult {
    pub changes: Vec<DocumentEdits>,
}

/// The key a rename request targets: a citation key word, or failing that a
/// bibliography entry key.
pub open spec fn rename_key_at(doc: Document, offset: u32) -> Option<Token> {
    match citation_key_at(doc, offset) {
        Some(t) => Some(t),
        None => entry_key_at(doc, offset),
    }
}

/// The spans rename would touch in a list of citation keys.
pub open spec fn keys_occs(keys: Seq<Token>, key: Seq<char>) -> Seq<TextRange>
    decreases keys.len(),
{
    if keys.len() == 0 {
        Seq::empty()
    } else {
        keys_occs(keys.drop_last(), key) + if keys.last().text@ == key {
            seq![keys.last().range]
        } else {
            Seq::empty()
        }
    }
}

/// The spans rename would touch in one node of the primary grammar.
pub open spec fn tex_node_occs(node: LatexNode, key: Seq<char>) -> Seq<TextRange> {
    match node {
        LatexNode::Citation { keys, .. } => keys_occs(keys@, key),
        _ => Seq::empty(),
    }
}

pub open spec fn tex_nodes_occs(nodes: Seq<LatexNode>, key: Seq<char>) -> Seq<TextRange>
    decreases nodes.len(),
{
    if nodes.len() == 0 {
        Seq::empty()
    } else {
        tex_nodes_occs(nodes.drop_last(), key) + tex_node_occs(nodes.last(), key)
    }
}

/// The spans rename would touch in one bibliography node.
pub open spec fn bib_node_occs(node: BibNode, key: Seq<char>) -> Seq<TextRange> {
    match node {
        BibNode::Entry { name: Some(t), .. } => if t.text@ == key {
            seq![t.range]
        } else {
            Seq::empty()
        },
        _ => Seq::empty(),
    }
}

pub open spec fn bib_nodes_occs(nodes: Seq<BibNode>, key: Seq<char>) -> Seq<TextRange>
    decreases nodes.len(),
{
    if nodes.len() == 0 {
        Seq::empty()
    } else {
        bib_nodes_occs(nodes.drop_last(), key) + bib_node_occs(nodes.last(), key)
    }
}

/// The spans of every occurrence of `key` that rename targets in `doc`:
/// citation keys in documents of the primary grammar, entry keys in
/// bibliography documents, nothing anywhere else.
pub open spec fn rename_occs(doc: Document, key: Seq<char>) -> Option<Seq<TextRange>> {
    match doc.data {
        DocumentData::Tex(data) => Some(tex_nodes_occs(data.root.nodes@, key)),
        DocumentData::Bib(data) => Some(bib_nodes_occs(data.root.nodes@, key)),
        _ => None,
    }
}

/// The rename outcome over `docs`: one entry per document of a handled
/// variant, in order, holding one edit per occurrence span.
pub open spec fn changes_entries<'a>(docs: Seq<&'a Document>, key: Seq<char>) -> Seq<
    (String, Seq<TextRange>),
>
    decreases docs.len(),
{
    if docs.len() == 0 {
        Seq::empty()
    } else {
        changes_entries(docs.drop_last(), key) + match rename_occs(*docs.last(), key) {
            Some(occs) => seq![(docs.last().uri, occs)],
            None => Seq::empty(),
        }
    }
}

/// What a rename result must hold: entries aligned with `changes_entries`,
/// every edit deleting exactly one occurrence span and inserting `new_name`.
pub open spec fn changes_match<'a>(
    changes: Seq<DocumentEdits>,
    docs: Seq<&'a Document>,
    key: Seq<char>,
    new_name: Seq<char>,
) -> bool {
    let entries = changes_entries(docs, key);
    &&& changes.len() == entries.len()
    &&& forall|i: int|
        0 <= i < changes.len() ==> (#[trigger] changes[i]).uri == entries[i].0
    &&& forall|i: int|
        0 <= i < changes.len() ==> (#[trigger] changes[i]).edits@.len() == entries[i].1.len()
    &&& forall|i: int, j: int|
        0 <= i < changes.len() && 0 <= j < entries[i].1.len() ==> (#[trigger] changes[i].edits@[j]).delete
            == entries[i].1[j] && changes[i].edits@[j].insert@ == new_name
}

/// The exact span of the renameable key under the cursor, if any.  Yields a
/// span exactly when the cursor designates a citation key or an entry key.
pub fn prepare_rename(context: &CursorContext) -> (r: Option<TextRange>)
    ensures
        ({
            let t = rename_key_at(*context.document, context.offset);
            match t {
                Some(tok) => r == Some(tok.range),
                None => r is None,
            }
        }),
{
    let word = context.find_citation_key_word();
    match word {
        Some(x) => Some(x.1),
        None => match context.find_entry_key() {
            Some(x) => Some(x.1),
            None => None,
        },
    }
}

/// Renames every occurrence of the key under the cursor across the project.
/// Succeeds exactly when `prepare_rename` yields a span; the result holds
/// one entry per document of a handled variant, in project order, with one
/// edit per occurrence.
pub fn rename<'a>(context: &CursorContext<'a>, project: &Project<'a>, new_name: &String) -> (r:
    Option<RenameResult>)
    ensures
        ({
            let t = rename_key_at(*context.document, context.offset);
            &&& r is Some <==> t is Some
            &&& r is Some ==> changes_match(
                r->0.changes@,
                project.documents@,
                t->0.text@,
                new_name@,
            )
        }),
{
    if prepare_rename(context).is_none() {
        return None;
    }
    let key = match context.find_citation_key_word() {
        Some(x) => x.0,
        None => match context.find_entry_key() {
            Some(x) => x.0,
            None => {
                return None;
            },
        },
    };
    let ghost keyv = key@;
    let ghost t = rename_key_at(*context.document, context.offset);
    assert(t is Some && t->0.text@ == keyv);
    let docs = &project.documents;
    let mut changes: Vec<DocumentEdits> = Vec::new();
    let mut d: usize = 0;
    proof {
        assert(docs@.take(0) =~= Seq::<&'a Document>::empty());
    }
    while d < docs.len()
        invariant
            docs@ == project.documents@,
            key@ == keyv,
            0 <= d <= docs@.len(),
            changes_match(changes@, docs@.take(d as int), keyv, new_name@),
        decreases docs@.len() - d,
    {
        let document = docs[d];
        let ghost pre_entries = changes_entries(docs@.take(d as int), keyv);
        let ghost pre_changes = changes@;
        match &document.data {
            DocumentData::Tex(data) => {
                let edits = collect_tex_edits(&data.root.nodes, &key, new_name);
                changes.push(DocumentEdits { uri: document.uri.clone(), edits });
            },
            DocumentData::Bib(data) => {
                let edits = collect_bib_edits(&data.root.nodes, &key, new_name);
                changes.push(DocumentEdits { uri: document.uri.clone(), edits });
            },
            _ => {},
        }
        proof {
            assert(docs@.take(d + 1).drop_last() =~= docs@.take(d as int));
            assert(docs@.take(d + 1).last() == docs@[d as int]);
            let entries = changes_entries(docs@.take(d + 1), keyv);
            match rename_occs(*document, keyv) {
                Some(occs) => {
                    assert(entries =~= pre_entries + seq![(document.uri, occs)]);
                    assert(changes@ == pre_changes.push(changes@.last()));
                },
                None => {
                    assert(entries =~= pre_entries);
                    assert(changes@ == pre_changes);
                },
            }
            assert forall|i: int| 0 <= i < changes@.len() implies (#[trigger] changes@[i]).uri
                == entries[i].0 && changes@[i].edits@.len() == entries[i].1.len() by {
                if i < pre_changes.len() {
                    assert(changes@[i] == pre_changes[i]);
                    assert(entries[i] == pre_entries[i]);
                }
            }
            assert forall|i: int, j: int|
                0 <= i < changes@.len() && 0 <= j < entries[i].1.len() implies (
            #[trigger] changes@[i].edits@[j]).delete == entries[i].1[j]
                && changes@[i].edits@[j].insert@ == new_name@ by {
                if i < pre_changes.len() {
                    assert(changes@[i] == pre_changes[i]);
                    assert(entries[i] == pre_entries[i]);
                }
            }
        }
        d = d + 1;
    }
    proof {
        assert(docs@.take(docs@.len() as int) =~= docs@);
    }
    Some(RenameResult { changes })
}

/// One edit per matching citation key over the nodes, in pre-order.
fn collect_tex_edits(nodes: &Vec<LatexNode>, key: &String, new_name: &String) -> (r: Vec<Indel>)
    ensures
        r@.len() == tex_nodes_occs(nodes@, key@).len(),
        forall|j: int|
            0 <= j < r@.len() ==> (#[trigger] r@[j]).delete == tex_nodes_occs(nodes@, key@)[j]
                && r@[j].insert@ == new_name@,
{
    let mut edits: Vec<Indel> = Vec::new();
    let mut n: usize = 0;
    proof {
        assert(nodes@.take(0) =~= Seq::<LatexNode>::empty());
    }
    while n < nodes.len()
        invariant
            0 <= n <= nodes@.len(),
            edits@.len() == tex_nodes_occs(nodes@.take(n as int), key@).len(),
            forall|j: int|
                0 <= j < edits@.len() ==> (#[trigger] edits@[j]).delete == tex_nodes_occs(
                    nodes@.take(n as int),
                    key@,
                )[j] && edits@[j].insert@ == new_name@,
        decreases nodes@.len() - n,
    {
        let ghost sofar = tex_nodes_occs(nodes@.take(n as int), key@);
        let ghost pre = edits@;
        proof {
            assert(nodes@.take(n + 1).drop_last() =~= nodes@.take(n as int));
            assert(nodes@.take(n + 1).last() == nodes@[n as int]);
        }
        if let LatexNode::Citation { keys, .. } = &nodes[n] {
            let mut j: usize = 0;
            proof {
                assert(keys@.take(0) =~= Seq::<Token>::empty());
            }
            while j < keys.len()
                invariant
                    0 <= j <= keys@.len(),
                    sofar == tex_nodes_occs(nodes@.take(n as int), key@),
                    edits@.len() == (sofar + keys_occs(keys@.take(j as int), key@)).len(),
                    forall|i: int|
                        0 <= i < edits@.len() ==> (#[trigger] edits@[i]).delete == (sofar
                            + keys_occs(keys@.take(j as int), key@))[i] && edits@[i].insert@
                            == new_name@,
                decreases keys@.len() - j,
            {
                let ghost prefix = sofar + keys_occs(keys@.take(j as int), key@);
                let ghost pre_edits = edits@;
                proof {
                    assert(keys@.take(j + 1).drop_last() =~= keys@.take(j as int));
                    assert(keys@.take(j + 1).last() == keys@[j as int]);
                }
                let tk = &keys[j];
                if tk.text == *key {
                    edits.push(Indel { delete: tk.range, insert: new_name.clone() });
                }
                proof {
                    let now = sofar + keys_occs(keys@.take(j + 1), key@);
                    if keys@[j as int].text@ == key@ {
                        assert(now =~= prefix + seq![keys@[j as int].range]);
                        assert(edits@ == pre_edits.push(edits@.last()));
                    } else {
                        assert(now =~= prefix);
                    }
                    assert forall|i: int| 0 <= i < edits@.len() implies (#[trigger] edits@[i]).delete
                        == now[i] && edits@[i].insert@ == new_name@ by {
                        if i < pre_edits.len() {
                            assert(edits@[i] == pre_edits[i]);
                            assert(now[i] == prefix[i]);
                        }
                    }
                }
                j = j + 1;
            }
            proof {
                assert(keys@.take(keys@.len() as int) =~= keys@);
                assert(tex_nodes_occs(nodes@.take(n + 1), key@) =~= sofar + keys_occs(
                    keys@,
                    key@,
                ));
            }
        } else {
            proof {
                assert(tex_node_occs(nodes@[n as int], key@) =~= Seq::<TextRange>::empty());
                assert(tex_nodes_occs(nodes@.take(n + 1), key@) =~= sofar);
            }
        }
        n = n + 1;
    }
    proof {
        assert(nodes@.take(nodes@.len() as int) =~= nodes@);
    }
    edits
}

/// One edit per matching entry key over the bibliography nodes, in order.
fn collect_bib_edits(nodes: &Vec<BibNode>, key: &String, new_name: &String) -> (r: Vec<Indel>)
    ensures
        r@.len() == bib_nodes_occs(nodes@, key@).len(),
        forall|j: int|
            0 <= j < r@.len() ==> (#[trigger] r@[j]).delete == bib_nodes_occs(nodes@, key@)[j]
                && r@[j].insert@ == new_name@,
{
    let mut edits: Vec<Indel> = Vec::new();
    let mut n: usize = 0;
    proof {
        assert(nodes@.take(0) =~= Seq::<BibNode>::empty());
    }
    while n < nodes.len()
        invariant
            0 <= n <= nodes@.len(),
            edits@.len() == bib_nodes_occs(nodes@.take(n as int), key@).len(),
            forall|j: int|
                0 <= j < edits@.len() ==> (#[trigger] edits@[j]).delete == bib_nodes_occs(
                    nodes@.take(n as int),
                    key@,
                )[j] && edits@[j].insert@ == new_name@,
        decreases nodes@.len() - n,
    {
        let ghost sofar = bib_nodes_occs(nodes@.take(n as int), key@);
        let ghost pre_edits = edits@;
        proof {
            assert(nodes@.take(n + 1).drop_last() =~= nodes@.take(n as int));
            assert(nodes@.take(n + 1).last() == nodes@[n as int]);
        }
        if let BibNode::Entry { name: Some(tk), .. } = &nodes[n] {
            if tk.text == *key {
                edits.push(Indel { delete: tk.range, insert: new_name.clone() });
            }
        }
        proof {
            let now = bib_nodes_occs(nodes@.take(n + 1), key@);
            let one = bib_node_occs(nodes@[n as int], key@);
            if one.len() > 0 {
                assert(now =~= sofar + one);
                assert(one =~= seq![one[0]]);
                assert(edits@ == pre_edits.push(edits@.last()));
            } else {
                assert(now =~= sofar);
            }
            assert forall|i: int| 0 <= i < edits@.len() implies (#[trigger] edits@[i]).delete
                == now[i] && edits@[i].insert@ == new_name@ by {
                if i < pre_edits.len() {
                    assert(edits@[i] == pre_edits[i]);
                    assert(now[i] == sofar[i]);
                }
            }
        }
        n = n + 1;
    }
    proof {
        assert(nodes@.take(nodes@.len() as int) =~= nodes@);
    }
    edits
}

/// If preparing a rename yields a span, the rename itself succeeds: both
/// are governed by the same classification of the cursor.
pub proof fn lemma_prepare_then_rename(
    prepared: Option<TextRange>,
    renamed: Option<RenameResult>,
    doc: Document,
    offset: u32,
)
    requires
        prepared is Some <==> rename_key_at(doc, offset) is Some,
        renamed is Some <==> rename_key_at(doc, offset) is Some,
    ensures
        prepared is Some ==> renamed is Some,
{
}

/// A document receives a nonzero edit list exactly when it holds at least
/// one occurrence of the key that rename targets: rename and occurrence
/// enumeration agree on which documents are touched.
pub proof fn lemma_rename_reference_consistency<'a>(
    changes: Seq<DocumentEdits>,
    docs: Seq<&'a Document>,
    key: Seq<char>,
    new_name: Seq<char>,
)
    requires
        changes_match(changes, docs, key, new_name),
    ensures
        forall|i: int|
            0 <= i < changes.len() ==> ((#[trigger] changes[i]).edits@.len() > 0 <==> changes_entries(
                docs,
                key,
            )[i].1.len() > 0),
        forall|i: int|
            0 <= i < changes.len() ==> (#[trigger] changes[i]).uri == changes_entries(
                docs,
                key,
            )[i].0,
{
}

} // verus!
