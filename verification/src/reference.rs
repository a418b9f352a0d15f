//! Reference enumeration for labels.
//!
//! Starting from a cursor classified as a label name, every document of the
//! project of the primary grammar is walked in order; label definitions are
//! reported only when the caller asks for declarations, label references
//! always.  Matching is exact text equality on the key.  The traversal polls
//! a cancellation token once per node; an aborted run leaves behind a prefix
//! of the full result, which the caller discards.

use vstd::prelude::*;
use cancellation::CancellationToken;
use crate::cancel::poll_canceled;
use crate::cursor::{label_key_at, CursorContext};
use crate::document::{Document, DocumentData, Project};
use crate::latex::{LatexNode, Token};
use crate::text::Location;

verus! {

/// One occurrence of a label key: its token text, its location, and whether
/// it is a definition.
pub open spec fn token_loc(doc: Document, t: Token) -> Location {
    Location { uri: doc.uri, range: doc.line_index.spec_line_col_range(t.range) }
}

/// The occurrences an optional name token contributes.
pub open spec fn opt_name_occs(
    doc: Document,
    name: Option<Token>,
    key: Seq<char>,
    is_def: bool,
) -> Seq<(Seq<char>, Location, bool)> {
    match name {
        Some(t) => if t.text@ == key {
            seq![(t.text@, token_loc(doc, t), is_def)]
        } else {
            Seq::empty()
        },
        None => Seq::empty(),
    }
}

/// The reference occurrences a name list contributes, in list order.
pub open spec fn names_occs(doc: Document, names: Seq<Token>, key: Seq<char>) -> Seq<
    (Seq<char>, Location, bool),
>
    decreases names.len(),
{
    if names.len() == 0 {
        Seq::empty()
    } else {
        names_occs(doc, names.drop_last(), key) + opt_name_occs(
            doc,
            Some(names.last()),
            key,
            false,
        )
    }
}

/// The occurrences of `key` one node contributes, independent of any flag:
/// definitions are tagged, references are not.  Both bounds of a range
/// reference are matched.
pub open spec fn node_occs(doc: Document, node: LatexNode, key: Seq<char>) -> Seq<
    (Seq<char>, Location, bool),
> {
    match node {
        LatexNode::LabelDefinition { name, .. } => opt_name_occs(doc, name, key, true),
        LatexNode::LabelReference { names, .. } => names_occs(doc, names@, key),
        LatexNode::LabelReferenceRange { from, to, .. } => opt_name_occs(doc, from, key, false)
            + opt_name_occs(doc, to, key, false),
        _ => Seq::empty(),
    }
}

pub open spec fn nodes_occs(doc: Document, nodes: Seq<LatexNode>, key: Seq<char>) -> Seq<
    (Seq<char>, Location, bool),
>
    decreases nodes.len(),
{
    if nodes.len() == 0 {
        Seq::empty()
    } else {
        nodes_occs(doc, nodes.drop_last(), key) + node_occs(doc, nodes.last(), key)
    }
}

/// The occurrences of `key` one document contributes, in pre-order.
pub open spec fn doc_occs(doc: Document, key: Seq<char>) -> Seq<(Seq<char>, Location, bool)> {
    match doc.data {
        DocumentData::Tex(data) => nodes_occs(doc, data.root.nodes@, key),
        _ => Seq::empty(),
    }
}

/// The occurrences of `key` over the documents in project order.
pub open spec fn docs_occs<'a>(docs: Seq<&'a Document>, key: Seq<char>) -> Seq<
    (Seq<char>, Location, bool),
>
    decreases docs.len(),
{
    if docs.len() == 0 {
        Seq::empty()
    } else {
        docs_occs(docs.drop_last(), key) + doc_occs(*docs.last(), key)
    }
}

/// The locations actually reported: every reference occurrence, and the
/// definition occurrences exactly when `with_declaration` is set.
pub open spec fn emit(occs: Seq<(Seq<char>, Location, bool)>, with_declaration: bool) -> Seq<
    Location,
>
    decreases occs.len(),
{
    if occs.len() == 0 {
        Seq::empty()
    } else {
        emit(occs.drop_last(), with_declaration) + if with_declaration || !occs.last().2 {
            seq![occs.last().1]
        } else {
            Seq::empty()
        }
    }
}

/// The full output of reference enumeration for `key` over `docs`.
pub open spec fn label_reference_locations<'a>(
    docs: Seq<&'a Document>,
    key: Seq<char>,
    with_declaration: bool,
) -> Seq<Location> {
    emit(docs_occs(docs, key), with_declaration)
}

/// Emission distributes over concatenation of occurrence lists.
pub proof fn lemma_emit_concat(
    a: Seq<(Seq<char>, Location, bool)>,
    b: Seq<(Seq<char>, Location, bool)>,
    with_declaration: bool,
)
    ensures
        emit(a + b, with_declaration) == emit(a, with_declaration) + emit(b, with_declaration),
    decreases b.len(),
{
    if b.len() == 0 {
        assert(a + b =~= a);
        assert(emit(a, with_declaration) + emit(b, with_declaration) =~= emit(
            a,
            with_declaration,
        ));
    } else {
        lemma_emit_concat(a, b.drop_last(), with_declaration);
        assert((a + b).drop_last() =~= a + b.drop_last());
        assert((a + b).last() == b.last());
        assert(emit(a, with_declaration) + emit(b.drop_last(), with_declaration) + (
        if with_declaration || !b.last().2 {
            seq![b.last().1]
        } else {
            Seq::empty()
        }) =~= emit(a, with_declaration) + emit(b, with_declaration));
    }
}

/// Splitting a document list splits its occurrence list.
pub proof fn lemma_docs_occs_split<'a>(docs: Seq<&'a Document>, key: Seq<char>, k: int)
    requires
        0 <= k <= docs.len(),
    ensures
        docs_occs(docs, key) == docs_occs(docs.take(k), key) + docs_occs(docs.skip(k), key),
    decreases docs.len(),
{
    if k == docs.len() {
        assert(docs.take(k) =~= docs);
        assert(docs.skip(k) =~= Seq::<&'a Document>::empty());
        assert(docs_occs(docs.take(k), key) + docs_occs(docs.skip(k), key) =~= docs_occs(
            docs,
            key,
        ));
    } else {
        lemma_docs_occs_split(docs.drop_last(), key, k);
        assert(docs.drop_last().take(k) =~= docs.take(k));
        assert(docs.skip(k).drop_last() =~= docs.drop_last().skip(k));
        assert(docs.skip(k).len() > 0);
        assert(docs.skip(k).last() == docs.last());
        assert(docs_occs(docs.take(k), key) + (docs_occs(docs.drop_last().skip(k), key)
            + doc_occs(*docs.last(), key)) =~= docs_occs(docs.take(k), key) + docs_occs(
            docs.drop_last().skip(k),
            key,
        ) + doc_occs(*docs.last(), key));
    }
}

/// Splitting a node list splits its occurrence list.
pub proof fn lemma_nodes_occs_split(doc: Document, nodes: Seq<LatexNode>, key: Seq<char>, k: int)
    requires
        0 <= k <= nodes.len(),
    ensures
        nodes_occs(doc, nodes, key) == nodes_occs(doc, nodes.take(k), key) + nodes_occs(
            doc,
            nodes.skip(k),
            key,
        ),
    decreases nodes.len(),
{
    if k == nodes.len() {
        assert(nodes.take(k) =~= nodes);
        assert(nodes.skip(k) =~= Seq::<LatexNode>::empty());
        assert(nodes_occs(doc, nodes.take(k), key) + nodes_occs(doc, nodes.skip(k), key)
            =~= nodes_occs(doc, nodes, key));
    } else {
        lemma_nodes_occs_split(doc, nodes.drop_last(), key, k);
        assert(nodes.drop_last().take(k) =~= nodes.take(k));
        assert(nodes.skip(k).drop_last() =~= nodes.drop_last().skip(k));
        assert(nodes.skip(k).last() == nodes.last());
        assert(nodes_occs(doc, nodes.take(k), key) + (nodes_occs(
            doc,
            nodes.drop_last().skip(k),
            key,
        ) + node_occs(doc, nodes.last(), key)) =~= nodes_occs(doc, nodes.take(k), key)
            + nodes_occs(doc, nodes.drop_last().skip(k), key) + node_occs(
            doc,
            nodes.last(),
            key,
        ));
    }
}

/// Every reported occurrence carries exactly the queried key: matching is
/// byte-for-byte equality, never partial and never case-insensitive.
pub proof fn lemma_exact_match<'a>(docs: Seq<&'a Document>, key: Seq<char>)
    ensures
        forall|i: int|
            0 <= i < docs_occs(docs, key).len() ==> (#[trigger] docs_occs(docs, key)[i]).0 == key,
    decreases docs.len(),
{
    if docs.len() > 0 {
        lemma_exact_match(docs.drop_last(), key);
        lemma_exact_match_doc(*docs.last(), key);
        let a = docs_occs(docs.drop_last(), key);
        let b = doc_occs(*docs.last(), key);
        assert forall|i: int| 0 <= i < docs_occs(docs, key).len() implies (#[trigger] docs_occs(
            docs,
            key,
        )[i]).0 == key by {
            assert(docs_occs(docs, key)[i] == (a + b)[i]);
            if i < a.len() {
                assert((a + b)[i] == a[i]);
            } else {
                assert((a + b)[i] == b[i - a.len()]);
            }
        }
    }
}

pub proof fn lemma_exact_match_doc(doc: Document, key: Seq<char>)
    ensures
        forall|i: int|
            0 <= i < doc_occs(doc, key).len() ==> (#[trigger] doc_occs(doc, key)[i]).0 == key,
{
    match doc.data {
        DocumentData::Tex(data) => {
            lemma_exact_match_nodes(doc, data.root.nodes@, key);
        },
        _ => {},
    }
}

pub proof fn lemma_exact_match_nodes(doc: Document, nodes: Seq<LatexNode>, key: Seq<char>)
    ensures
        forall|i: int|
            0 <= i < nodes_occs(doc, nodes, key).len() ==> (#[trigger] nodes_occs(
                doc,
                nodes,
                key,
            )[i]).0 == key,
    decreases nodes.len(),
{
    if nodes.len() > 0 {
        lemma_exact_match_nodes(doc, nodes.drop_last(), key);
        lemma_exact_match_node(doc, nodes.last(), key);
        let a = nodes_occs(doc, nodes.drop_last(), key);
        let b = node_occs(doc, nodes.last(), key);
        assert forall|i: int| 0 <= i < nodes_occs(doc, nodes, key).len() implies (
        #[trigger] nodes_occs(doc, nodes, key)[i]).0 == key by {
            assert(nodes_occs(doc, nodes, key)[i] == (a + b)[i]);
            if i < a.len() {
                assert((a + b)[i] == a[i]);
            } else {
                assert((a + b)[i] == b[i - a.len()]);
            }
        }
    }
}

pub proof fn lemma_exact_match_node(doc: Document, node: LatexNode, key: Seq<char>)
    ensures
        forall|i: int|
            0 <= i < node_occs(doc, node, key).len() ==> (#[trigger] node_occs(doc, node, key)[i]).0
                == key,
{
    match node {
        LatexNode::LabelReference { names, .. } => {
            lemma_exact_match_names(doc, names@, key);
        },
        LatexNode::LabelReferenceRange { from, to, .. } => {
            let a = opt_name_occs(doc, from, key, false);
            let b = opt_name_occs(doc, to, key, false);
            assert forall|i: int| 0 <= i < node_occs(doc, node, key).len() implies (
            #[trigger] node_occs(doc, node, key)[i]).0 == key by {
                assert(node_occs(doc, node, key)[i] == (a + b)[i]);
                if i < a.len() {
                    assert((a + b)[i] == a[i]);
                } else {
                    assert((a + b)[i] == b[i - a.len()]);
                }
            }
        },
        _ => {},
    }
}

pub proof fn lemma_exact_match_names(doc: Document, names: Seq<Token>, key: Seq<char>)
    ensures
        forall|i: int|
            0 <= i < names_occs(doc, names, key).len() ==> (#[trigger] names_occs(
                doc,
                names,
                key,
            )[i]).0 == key,
    decreases names.len(),
{
    if names.len() > 0 {
        lemma_exact_match_names(doc, names.drop_last(), key);
        let a = names_occs(doc, names.drop_last(), key);
        let b = opt_name_occs(doc, Some(names.last()), key, false);
        assert forall|i: int| 0 <= i < names_occs(doc, names, key).len() implies (
        #[trigger] names_occs(doc, names, key)[i]).0 == key by {
            assert(names_occs(doc, names, key)[i] == (a + b)[i]);
            if i < a.len() {
                assert((a + b)[i] == a[i]);
            } else {
                assert((a + b)[i] == b[i - a.len()]);
            }
        }
    }
}

/// The locations of all occurrences, in order.
pub open spec fn occ_locations(occs: Seq<(Seq<char>, Location, bool)>) -> Seq<Location>
    decreases occs.len(),
{
    if occs.len() == 0 {
        Seq::empty()
    } else {
        occ_locations(occs.drop_last()) + seq![occs.last().1]
    }
}

/// The occurrences that are references, not definitions, in order.
pub open spec fn reference_occs(occs: Seq<(Seq<char>, Location, bool)>) -> Seq<
    (Seq<char>, Location, bool),
>
    decreases occs.len(),
{
    if occs.len() == 0 {
        Seq::empty()
    } else {
        reference_occs(occs.drop_last()) + if occs.last().2 {
            Seq::empty()
        } else {
            seq![occs.last()]
        }
    }
}

/// The declaration flag only toggles definition occurrences: with it set the
/// output is the location of every occurrence, without it exactly the
/// locations of the reference occurrences, in the same order either way.
pub proof fn lemma_declaration_flag(occs: Seq<(Seq<char>, Location, bool)>)
    ensures
        emit(occs, true) == occ_locations(occs),
        emit(occs, false) == occ_locations(reference_occs(occs)),
    decreases occs.len(),
{
    if occs.len() == 0 {
        assert(emit(occs, false) =~= occ_locations(reference_occs(occs)));
    } else {
        lemma_declaration_flag(occs.drop_last());
        let pre = occs.drop_last();
        if occs.last().2 {
            assert(reference_occs(occs) =~= reference_occs(pre));
            assert(emit(occs, false) =~= occ_locations(reference_occs(occs)));
        } else {
            let r = reference_occs(occs);
            assert(r == reference_occs(pre) + seq![occs.last()]);
            assert(r.len() > 0);
            assert(r.drop_last() =~= reference_occs(pre));
            assert(r.last() == occs.last());
            assert(occ_locations(r) == occ_locations(reference_occs(pre)) + seq![occs.last().1]);
            assert(emit(occs, false) =~= occ_locations(reference_occs(occs)));
        }
    }
}

/// An aborted enumeration is prefix-consistent: aborting before any node is
/// visited leaves nothing, and whatever it leaves agrees element for element
/// with the start of the full output.
pub proof fn lemma_cancellation_prefix<'a>(
    docs: Seq<&'a Document>,
    key: Seq<char>,
    with_declaration: bool,
    m: int,
)
    requires
        0 <= m <= label_reference_locations(docs, key, with_declaration).len(),
    ensures
        label_reference_locations(docs, key, with_declaration).take(0) == Seq::<Location>::empty(),
        label_reference_locations(docs, key, with_declaration).take(m).len() == m,
        forall|i: int|
            0 <= i < m ==> label_reference_locations(docs, key, with_declaration).take(m)[i]
                == label_reference_locations(docs, key, with_declaration)[i],
{
    assert(label_reference_locations(docs, key, with_declaration).take(0) =~= Seq::<
        Location,
    >::empty());
}

/// Appends the locations of `key` inside one node, definitions only when
/// `with_declaration` is set.
fn push_node_matches(
    document: &Document,
    node: &LatexNode,
    key: &String,
    with_declaration: bool,
    references: &mut Vec<Location>,
)
    requires
        document.wf(),
    ensures
        final(references)@ == old(references)@ + emit(
            node_occs(*document, *node, key@),
            with_declaration,
        ),
{
    let ghost pre = references@;
    match node {
        LatexNode::LabelDefinition { name, .. } => {
            if with_declaration {
                if let Some(t) = name {
                    if t.text == *key {
                        let range = document.line_index.line_col_range(t.range);
                        references.push(Location { uri: document.uri.clone(), range });
                    }
                }
            }
            proof {
                reveal_with_fuel(emit, 3);
                let occs = node_occs(*document, *node, key@);
                assert(occs == opt_name_occs(*document, *name, key@, true));
                if occs.len() > 0 {
                    assert(occs.drop_last() =~= Seq::<(Seq<char>, Location, bool)>::empty());
                }
                assert(references@ =~= pre + emit(occs, with_declaration));
            }
        },
        LatexNode::LabelReference { names, .. } => {
            let mut j: usize = 0;
            proof {
                assert(names@.take(0) =~= Seq::<Token>::empty());
            }
            while j < names.len()
                invariant
                    document.wf(),
                    0 <= j <= names@.len(),
                    references@ == pre + emit(
                        names_occs(*document, names@.take(j as int), key@),
                        with_declaration,
                    ),
                decreases names@.len() - j,
            {
                proof {
                    assert(names@.take(j + 1).drop_last() =~= names@.take(j as int));
                    assert(names@.take(j + 1).last() == names@[j as int]);
                }
                let t = &names[j];
                if t.text == *key {
                    let range = document.line_index.line_col_range(t.range);
                    references.push(Location { uri: document.uri.clone(), range });
                    proof {
                        reveal_with_fuel(emit, 3);
                        let sofar = names_occs(*document, names@.take(j as int), key@);
                        let one = opt_name_occs(*document, Some(names@[j as int]), key@, false);
                        lemma_emit_concat(sofar, one, with_declaration);
                        assert(one.drop_last() =~= Seq::<(Seq<char>, Location, bool)>::empty());
                        assert(references@ =~= pre + emit(sofar, with_declaration) + emit(
                            one,
                            with_declaration,
                        ));
                    }
                } else {
                    proof {
                        reveal_with_fuel(emit, 3);
                        let sofar = names_occs(*document, names@.take(j as int), key@);
                        let one = opt_name_occs(*document, Some(names@[j as int]), key@, false);
                        lemma_emit_concat(sofar, one, with_declaration);
                        assert(references@ =~= pre + emit(sofar, with_declaration) + emit(
                            one,
                            with_declaration,
                        ));
                    }
                }
                j = j + 1;
            }
            proof {
                assert(names@.take(names@.len() as int) =~= names@);
            }
        },
        LatexNode::LabelReferenceRange { from, to, .. } => {
            let ghost occ_from = opt_name_occs(*document, *from, key@, false);
            let ghost occ_to = opt_name_occs(*document, *to, key@, false);
            if let Some(t) = from {
                if t.text == *key {
                    let range = document.line_index.line_col_range(t.range);
                    references.push(Location { uri: document.uri.clone(), range });
                }
            }
            proof {
                reveal_with_fuel(emit, 3);
                if occ_from.len() > 0 {
                    assert(occ_from.drop_last() =~= Seq::<(Seq<char>, Location, bool)>::empty());
                }
                assert(references@ =~= pre + emit(occ_from, with_declaration));
            }
            if let Some(t) = to {
                if t.text == *key {
                    let range = document.line_index.line_col_range(t.range);
                    references.push(Location { uri: document.uri.clone(), range });
                }
            }
            proof {
                reveal_with_fuel(emit, 3);
                if occ_to.len() > 0 {
                    assert(occ_to.drop_last() =~= Seq::<(Seq<char>, Location, bool)>::empty());
                }
                lemma_emit_concat(occ_from, occ_to, with_declaration);
                assert(references@ =~= pre + emit(occ_from, with_declaration) + emit(
                    occ_to,
                    with_declaration,
                ));
            }
        },
        _ => {
            proof {
                assert(references@ =~= pre + emit(
                    node_occs(*document, *node, key@),
                    with_declaration,
                ));
            }
        },
    }
}

/// Enumerates every occurrence of the label key under the cursor across the
/// project, polling the cancellation token once per node.  Returns `Some`
/// after a complete traversal, whose output is exactly
/// `label_reference_locations`; returns `None` when the cursor designates no
/// label or the token was seen canceled, leaving a prefix of the full output
/// appended to `references`.
pub fn find_label_references<'a>(
    context: &CursorContext<'a>,
    project: &Project<'a>,
    with_declaration: bool,
    cancellation_token: &CancellationToken,
    references: &mut Vec<Location>,
) -> (r: Option<()>)
    requires
        project.wf(),
    ensures
        ({
            let key_opt = label_key_at(*context.document, context.offset);
            let full = label_reference_locations(
                project.documents@,
                key_opt->0.text@,
                with_declaration,
            );
            &&& r is Some ==> key_opt is Some && final(references)@ == old(references)@ + full
            &&& r is None ==> (key_opt is None && final(references)@ == old(references)@) || (
            key_opt is Some && exists|m: int|
                0 <= m <= full.len() && final(references)@ == old(references)@ + full.take(m))
        }),
{
    let ghost key_opt = label_key_at(*context.document, context.offset);
    if poll_canceled(cancellation_token) {
        proof {
            if key_opt is Some {
                let full = label_reference_locations(
                    project.documents@,
                    key_opt->0.text@,
                    with_declaration,
                );
                assert(full.take(0) =~= Seq::<Location>::empty());
                assert(references@ =~= references@ + full.take(0));
            }
        }
        return None;
    }
    let name = match context.find_label_name() {
        Some(x) => x,
        None => {
            return None;
        },
    };
    let key = name.0;
    let ghost keyv = key@;
    let ghost full = label_reference_locations(project.documents@, keyv, with_declaration);
    let docs = &project.documents;
    let mut d: usize = 0;
    proof {
        assert(docs@.take(0) =~= Seq::<&'a Document>::empty());
    }
    while d < docs.len()
        invariant
            project.wf(),
            docs@ == project.documents@,
            key@ == keyv,
            key_opt == label_key_at(*context.document, context.offset),
            key_opt is Some && key_opt->0.text@ == keyv,
            full == label_reference_locations(project.documents@, keyv, with_declaration),
            0 <= d <= docs@.len(),
            references@ == old(references)@ + emit(
                docs_occs(docs@.take(d as int), keyv),
                with_declaration,
            ),
        decreases docs@.len() - d,
    {
        let document = docs[d];
        let ghost sofar_docs = emit(docs_occs(docs@.take(d as int), keyv), with_declaration);
        if let DocumentData::Tex(data) = &document.data {
            let nodes = &data.root.nodes;
            let mut n: usize = 0;
            proof {
                assert(nodes@.take(0) =~= Seq::<LatexNode>::empty());
            }
            while n < nodes.len()
                invariant
                    project.wf(),
                    docs@ == project.documents@,
                    key@ == keyv,
                    key_opt == label_key_at(*context.document, context.offset),
                    key_opt is Some && key_opt->0.text@ == keyv,
                    full == label_reference_locations(project.documents@, keyv, with_declaration),
                    0 <= d < docs@.len(),
                    docs@[d as int] == document,
                    document.data matches DocumentData::Tex(dd) && dd.root.nodes@ == nodes@,
                    sofar_docs == emit(docs_occs(docs@.take(d as int), keyv), with_declaration),
                    0 <= n <= nodes@.len(),
                    references@ == old(references)@ + sofar_docs + emit(
                        nodes_occs(*document, nodes@.take(n as int), keyv),
                        with_declaration,
                    ),
                decreases nodes@.len() - n,
            {
                if poll_canceled(cancellation_token) {
                    proof {
                        lemma_prefix_witness(
                            docs@,
                            keyv,
                            with_declaration,
                            d as int,
                            n as int,
                            nodes@,
                            *document,
                        );
                        let m = (sofar_docs + emit(
                            nodes_occs(*document, nodes@.take(n as int), keyv),
                            with_declaration,
                        )).len() as int;
                        assert(references@ == old(references)@ + full.take(m));
                    }
                    return None;
                }
                proof {
                    assert(nodes@.take(n + 1).drop_last() =~= nodes@.take(n as int));
                    assert(nodes@.take(n + 1).last() == nodes@[n as int]);
                    lemma_emit_concat(
                        nodes_occs(*document, nodes@.take(n as int), keyv),
                        node_occs(*document, nodes@[n as int], keyv),
                        with_declaration,
                    );
                }
                assert(document.wf());
                push_node_matches(document, &nodes[n], &key, with_declaration, references);
                n = n + 1;
            }
            proof {
                assert(nodes@.take(nodes@.len() as int) =~= nodes@);
                assert(docs@.take(d + 1).drop_last() =~= docs@.take(d as int));
                assert(docs@.take(d + 1).last() == docs@[d as int]);
                lemma_emit_concat(
                    docs_occs(docs@.take(d as int), keyv),
                    doc_occs(*document, keyv),
                    with_declaration,
                );
            }
        } else {
            proof {
                assert(doc_occs(*document, keyv) =~= Seq::<(Seq<char>, Location, bool)>::empty());
                assert(docs@.take(d + 1).drop_last() =~= docs@.take(d as int));
                assert(docs@.take(d + 1).last() == docs@[d as int]);
                lemma_emit_concat(
                    docs_occs(docs@.take(d as int), keyv),
                    doc_occs(*document, keyv),
                    with_declaration,
                );
                assert(references@ =~= old(references)@ + emit(
                    docs_occs(docs@.take(d + 1), keyv),
                    with_declaration,
                ));
            }
        }
        d = d + 1;
    }
    proof {
        assert(docs@.take(docs@.len() as int) =~= docs@);
    }
    Some(())
}

/// The part of the output gathered up to node `n` of document `d` is a take
/// prefix of the full output.
#[verifier::rlimit(100)]
#[verifier::spinoff_prover]
proof fn lemma_prefix_witness<'a>(
    docs: Seq<&'a Document>,
    key: Seq<char>,
    with_declaration: bool,
    d: int,
    n: int,
    nodes: Seq<LatexNode>,
    document: Document,
)
    requires
        0 <= d < docs.len(),
        *docs[d] == document,
        document.data matches DocumentData::Tex(dd) && dd.root.nodes@ == nodes,
        0 <= n <= nodes.len(),
    ensures
        ({
            let sofar = emit(docs_occs(docs.take(d), key), with_declaration) + emit(
                nodes_occs(document, nodes.take(n), key),
                with_declaration,
            );
            let full = label_reference_locations(docs, key, with_declaration);
            &&& sofar.len() <= full.len()
            &&& sofar == full.take(sofar.len() as int)
        }),
{
    let full = label_reference_locations(docs, key, with_declaration);
    let a = emit(docs_occs(docs.take(d), key), with_declaration);
    let b = emit(nodes_occs(document, nodes.take(n), key), with_declaration);
    let within = emit(nodes_occs(document, nodes.skip(n), key), with_declaration);
    let rest = emit(docs_occs(docs.skip(d).skip(1), key), with_declaration);
    lemma_docs_occs_split(docs, key, d);
    lemma_emit_concat(docs_occs(docs.take(d), key), docs_occs(docs.skip(d), key), with_declaration);
    assert(full == a + emit(docs_occs(docs.skip(d), key), with_declaration));
    lemma_docs_occs_split(docs.skip(d), key, 1);
    assert(docs.skip(d).take(1) =~= seq![docs[d]]);
    assert(docs_occs(seq![docs[d]], key) == doc_occs(document, key)) by {
        reveal_with_fuel(docs_occs, 3);
        assert(seq![docs[d]].drop_last() =~= Seq::<&'a Document>::empty());
        assert(seq![docs[d]].last() == docs[d]);
    }
    lemma_emit_concat(
        doc_occs(document, key),
        docs_occs(docs.skip(d).skip(1), key),
        with_declaration,
    );
    assert(emit(docs_occs(docs.skip(d), key), with_declaration) == emit(
        doc_occs(document, key),
        with_declaration,
    ) + rest);
    lemma_nodes_occs_split(document, nodes, key, n);
    lemma_emit_concat(
        nodes_occs(document, nodes.take(n), key),
        nodes_occs(document, nodes.skip(n), key),
        with_declaration,
    );
    assert(emit(doc_occs(document, key), with_declaration) == b + within);
    assert(full == a + ((b + within) + rest));
    assert((a + ((b + within) + rest)).take((a + b).len() as int) =~= a + b);
    assert((a + b).len() <= full.len());
}

/// Enumerates every occurrence of the label key under the cursor across the
/// project, without a cancellation token: the output is always complete.
pub fn collect_label_references<'a>(
    context: &CursorContext<'a>,
    project: &Project<'a>,
    with_declaration: bool,
) -> (r: Vec<Location>)
    requires
        project.wf(),
    ensures
        ({
            let key_opt = label_key_at(*context.document, context.offset);
            match key_opt {
                Some(tok) => r@ == label_reference_locations(
                    project.documents@,
                    tok.text@,
                    with_declaration,
                ),
                None => r@ == Seq::<Location>::empty(),
            }
        }),
{
    let mut references: Vec<Location> = Vec::new();
    let name = match context.find_label_name() {
        Some(x) => x,
        None => {
            return references;
        },
    };
    let key = name.0;
    let ghost keyv = key@;
    let docs = &project.documents;
    let mut d: usize = 0;
    proof {
        assert(docs@.take(0) =~= Seq::<&'a Document>::empty());
    }
    while d < docs.len()
        invariant
            project.wf(),
            docs@ == project.documents@,
            key@ == keyv,
            0 <= d <= docs@.len(),
            references@ == emit(docs_occs(docs@.take(d as int), keyv), with_declaration),
        decreases docs@.len() - d,
    {
        let document = docs[d];
        let ghost sofar_docs = emit(docs_occs(docs@.take(d as int), keyv), with_declaration);
        if let DocumentData::Tex(data) = &document.data {
            let nodes = &data.root.nodes;
            let mut n: usize = 0;
            proof {
                assert(nodes@.take(0) =~= Seq::<LatexNode>::empty());
            }
            while n < nodes.len()
                invariant
                    project.wf(),
                    docs@ == project.documents@,
                    key@ == keyv,
                    0 <= d < docs@.len(),
                    docs@[d as int] == document,
                    document.data matches DocumentData::Tex(dd) && dd.root.nodes@ == nodes@,
                    sofar_docs == emit(docs_occs(docs@.take(d as int), keyv), with_declaration),
                    0 <= n <= nodes@.len(),
                    references@ == sofar_docs + emit(
                        nodes_occs(*document, nodes@.take(n as int), keyv),
                        with_declaration,
                    ),
                decreases nodes@.len() - n,
            {
                proof {
                    assert(nodes@.take(n + 1).drop_last() =~= nodes@.take(n as int));
                    assert(nodes@.take(n + 1).last() == nodes@[n as int]);
                    lemma_emit_concat(
                        nodes_occs(*document, nodes@.take(n as int), keyv),
                        node_occs(*document, nodes@[n as int], keyv),
                        with_declaration,
                    );
                }
                assert(document.wf());
                push_node_matches(document, &nodes[n], &key, with_declaration, &mut references);
                n = n + 1;
            }
            proof {
                assert(nodes@.take(nodes@.len() as int) =~= nodes@);
                assert(docs@.take(d + 1).drop_last() =~= docs@.take(d as int));
                assert(docs@.take(d + 1).last() == docs@[d as int]);
                lemma_emit_concat(
                    docs_occs(docs@.take(d as int), keyv),
                    doc_occs(*document, keyv),
                    with_declaration,
                );
            }
        } else {
            proof {
                assert(doc_occs(*document, keyv) =~= Seq::<(Seq<char>, Location, bool)>::empty());
                assert(docs@.take(d + 1).drop_last() =~= docs@.take(d as int));
                assert(docs@.take(d + 1).last() == docs@[d as int]);
                lemma_emit_concat(
                    docs_occs(docs@.take(d as int), keyv),
                    doc_occs(*document, keyv),
                    with_declaration,
                );
                assert(references@ =~= emit(docs_occs(docs@.take(d + 1), keyv), with_declaration));
            }
        }
        d = d + 1;
    }
    proof {
        assert(docs@.take(docs@.len() as int) =~= docs@);
    }
    references
}

} // verus!
