//! Cursor classification: what kind of symbol sits at a position.
//!
//! Each classification attempts one parse path and yields nothing on a
//! mismatch.  Operations fall back across classifications in a fixed order;
//! the first successful one wins.

use vstd::prelude::*;
use crate::bibtex::{BibNode, BibValue, BibValuePart};
use crate::document::{Document, DocumentData};
use crate::latex::{LatexNode, Token};
use crate::text::TextRange;

verus! {

/// The first token of `tokens` whose span holds `offset`.
pub open spec fn token_at(tokens: Seq<Token>, offset: u32) -> Option<Token>
    decreases tokens.len(),
{
    if tokens.len() == 0 {
        None
    } else if tokens[0].range.spec_contains(offset) {
        Some(tokens[0])
    } else {
        token_at(tokens.drop_first(), offset)
    }
}

/// The label name word of `node` at `offset`, if any: the name of a label
/// definition, one name of a label reference, or a bound of a label range
/// reference.
pub open spec fn label_word_in_node(node: LatexNode, offset: u32) -> Option<Token> {
    match node {
        LatexNode::LabelDefinition { name, .. } => opt_token_at(name, offset),
        LatexNode::LabelReference { names, .. } => token_at(names@, offset),
        LatexNode::LabelReferenceRange { from, to, .. } => match opt_token_at(from, offset) {
            Some(t) => Some(t),
            None => opt_token_at(to, offset),
        },
        _ => None,
    }
}

pub open spec fn opt_token_at(name: Option<Token>, offset: u32) -> Option<Token> {
    match name {
        Some(t) => if t.range.spec_contains(offset) {
            Some(t)
        } else {
            None
        },
        None => None,
    }
}

/// The first label name word at `offset` over the nodes in order.
pub open spec fn label_word_at(nodes: Seq<LatexNode>, offset: u32) -> Option<Token>
    decreases nodes.len(),
{
    if nodes.len() == 0 {
        None
    } else {
        match label_word_in_node(nodes[0], offset) {
            Some(t) => Some(t),
            None => label_word_at(nodes.drop_first(), offset),
        }
    }
}

/// The name a label node designates when the cursor sits on its command
/// token: its (first) name word.
pub open spec fn label_name_via_command(node: LatexNode, offset: u32) -> Option<Token> {
    match node {
        LatexNode::LabelDefinition { command, name } => if command.range.spec_contains(offset) {
            name
        } else {
            None
        },
        LatexNode::LabelReference { command, names } => if command.range.spec_contains(offset)
            && names@.len() > 0 {
            Some(names@[0])
        } else {
            None
        },
        LatexNode::LabelReferenceRange { command, from, .. } => if command.range.spec_contains(
            offset,
        ) {
            from
        } else {
            None
        },
        _ => None,
    }
}

pub open spec fn label_command_at(nodes: Seq<LatexNode>, offset: u32) -> Option<Token>
    decreases nodes.len(),
{
    if nodes.len() == 0 {
        None
    } else {
        match label_name_via_command(nodes[0], offset) {
            Some(t) => Some(t),
            None => label_command_at(nodes.drop_first(), offset),
        }
    }
}

/// The label key the cursor designates in `doc`: a name word under the
/// cursor, or failing that the name of a label command under the cursor.
pub open spec fn label_key_at(doc: Document, offset: u32) -> Option<Token> {
    match doc.data {
        DocumentData::Tex(data) => match label_word_at(data.root.nodes@, offset) {
            Some(t) => Some(t),
            None => label_command_at(data.root.nodes@, offset),
        },
        _ => None,
    }
}

/// The citation key word of `node` at `offset`, if any.
pub open spec fn citation_key_in_node(node: LatexNode, offset: u32) -> Option<Token> {
    match node {
        LatexNode::Citation { keys, .. } => token_at(keys@, offset),
        _ => None,
    }
}

pub open spec fn citation_key_at_nodes(nodes: Seq<LatexNode>, offset: u32) -> Option<Token>
    decreases nodes.len(),
{
    if nodes.len() == 0 {
        None
    } else {
        match citation_key_in_node(nodes[0], offset) {
            Some(t) => Some(t),
            None => citation_key_at_nodes(nodes.drop_first(), offset),
        }
    }
}

/// The citation key the cursor designates in `doc`.
pub open spec fn citation_key_at(doc: Document, offset: u32) -> Option<Token> {
    match doc.data {
        DocumentData::Tex(data) => citation_key_at_nodes(data.root.nodes@, offset),
        _ => None,
    }
}

/// The entry key of `node` at `offset`, if any.
pub open spec fn entry_key_in_node(node: BibNode, offset: u32) -> Option<Token> {
    match node {
        BibNode::Entry { name, .. } => opt_token_at(name, offset),
        _ => None,
    }
}

pub open spec fn entry_key_at_nodes(nodes: Seq<BibNode>, offset: u32) -> Option<Token>
    decreases nodes.len(),
{
    if nodes.len() == 0 {
        None
    } else {
        match entry_key_in_node(nodes[0], offset) {
            Some(t) => Some(t),
            None => entry_key_at_nodes(nodes.drop_first(), offset),
        }
    }
}

/// The bibliography entry key the cursor designates in `doc`.
pub open spec fn entry_key_at(doc: Document, offset: u32) -> Option<Token> {
    match doc.data {
        DocumentData::Bib(data) => entry_key_at_nodes(data.root.nodes@, offset),
        _ => None,
    }
}

/// The string-reference name token under the cursor inside a field value:
/// only name parts count, literal parts never do.
pub open spec fn string_ref_in_parts(parts: Seq<BibValuePart>, offset: u32) -> Option<Token>
    decreases parts.len(),
{
    if parts.len() == 0 {
        None
    } else {
        match parts[0] {
            BibValuePart::StringRef(t) => if t.range.spec_contains(offset) {
                Some(t)
            } else {
                string_ref_in_parts(parts.drop_first(), offset)
            },
            BibValuePart::Literal(_) => string_ref_in_parts(parts.drop_first(), offset),
        }
    }
}

pub open spec fn string_ref_in_value(value: Option<BibValue>, offset: u32) -> Option<Token> {
    match value {
        Some(v) => string_ref_in_parts(v.parts@, offset),
        None => None,
    }
}

/// A name token accepted as a string-reference candidate: the name of a
/// string definition, or a name part of some field value.  Name tokens in
/// any other position never match.
pub open spec fn string_ref_in_node(node: BibNode, offset: u32) -> Option<Token> {
    match node {
        BibNode::StringDef { name, value } => match opt_token_at(name, offset) {
            Some(t) => Some(t),
            None => string_ref_in_value(value, offset),
        },
        BibNode::Entry { fields, .. } => string_ref_in_fields(fields@, offset),
    }
}

pub open spec fn string_ref_in_fields(fields: Seq<crate::bibtex::BibField>, offset: u32) -> Option<
    Token,
>
    decreases fields.len(),
{
    if fields.len() == 0 {
        None
    } else {
        match string_ref_in_value(fields[0].value, offset) {
            Some(t) => Some(t),
            None => string_ref_in_fields(fields.drop_first(), offset),
        }
    }
}

pub open spec fn string_ref_at_nodes(nodes: Seq<BibNode>, offset: u32) -> Option<Token>
    decreases nodes.len(),
{
    if nodes.len() == 0 {
        None
    } else {
        match string_ref_in_node(nodes[0], offset) {
            Some(t) => Some(t),
            None => string_ref_at_nodes(nodes.drop_first(), offset),
        }
    }
}

/// The string-definition name the cursor designates in `doc`.
pub open spec fn string_ref_at(doc: Document, offset: u32) -> Option<Token> {
    match doc.data {
        DocumentData::Bib(data) => string_ref_at_nodes(data.root.nodes@, offset),
        _ => None,
    }
}

/// The per-request view of one cursor position inside one document.
pub struct CursorContext<'a> {
    pub document: &'a Document,
    pub offset: u32,
}

impl<'a> CursorContext<'a> {
    pub fn new(document: &'a Document, offset: u32) -> (r: CursorContext<'a>)
        ensures
            r.document == document,
            r.offset == offset,
    {
        CursorContext { document, offset }
    }

    /// The label name word under the cursor, with its span.
    pub fn find_label_name_word(&self) -> (r: Option<(String, TextRange)>)
        ensures
            opt_matches_token(r, label_word_at_doc(*self.document, self.offset)),
    {
        match &self.document.data {
            DocumentData::Tex(data) => {
                let nodes = &data.root.nodes;
                let mut i: usize = 0;
                proof {
                    assert(nodes@.skip(0) =~= nodes@);
                }
                while i < nodes.len()
                    invariant
                        0 <= i <= nodes@.len(),
                        label_word_at_doc(*self.document, self.offset) == label_word_at(
                            nodes@,
                            self.offset,
                        ),
                        label_word_at(nodes@, self.offset) == label_word_at(
                            nodes@.skip(i as int),
                            self.offset,
                        ),
                    decreases nodes@.len() - i,
                {
                    proof {
                        assert(nodes@.skip(i as int).drop_first() =~= nodes@.skip(i + 1));
                        assert(nodes@.skip(i as int)[0] == nodes@[i as int]);
                    }
                    let found = label_word_in_node_exec(&nodes[i], self.offset);
                    if let Some(t) = found {
                        return Some((t.text.clone(), t.range));
                    }
                    i = i + 1;
                }
                assert(nodes@.skip(nodes@.len() as int) =~= Seq::<LatexNode>::empty());
                None
            },
            _ => None,
        }
    }

    /// The name of the label command under the cursor, with the cursor
    /// token's span.
    pub fn find_label_name_command(&self) -> (r: Option<(String, TextRange)>)
        ensures
            opt_matches_token(r, label_command_at_doc(*self.document, self.offset)),
    {
        match &self.document.data {
            DocumentData::Tex(data) => {
                let nodes = &data.root.nodes;
                let mut i: usize = 0;
                proof {
                    assert(nodes@.skip(0) =~= nodes@);
                }
                while i < nodes.len()
                    invariant
                        0 <= i <= nodes@.len(),
                        label_command_at_doc(*self.document, self.offset) == label_command_at(
                            nodes@,
                            self.offset,
                        ),
                        label_command_at(nodes@, self.offset) == label_command_at(
                            nodes@.skip(i as int),
                            self.offset,
                        ),
                    decreases nodes@.len() - i,
                {
                    proof {
                        assert(nodes@.skip(i as int).drop_first() =~= nodes@.skip(i + 1));
                        assert(nodes@.skip(i as int)[0] == nodes@[i as int]);
                    }
                    let found = label_command_in_node_exec(&nodes[i], self.offset);
                    if let Some(t) = found {
                        return Some((t.text.clone(), t.range));
                    }
                    i = i + 1;
                }
                assert(nodes@.skip(nodes@.len() as int) =~= Seq::<LatexNode>::empty());
                None
            },
            _ => None,
        }
    }

    /// The label key under the cursor: a name word, or failing that the
    /// name of a label command the cursor touches.
    pub fn find_label_name(&self) -> (r: Option<(String, TextRange)>)
        ensures
            opt_matches_token(r, label_key_at(*self.document, self.offset)),
    {
        let word = self.find_label_name_word();
        if word.is_some() {
            word
        } else {
            self.find_label_name_command()
        }
    }

    /// The citation key word under the cursor, with its span.
    pub fn find_citation_key_word(&self) -> (r: Option<(String, TextRange)>)
        ensures
            opt_matches_token(r, citation_key_at(*self.document, self.offset)),
    {
        match &self.document.data {
            DocumentData::Tex(data) => {
                let nodes = &data.root.nodes;
                let mut i: usize = 0;
                proof {
                    assert(nodes@.skip(0) =~= nodes@);
                }
                while i < nodes.len()
                    invariant
                        0 <= i <= nodes@.len(),
                        citation_key_at(*self.document, self.offset) == citation_key_at_nodes(
                            nodes@,
                            self.offset,
                        ),
                        citation_key_at_nodes(nodes@, self.offset) == citation_key_at_nodes(
                            nodes@.skip(i as int),
                            self.offset,
                        ),
                    decreases nodes@.len() - i,
                {
                    proof {
                        assert(nodes@.skip(i as int).drop_first() =~= nodes@.skip(i + 1));
                        assert(nodes@.skip(i as int)[0] == nodes@[i as int]);
                    }
                    if let LatexNode::Citation { keys, .. } = &nodes[i] {
                        if let Some(k) = find_token_in(keys, self.offset) {
                            let t = &keys[k];
                            return Some((t.text.clone(), t.range));
                        }
                    }
                    i = i + 1;
                }
                assert(nodes@.skip(nodes@.len() as int) =~= Seq::<LatexNode>::empty());
                None
            },
            _ => None,
        }
    }

    /// The bibliography entry key under the cursor, with its span.
    pub fn find_entry_key(&self) -> (r: Option<(String, TextRange)>)
        ensures
            opt_matches_token(r, entry_key_at(*self.document, self.offset)),
    {
        match &self.document.data {
            DocumentData::Bib(data) => {
                let nodes = &data.root.nodes;
                let mut i: usize = 0;
                proof {
                    assert(nodes@.skip(0) =~= nodes@);
                }
                while i < nodes.len()
                    invariant
                        0 <= i <= nodes@.len(),
                        entry_key_at(*self.document, self.offset) == entry_key_at_nodes(
                            nodes@,
                            self.offset,
                        ),
                        entry_key_at_nodes(nodes@, self.offset) == entry_key_at_nodes(
                            nodes@.skip(i as int),
                            self.offset,
                        ),
                    decreases nodes@.len() - i,
                {
                    proof {
                        assert(nodes@.skip(i as int).drop_first() =~= nodes@.skip(i + 1));
                        assert(nodes@.skip(i as int)[0] == nodes@[i as int]);
                    }
                    if let BibNode::Entry { name: Some(t), .. } = &nodes[i] {
                        if t.range.contains_offset(self.offset) {
                            return Some((t.text.clone(), t.range));
                        }
                    }
                    i = i + 1;
                }
                assert(nodes@.skip(nodes@.len() as int) =~= Seq::<BibNode>::empty());
                None
            },
            _ => None,
        }
    }
}

/// `label_word_at` lifted to a document.
pub open spec fn label_word_at_doc(doc: Document, offset: u32) -> Option<Token> {
    match doc.data {
        DocumentData::Tex(data) => label_word_at(data.root.nodes@, offset),
        _ => None,
    }
}

/// `label_command_at` lifted to a document.
pub open spec fn label_command_at_doc(doc: Document, offset: u32) -> Option<Token> {
    match doc.data {
        DocumentData::Tex(data) => label_command_at(data.root.nodes@, offset),
        _ => None,
    }
}

/// A classification result carries the designated token's text and span.
pub open spec fn opt_matches_token(r: Option<(String, TextRange)>, t: Option<Token>) -> bool {
    match t {
        Some(tok) => r is Some && (r->0).0@ == tok.text@ && (r->0).1 == tok.range,
        None => r is None,
    }
}

/// The first token of `tokens` whose span holds `offset`, as an index.
pub(crate) fn find_token_in(tokens: &Vec<Token>, offset: u32) -> (r: Option<usize>)
    ensures
        match r {
            Some(i) => {
                &&& 0 <= i < tokens@.len()
                &&& token_at(tokens@, offset) == Some(tokens@[i as int])
            },
            None => token_at(tokens@, offset) is None,
        },
{
    let mut i: usize = 0;
    proof {
        assert(tokens@.skip(0) =~= tokens@);
    }
    while i < tokens.len()
        invariant
            0 <= i <= tokens@.len(),
            token_at(tokens@, offset) == token_at(tokens@.skip(i as int), offset),
        decreases tokens@.len() - i,
    {
        proof {
            assert(tokens@.skip(i as int).drop_first() =~= tokens@.skip(i + 1));
            assert(tokens@.skip(i as int)[0] == tokens@[i as int]);
        }
        if tokens[i].range.contains_offset(offset) {
            return Some(i);
        }
        i = i + 1;
    }
    assert(tokens@.skip(tokens@.len() as int) =~= Seq::<Token>::empty());
    None
}

/// The label name word of one node at `offset`.
fn label_word_in_node_exec<'n>(node: &'n LatexNode, offset: u32) -> (r: Option<&'n Token>)
    ensures
        ({
            let s = label_word_in_node(*node, offset);
            match s {
                Some(t) => r is Some && *r->0 == t,
                None => r is None,
            }
        }),
{
    match node {
        LatexNode::LabelDefinition { name, .. } => match name {
            Some(t) => if t.range.contains_offset(offset) {
                Some(t)
            } else {
                None
            },
            None => None,
        },
        LatexNode::LabelReference { names, .. } => match find_token_in(names, offset) {
            Some(i) => Some(&names[i]),
            None => None,
        },
        LatexNode::LabelReferenceRange { from, to, .. } => {
            if let Some(t) = from {
                if t.range.contains_offset(offset) {
                    return Some(t);
                }
            }
            if let Some(t) = to {
                if t.range.contains_offset(offset) {
                    return Some(t);
                }
            }
            None
        },
        _ => None,
    }
}

/// The name designated by one node's command token at `offset`.
fn label_command_in_node_exec<'n>(node: &'n LatexNode, offset: u32) -> (r: Option<&'n Token>)
    ensures
        ({
            let s = label_name_via_command(*node, offset);
            match s {
                Some(t) => r is Some && *r->0 == t,
                None => r is None,
            }
        }),
{
    match node {
        LatexNode::LabelDefinition { command, name } => {
            if command.range.contains_offset(offset) {
                match name {
                    Some(t) => Some(t),
                    None => None,
                }
            } else {
                None
            }
        },
        LatexNode::LabelReference { command, names } => {
            if command.range.contains_offset(offset) && names.len() > 0 {
                Some(&names[0])
            } else {
                None
            }
        },
        LatexNode::LabelReferenceRange { command, from, .. } => {
            if command.range.contains_offset(offset) {
                match from {
                    Some(t) => Some(t),
                    None => None,
                }
            } else {
                None
            }
        },
        _ => None,
    }
}

} // verus!
