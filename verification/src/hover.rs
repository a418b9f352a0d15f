//! Definition lookup for bibliography string references.
//!
//! A hover request on a string-reference name scans the same document's
//! string definitions for one with exactly that name and yields its value as
//! plain text, anchored at the cursor token's span.  String definitions are
//! document-local; the project is never consulted.

use vstd::prelude::*;
use crate::bibtex::{value_text, BibNode, BibValue, BibValuePart};
use crate::cursor::{
    string_ref_at, string_ref_in_fields, string_ref_in_node, string_ref_in_parts,
    string_ref_in_value, CursorContext,
};
use crate::document::{Document, DocumentData};
use crate::latex::Token;
use crate::text::TextRange;

verus! {

/// How a hover payload should be rendered.
#[derive(Clone, Copy, Debug, PartialEq, Eq, Structural)]
pub enum MarkupKind {
    PlainText,
    Markdown,
}

/// A resolved hover: the span to anchor at, the payload, and its rendering.
#[derive(Clone, Debug)]
pub struct HoverResult {
    pub range: TextRange,
    pub value: String,
    pub value_kind: MarkupKind,
}

/// The value of the first string definition named `key`: absent if no
/// definition matches, `Some(None)` if one matches but has no value.
pub open spec fn string_def_match(node: BibNode, key: Seq<char>) -> Option<Option<BibValue>> {
    match node {
        BibNode::StringDef { name: Some(t), value } => if t.text@ == key {
            Some(value)
        } else {
            None
        },
        _ => None,
    }
}

pub open spec fn string_def_value(nodes: Seq<BibNode>, key: Seq<char>) -> Option<Option<BibValue>>
    decreases nodes.len(),
{
    if nodes.len() == 0 {
        None
    } else {
        match string_def_match(nodes[0], key) {
            Some(v) => Some(v),
            None => string_def_value(nodes.drop_first(), key),
        }
    }
}

/// `string_def_value` lifted to a document.
pub open spec fn string_def_value_in_doc(doc: Document, key: Seq<char>) -> Option<
    Option<BibValue>,
> {
    match doc.data {
        DocumentData::Bib(data) => string_def_value(data.root.nodes@, key),
        _ => None,
    }
}

/// Resolves the string definition referred to under the cursor and yields
/// its value as plain text, anchored at the cursor token's span.
pub fn find_hover(context: &CursorContext) -> (r: Option<HoverResult>)
    ensures
        ({
            let t = string_ref_at(*context.document, context.offset);
            match r {
                Some(h) => {
                    &&& t is Some
                    &&& h.range == t->0.range
                    &&& match string_def_value_in_doc(*context.document, t->0.text@) {
                        Some(Some(v)) => h.value@ == value_text(v.parts@),
                        _ => false,
                    }
                    &&& h.value_kind == MarkupKind::PlainText
                },
                None => t is None || !(string_def_value_in_doc(*context.document, t->0.text@)
                    matches Some(Some(_))),
            }
        }),
{
    let data = match &context.document.data {
        DocumentData::Bib(data) => data,
        _ => {
            return None;
        },
    };
    let name = match find_string_ref(context) {
        Some(t) => t,
        None => {
            return None;
        },
    };
    let nodes = &data.root.nodes;
    let ghost key = name.0@;
    let mut i: usize = 0;
    proof {
        assert(nodes@.skip(0) =~= nodes@);
    }
    while i < nodes.len()
        invariant
            0 <= i <= nodes@.len(),
            string_ref_at(*context.document, context.offset) is Some,
            (string_ref_at(*context.document, context.offset))->0.text@ == key,
            (string_ref_at(*context.document, context.offset))->0.range == name.1,
            name.0@ == key,
            string_def_value_in_doc(*context.document, key) == string_def_value(
                nodes@,
                key,
            ),
            string_def_value(nodes@, key) == string_def_value(nodes@.skip(i as int), key),
        decreases nodes@.len() - i,
    {
        proof {
            assert(nodes@.skip(i as int).drop_first() =~= nodes@.skip(i + 1));
            assert(nodes@.skip(i as int)[0] == nodes@[i as int]);
        }
        if let BibNode::StringDef { name: def_name, value } = &nodes[i] {
            let matches_key = match def_name {
                Some(t) => t.text == name.0,
                None => false,
            };
            if matches_key {
                match value {
                    Some(v) => {
                        let text = crate::bibtex::extract_value_text(v);
                        return Some(
                            HoverResult {
                                range: name.1,
                                value: text,
                                value_kind: MarkupKind::PlainText,
                            },
                        );
                    },
                    None => {
                        return None;
                    },
                }
            }
        }
        i = i + 1;
    }
    assert(nodes@.skip(nodes@.len() as int) =~= Seq::<BibNode>::empty());
    None
}

/// The string-reference name token under the cursor, with its span: the
/// name of a string definition, or a name part of a field value.
pub fn find_string_ref(context: &CursorContext) -> (r: Option<(String, TextRange)>)
    ensures
        ({
            let t = string_ref_at(*context.document, context.offset);
            match t {
                Some(tok) => r is Some && (r->0).0@ == tok.text@ && (r->0).1 == tok.range,
                None => r is None,
            }
        }),
{
    match &context.document.data {
        DocumentData::Bib(data) => {
            let nodes = &data.root.nodes;
            let mut i: usize = 0;
            proof {
                assert(nodes@.skip(0) =~= nodes@);
            }
            while i < nodes.len()
                invariant
                    0 <= i <= nodes@.len(),
                    string_ref_at(*context.document, context.offset)
                        == crate::cursor::string_ref_at_nodes(nodes@, context.offset),
                    crate::cursor::string_ref_at_nodes(nodes@, context.offset)
                        == crate::cursor::string_ref_at_nodes(
                        nodes@.skip(i as int),
                        context.offset,
                    ),
                decreases nodes@.len() - i,
            {
                proof {
                    assert(nodes@.skip(i as int).drop_first() =~= nodes@.skip(i + 1));
                    assert(nodes@.skip(i as int)[0] == nodes@[i as int]);
                }
                let found = string_ref_in_node_exec(&nodes[i], context.offset);
                if let Some(t) = found {
                    return Some((t.text.clone(), t.range));
                }
                i = i + 1;
            }
            assert(nodes@.skip(nodes@.len() as int) =~= Seq::<BibNode>::empty());
            None
        },
        _ => None,
    }
}

/// The string-reference name of one node at `offset`.
fn string_ref_in_node_exec<'n>(node: &'n BibNode, offset: u32) -> (r: Option<&'n Token>)
    ensures
        ({
            let s = string_ref_in_node(*node, offset);
            match s {
                Some(t) => r is Some && *r->0 == t,
                None => r is None,
            }
        }),
{
    match node {
        BibNode::StringDef { name, value } => {
            if let Some(t) = name {
                if t.range.contains_offset(offset) {
                    return Some(t);
                }
            }
            string_ref_in_value_exec(value, offset)
        },
        BibNode::Entry { fields, .. } => {
            let mut i: usize = 0;
            proof {
                assert(fields@.skip(0) =~= fields@);
            }
            while i < fields.len()
                invariant
                    0 <= i <= fields@.len(),
                    string_ref_in_node(*node, offset) == string_ref_in_fields(
                        fields@,
                        offset,
                    ),
                    string_ref_in_fields(fields@, offset) == string_ref_in_fields(
                        fields@.skip(i as int),
                        offset,
                    ),
                decreases fields@.len() - i,
            {
                proof {
                    assert(fields@.skip(i as int).drop_first() =~= fields@.skip(i + 1));
                    assert(fields@.skip(i as int)[0] == fields@[i as int]);
                }
                let found = string_ref_in_value_exec(&fields[i].value, offset);
                if let Some(t) = found {
                    return Some(t);
                }
                i = i + 1;
            }
            assert(fields@.skip(fields@.len() as int) =~= Seq::<crate::bibtex::BibField>::empty());
            None
        },
    }
}

/// The string-reference name inside one field value at `offset`.
fn string_ref_in_value_exec<'n>(value: &'n Option<BibValue>, offset: u32) -> (r: Option<
    &'n Token,
>)
    ensures
        ({
            let s = string_ref_in_value(*value, offset);
            match s {
                Some(t) => r is Some && *r->0 == t,
                None => r is None,
            }
        }),
{
    let v = match value {
        Some(v) => v,
        None => {
            return None;
        },
    };
    let parts = &v.parts;
    let mut i: usize = 0;
    proof {
        assert(parts@.skip(0) =~= parts@);
    }
    while i < parts.len()
        invariant
            0 <= i <= parts@.len(),
            string_ref_in_value(*value, offset) == string_ref_in_parts(parts@, offset),
            string_ref_in_parts(parts@, offset) == string_ref_in_parts(
                parts@.skip(i as int),
                offset,
            ),
        decreases parts@.len() - i,
    {
        proof {
            assert(parts@.skip(i as int).drop_first() =~= parts@.skip(i + 1));
            assert(parts@.skip(i as int)[0] == parts@[i as int]);
        }
        if let BibValuePart::StringRef(t) = &parts[i] {
            if t.range.contains_offset(offset) {
                return Some(t);
            }
        }
        i = i + 1;
    }
    assert(parts@.skip(parts@.len() as int) =~= Seq::<BibValuePart>::empty());
    None
}

} // verus!
