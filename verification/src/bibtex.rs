//! Typed view over a parsed document of the bibliography grammar.
//!
//! As with the primary grammar, the parser projects its concrete syntax tree
//! onto the closed node shapes below: string definitions and entries, the
//! latter with their fields.  A field value is a list of parts, each either a
//! quoted literal or a name referring to a string definition.

use vstd::prelude::*;
use crate::latex::Token;

verus! {

/// One part of a field value: a quoted or braced literal, or a name token
/// referring to a string definition.
#[derive(Clone, Debug)]
pub enum BibValuePart {
    Literal(Token),
    StringRef(Token),
}

/// A field value: the concatenation (by the grammar's join operator) of its
/// parts.
#[derive(Clone, Debug)]
pub struct BibValue {
    pub parts: Vec<BibValuePart>,
}

/// A field of an entry: `name = value`.
#[derive(Clone, Debug)]
pub struct BibField {
    pub name: Option<Token>,
    pub value: Option<BibValue>,
}

/// One top-level construct of a bibliography document.
#[derive(Clone, Debug)]
pub enum BibNode {
    /// A string definition: `@string{name = value}`.
    StringDef { name: Option<Token>, value: Option<BibValue> },
    /// An entry: `@kind{name, fields}`.
    Entry { name: Option<Token>, fields: Vec<BibField> },
}

/// The root of a parsed bibliography document.
#[derive(Clone, Debug)]
pub struct BibRoot {
    pub nodes: Vec<BibNode>,
}

/// The plain text one value part contributes: literal parts contribute their
/// text, references to string definitions are left unexpanded.
pub open spec fn part_text(p: BibValuePart) -> Seq<char> {
    match p {
        BibValuePart::Literal(t) => t.text@,
        BibValuePart::StringRef(_) => Seq::empty(),
    }
}

/// The plain text of a field value: its literal parts, concatenated.
pub open spec fn value_text(parts: Seq<BibValuePart>) -> Seq<char>
    decreases parts.len(),
{
    if parts.len() == 0 {
        Seq::empty()
    } else {
        value_text(parts.drop_last()) + part_text(parts.last())
    }
}

/// Extracts the plain text of a field value.
pub fn extract_value_text(value: &BibValue) -> (r: String)
    ensures
        r@ == value_text(value.parts@),
{
    let mut out = String::new();
    let mut i: usize = 0;
    while i < value.parts.len()
        invariant
            0 <= i <= value.parts@.len(),
            out@ == value_text(value.parts@.take(i as int)),
        decreases value.parts@.len() - i,
    {
        proof {
            assert(value.parts@.take(i + 1).drop_last() =~= value.parts@.take(i as int));
            assert(value.parts@.take(i + 1).last() == value.parts@[i as int]);
        }
        match &value.parts[i] {
            BibValuePart::Literal(t) => {
                out.append(t.text.as_str());
            },
            BibValuePart::StringRef(_) => {},
        }
        i = i + 1;
    }
    proof {
        assert(value.parts@.take(value.parts@.len() as int) =~= value.parts@);
    }
    out
}

} // verus!
