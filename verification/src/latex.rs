//! Typed view over a parsed document of the primary typesetting grammar.
//!
//! The parser (an outside collaborator) projects its concrete syntax tree
//! onto the closed set of node shapes below: each node is one construct the
//! query engine cares about, carrying its command token and name tokens, and
//! the root lists the nodes in depth-first pre-order.  Constructs the engine
//! never reads are not projected.

use vstd::prelude::*;
use crate::text::TextRange;

verus! {

/// A leaf of the syntax tree: literal text plus the span it occupies.
#[derive(Clone, Debug)]
pub struct Token {
    pub text: String,
    pub range: TextRange,
}

/// One construct of the primary grammar.  Name tokens are optional because
/// malformed input may omit them; absence is normal, never an error.
#[derive(Clone, Debug)]
pub enum LatexNode {
    /// A label definition: the command token and the defined name.
    LabelDefinition { command: Token, name: Option<Token> },
    /// A label reference with its (possibly empty) list of names.
    LabelReference { command: Token, names: Vec<Token> },
    /// A label range reference with its lower and upper bound names.
    LabelReferenceRange { command: Token, from: Option<Token>, to: Option<Token> },
    /// A citation with its list of keys.
    Citation { command: Token, keys: Vec<Token> },
    /// A directive pulling another document into the project.
    Input { command: Token, path: Option<Token> },
}

/// The root of a parsed document of the primary grammar.
#[derive(Clone, Debug)]
pub struct LatexRoot {
    pub nodes: Vec<LatexNode>,
}

impl LatexRoot {
    /// All nodes of the tree in depth-first pre-order.
    pub fn descendants(&self) -> (r: &Vec<LatexNode>)
        ensures
            r@ == self.nodes@,
    {
        &self.nodes
    }
}

} // verus!
