//! Documents, the workspace registry, and projects.
//!
//! A `Document` is an immutable snapshot: a URI, the source text, a parsed
//! data variant, and a line index.  The `Workspace` registers every known
//! document; a `Project` is the set of documents reachable from a root
//! document over input edges, borrowed from the workspace for the duration
//! of one query.

use vstd::prelude::*;
use vstd::seq_lib::*;
use vstd::set_lib::*;
use crate::bibtex::BibRoot;
use crate::latex::{LatexNode, LatexRoot};
use crate::text::LineIndex;

verus! {

/// Parsed data of a document of the primary grammar, together with the
/// flags the parser derived for it.
#[derive(Clone, Debug)]
pub struct TexData {
    pub root: LatexRoot,
    /// Whether this document can stand at the root of a project.
    pub can_be_root: bool,
    /// Output documents this one implicitly links to, as URIs.
    pub implicit_pdf_links: Vec<String>,
}

/// Parsed data of a bibliography document.
#[derive(Clone, Debug)]
pub struct BibData {
    pub root: BibRoot,
}

/// The parsed representation of one document.  Exactly one variant is
/// active; operations that cannot handle a variant skip it silently.
#[derive(Clone, Debug)]
pub enum DocumentData {
    Tex(TexData),
    Bib(BibData),
    Aux,
    Log,
    Root,
    Tectonic,
}

/// An immutable snapshot of one document.
#[derive(Clone, Debug)]
pub struct Document {
    pub uri: String,
    pub text: String,
    pub data: DocumentData,
    pub line_index: LineIndex,
}

impl Document {
    pub open spec fn wf(self) -> bool {
        self.line_index.wf()
    }
}

/// The set of documents a query runs over, borrowed from the workspace.
pub struct Project<'a> {
    pub documents: Vec<&'a Document>,
}

impl<'a> Project<'a> {
    pub open spec fn wf(self) -> bool {
        forall|i: int| 0 <= i < self.documents@.len() ==> (#[trigger] self.documents@[i]).wf()
    }
}

/// The registry of all known documents, keyed by URI.
pub struct Workspace {
    pub documents: Vec<Document>,
}

impl Workspace {
    pub open spec fn wf(self) -> bool {
        forall|i: int| 0 <= i < self.documents@.len() ==> (#[trigger] self.documents@[i]).wf()
    }

    /// All known documents, in registration order.
    pub fn documents(&self) -> (r: &Vec<Document>)
        ensures
            r@ == self.documents@,
    {
        &self.documents
    }

    /// The index of the first document with the given URI.
    pub fn document_index(&self, uri: &String) -> (r: Option<usize>)
        ensures
            match r {
                Some(i) => {
                    &&& 0 <= i < self.documents@.len()
                    &&& self.documents@[i as int].uri@ == uri@
                    &&& forall|j: int| 0 <= j < i ==> (#[trigger] self.documents@[j]).uri@ != uri@
                },
                None => forall|j: int|
                    0 <= j < self.documents@.len() ==> (#[trigger] self.documents@[j]).uri@
                        != uri@,
            },
    {
        let mut i: usize = 0;
        while i < self.documents.len()
            invariant
                0 <= i <= self.documents@.len(),
                forall|j: int| 0 <= j < i ==> (#[trigger] self.documents@[j]).uri@ != uri@,
            decreases self.documents@.len() - i,
        {
            if self.documents[i].uri == *uri {
                return Some(i);
            }
            i = i + 1;
        }
        None
    }

    /// The documents reachable from the document at index `start` by
    /// following input edges, in breadth-first order starting at `start`.
    fn closure_from(&self, start: usize) -> (r: Vec<usize>)
        requires
            start < self.documents@.len(),
        ensures
            r@.len() >= 1,
            r@[0] == start,
            r@.no_duplicates(),
            forall|i: int| 0 <= i < r@.len() ==> #[trigger] r@[i] < self.documents@.len(),
    {
        let ghost n = self.documents@.len() as int;
        let mut order: Vec<usize> = Vec::new();
        order.push(start);
        let mut head: usize = 0;
        while head < order.len()
            invariant
                self.documents@.len() == n,
                start < n,
                order@.len() >= 1,
                order@[0] == start,
                order@.no_duplicates(),
                forall|i: int| 0 <= i < order@.len() ==> #[trigger] order@[i] < n,
                0 <= head <= order@.len(),
            decreases n - head,
        {
            proof {
                lemma_distinct_indices_len(order@, n);
            }
            let doc = &self.documents[order[head]];
            if let DocumentData::Tex(data) = &doc.data {
                let mut k: usize = 0;
                while k < data.root.nodes.len()
                    invariant
                        self.documents@.len() == n,
                        start < n,
                        order@.len() >= 1,
                        order@[0] == start,
                        order@.no_duplicates(),
                        forall|i: int| 0 <= i < order@.len() ==> #[trigger] order@[i] < n,
                        head < order@.len(),
                        0 <= k <= data.root.nodes@.len(),
                    decreases data.root.nodes@.len() - k,
                {
                    if let LatexNode::Input { path: Some(t), .. } = &data.root.nodes[k] {
                        if let Some(j) = self.document_index(&t.text) {
                            if !contains_index(&order, j) {
                                order.push(j);
                            }
                        }
                    }
                    k = k + 1;
                }
            }
            head = head + 1;
        }
        order
    }

    /// The project of the document with the given URI: the union, over every
    /// document flagged as a possible root whose reachable set contains the
    /// URI, of that reachable set; or the document alone if no such root
    /// exists.  Determined entirely by the workspace state.
    pub fn project_of<'a>(&'a self, uri: &String) -> (p: Project<'a>)
        ensures
            forall|i: int|
                0 <= i < p.documents@.len() ==> self.documents@.contains(
                    *#[trigger] p.documents@[i],
                ),
            (exists|j: int|
                0 <= j < self.documents@.len() && (#[trigger] self.documents@[j]).uri@ == uri@)
                ==> (exists|i: int|
                0 <= i < p.documents@.len() && (#[trigger] p.documents@[i]).uri@ == uri@),
            self.wf() ==> p.wf(),
    {
        let ghost n = self.documents@.len() as int;
        let mut members: Vec<usize> = Vec::new();
        let mut r: usize = 0;
        while r < self.documents.len()
            invariant
                self.documents@.len() == n,
                0 <= r <= n,
                forall|i: int| 0 <= i < members@.len() ==> #[trigger] members@[i] < n,
                members@.len() > 0 ==> exists|i: int|
                    0 <= i < members@.len() && self.documents@[#[trigger] members@[i] as int].uri@
                        == uri@,
            decreases n - r,
        {
            let is_root = match &self.documents[r].data {
                DocumentData::Tex(data) => data.can_be_root,
                _ => false,
            };
            if is_root {
                let closure = self.closure_from(r);
                let uri_pos = find_uri_in(&self.documents, &closure, uri);
                if let Some(k) = uri_pos {
                    let mut t: usize = 0;
                    while t < closure.len()
                        invariant
                            self.documents@.len() == n,
                            forall|i: int|
                                0 <= i < closure@.len() ==> #[trigger] closure@[i] < n,
                            0 <= k < closure@.len(),
                            self.documents@[closure@[k as int] as int].uri@ == uri@,
                            0 <= t <= closure@.len(),
                            forall|i: int| 0 <= i < members@.len() ==> #[trigger] members@[i] < n,
                            forall|s: int|
                                0 <= s < t ==> members@.contains(#[trigger] closure@[s]),
                        decreases closure@.len() - t,
                    {
                        let c = closure[t];
                        let ghost before = members@;
                        if !contains_index(&members, c) {
                            members.push(c);
                            assert(members@.contains(c)) by {
                                assert(members@.last() == c);
                            }
                        }
                        assert forall|s: int| 0 <= s < t + 1 implies members@.contains(
                            #[trigger] closure@[s],
                        ) by {
                            if s < t {
                                let w = choose|w: int|
                                    0 <= w < before.len() && before[w] == closure@[s];
                                assert(members@[w] == closure@[s]);
                            } else {
                                assert(members@.contains(c));
                            }
                        }
                        t = t + 1;
                    }
                    assert(members@.contains(closure@[k as int]));
                    assert(exists|i: int|
                        0 <= i < members@.len() && self.documents@[#[trigger] members@[i] as int].uri@
                            == uri@) by {
                        let w = choose|w: int|
                            0 <= w < members@.len() && members@[w] == closure@[k as int];
                        assert(members@[w] == closure@[k as int]);
                    }
                }
            }
            r = r + 1;
        }
        let ghost pre = members@;
        if members.len() == 0 {
            if let Some(i) = self.document_index(uri) {
                members.push(i);
                assert(members@[0] == i);
            }
        }
        assert((exists|j: int|
            0 <= j < self.documents@.len() && (#[trigger] self.documents@[j]).uri@ == uri@)
            ==> exists|i: int|
            0 <= i < members@.len() && self.documents@[#[trigger] members@[i] as int].uri@
                == uri@) by {
            if pre.len() > 0 {
                assert(members@ == pre);
            }
        }
        let mut docs: Vec<&'a Document> = Vec::new();
        let mut m: usize = 0;
        while m < members.len()
            invariant
                self.documents@.len() == n,
                forall|i: int| 0 <= i < members@.len() ==> #[trigger] members@[i] < n,
                0 <= m <= members@.len(),
                docs@.len() == m,
                forall|i: int| 0 <= i < m ==> *#[trigger] docs@[i] == self.documents@[members@[i] as int],
            decreases members@.len() - m,
        {
            docs.push(&self.documents[members[m]]);
            m = m + 1;
        }
        let p = Project { documents: docs };
        proof {
            if exists|i: int|
                0 <= i < members@.len() && self.documents@[#[trigger] members@[i] as int].uri@
                    == uri@ {
                let w = choose|w: int|
                    0 <= w < members@.len() && self.documents@[#[trigger] members@[w] as int].uri@
                        == uri@;
                assert((p.documents@[w]).uri@ == uri@);
            }
            assert forall|i: int| 0 <= i < p.documents@.len() implies self.documents@.contains(
                *#[trigger] p.documents@[i],
            ) by {
                assert(*p.documents@[i] == self.documents@[members@[i] as int]);
            }
        }
        p
    }
}

/// Whether `v` already holds the index `x`.
fn contains_index(v: &Vec<usize>, x: usize) -> (r: bool)
    ensures
        r == v@.contains(x),
{
    let mut i: usize = 0;
    while i < v.len()
        invariant
            0 <= i <= v@.len(),
            forall|j: int| 0 <= j < i ==> #[trigger] v@[j] != x,
        decreases v@.len() - i,
    {
        if v[i] == x {
            return true;
        }
        i = i + 1;
    }
    false
}

/// The position in `indices` of the first index whose document carries `uri`.
fn find_uri_in(docs: &Vec<Document>, indices: &Vec<usize>, uri: &String) -> (r: Option<usize>)
    requires
        forall|i: int| 0 <= i < indices@.len() ==> #[trigger] indices@[i] < docs@.len(),
    ensures
        match r {
            Some(k) => {
                &&& 0 <= k < indices@.len()
                &&& docs@[indices@[k as int] as int].uri@ == uri@
            },
            None => forall|k: int|
                0 <= k < indices@.len() ==> docs@[#[trigger] indices@[k] as int].uri@ != uri@,
        },
{
    let mut k: usize = 0;
    while k < indices.len()
        invariant
            forall|i: int| 0 <= i < indices@.len() ==> #[trigger] indices@[i] < docs@.len(),
            0 <= k <= indices@.len(),
            forall|j: int| 0 <= j < k ==> docs@[#[trigger] indices@[j] as int].uri@ != uri@,
        decreases indices@.len() - k,
    {
        if docs[indices[k]].uri == *uri {
            return Some(k);
        }
        k = k + 1;
    }
    None
}

/// A sequence of distinct indices below `n` has at most `n` entries.
proof fn lemma_distinct_indices_len(s: Seq<usize>, n: int)
    requires
        s.no_duplicates(),
        forall|i: int| 0 <= i < s.len() ==> #[trigger] s[i] < n,
        0 <= n,
    ensures
        s.len() <= n,
{
    let si = Seq::new(s.len(), |i: int| s[i] as int);
    assert(si.no_duplicates());
    si.unique_seq_to_set();
    assert(si.to_set().subset_of(set_int_range(0, n))) by {
        assert forall|x: int| si.to_set().contains(x) implies set_int_range(0, n).contains(x) by {
            let w = choose|w: int| 0 <= w < si.len() && si[w] == x;
            assert(0 <= si[w] < n);
        }
    }
    lemma_int_range(0, n);
    lemma_len_subset(si.to_set(), set_int_range(0, n));
}

} // verus!
