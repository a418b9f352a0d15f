//! The decisions behind forward search: which document anchors the search
//! and how the viewer's argument templates are filled in.
//!
//! Spawning the viewer process and probing the file system stay with the
//! host; this module only selects the root document and expands the
//! arguments.

use vstd::prelude::*;
use crate::document::{Document, DocumentData, Workspace};
use crate::placeholder::{decimal_digits, expand_placeholders, is_quoted, replace_placeholder};

verus! {

/// How a forward search ended.
#[derive(Clone, Copy, Debug, PartialEq, Eq, Structural)]
pub enum ForwardSearchStatus {
    SUCCESS,
    ERROR,
    FAILURE,
    UNCONFIGURED,
}

impl ForwardSearchStatus {
    /// The wire code of this status.
    pub fn code(&self) -> (r: i32)
        ensures
            r == match *self {
                ForwardSearchStatus::SUCCESS => 0int,
                ForwardSearchStatus::ERROR => 1int,
                ForwardSearchStatus::FAILURE => 2int,
                ForwardSearchStatus::UNCONFIGURED => 3int,
            },
    {
        match self {
            ForwardSearchStatus::SUCCESS => 0,
            ForwardSearchStatus::ERROR => 1,
            ForwardSearchStatus::FAILURE => 2,
            ForwardSearchStatus::UNCONFIGURED => 3,
        }
    }
}

/// The outcome of a forward search request.
#[derive(Clone, Copy, Debug, PartialEq, Eq, Structural)]
pub struct ForwardSearchResult {
    pub status: ForwardSearchStatus,
}

/// A document that can anchor a forward search: parsed under the primary
/// grammar and flagged as a possible root.
pub open spec fn is_root_candidate(doc: Document) -> bool {
    doc.data matches DocumentData::Tex(data) && data.can_be_root
}

/// Whether a URI names a local file.
pub open spec fn is_file_uri(uri: Seq<char>) -> bool {
    uri.len() >= 5 && uri.take(5) == "file:"@
}

/// Whether `uri` names a local file.
pub fn has_file_scheme(uri: &String) -> (r: bool)
    ensures
        r == is_file_uri(uri@),
{
    let s = uri.as_str();
    let len = s.unicode_len();
    proof {
        reveal_strlit("file:");
    }
    if len < 5 {
        return false;
    }
    let r = s.get_char(0) == 'f' && s.get_char(1) == 'i' && s.get_char(2) == 'l' && s.get_char(3)
        == 'e' && s.get_char(4) == ':';
    proof {
        if r {
            assert(uri@.take(5) =~= "file:"@);
        } else {
            if uri@.take(5) == "file:"@ {
                assert(uri@[0] == 'f' && uri@[1] == 'i' && uri@[2] == 'l' && uri@[3] == 'e'
                    && uri@[4] == ':') by {
                    assert(uri@.take(5)[0] == uri@[0]);
                    assert(uri@.take(5)[1] == uri@[1]);
                    assert(uri@.take(5)[2] == uri@[2]);
                    assert(uri@.take(5)[3] == uri@[3]);
                    assert(uri@.take(5)[4] == uri@[4]);
                }
            }
        }
    }
    r
}

/// The document a forward search starts from: the first root candidate of
/// the workspace, kept only if its URI names a local file — a first
/// candidate behind another scheme ends the search with nothing.
pub fn find_root_document(workspace: &Workspace) -> (r: Option<usize>)
    ensures
        ({
            let docs = workspace.documents@;
            match r {
                Some(i) => {
                    &&& 0 <= i < docs.len()
                    &&& is_root_candidate(docs[i as int])
                    &&& forall|j: int| 0 <= j < i ==> !is_root_candidate(#[trigger] docs[j])
                    &&& is_file_uri(docs[i as int].uri@)
                },
                None => (forall|j: int|
                    0 <= j < docs.len() ==> !is_root_candidate(#[trigger] docs[j])) || (exists|
                    i: int,
                |
                    0 <= i < docs.len() && is_root_candidate(#[trigger] docs[i]) && (forall|j: int|
                        0 <= j < i ==> !is_root_candidate(#[trigger] docs[j])) && !is_file_uri(
                        docs[i].uri@,
                    )),
            }
        }),
{
    let docs = workspace.documents();
    let mut i: usize = 0;
    while i < docs.len()
        invariant
            docs@ == workspace.documents@,
            0 <= i <= docs@.len(),
            forall|j: int| 0 <= j < i ==> !is_root_candidate(#[trigger] docs@[j]),
        decreases docs@.len() - i,
    {
        let candidate = match &docs[i].data {
            DocumentData::Tex(data) => data.can_be_root,
            _ => false,
        };
        if candidate {
            if has_file_scheme(&docs[i].uri) {
                return Some(i);
            } else {
                return None;
            }
        }
        i = i + 1;
    }
    None
}

/// What one argument template expands to.
pub open spec fn expanded_arg(
    arg: Seq<char>,
    tex: Seq<char>,
    pdf: Seq<char>,
    line_number: u32,
) -> Seq<char> {
    if is_quoted(arg) {
        arg
    } else {
        expand_placeholders(arg, tex, pdf, decimal_digits(line_number + 1))
    }
}

/// Expands every argument template of a viewer invocation.
pub fn expand_args(args: &Vec<String>, tex_file: &str, pdf_file: &str, line_number: u32) -> (r:
    Vec<String>)
    requires
        line_number < 0xffff_ffff,
    ensures
        r@.len() == args@.len(),
        forall|i: int|
            0 <= i < args@.len() ==> (#[trigger] r@[i])@ == expanded_arg(
                args@[i]@,
                tex_file@,
                pdf_file@,
                line_number,
            ),
{
    let mut out: Vec<String> = Vec::new();
    let mut i: usize = 0;
    while i < args.len()
        invariant
            line_number < 0xffff_ffff,
            0 <= i <= args@.len(),
            out@.len() == i,
            forall|j: int|
                0 <= j < i ==> (#[trigger] out@[j])@ == expanded_arg(
                    args@[j]@,
                    tex_file@,
                    pdf_file@,
                    line_number,
                ),
        decreases args@.len() - i,
    {
        if let Some(expanded) = replace_placeholder(tex_file, pdf_file, line_number, args[i].as_str(
        )) {
            out.push(expanded);
        }
        i = i + 1;
    }
    out
}

} // verus!
