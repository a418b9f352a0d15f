//! End-to-end tests of the query engine over small parsed workspaces.

use cancellation::{CancellationToken, CancellationTokenSource};
use texquery::bibtex::{BibNode, BibRoot, BibValue, BibValuePart, BibField};
use texquery::cursor::CursorContext;
use texquery::document::{BibData, Document, DocumentData, TexData, Workspace};
use texquery::hover::{find_hover, MarkupKind};
use texquery::latex::{LatexNode, LatexRoot, Token};
use texquery::reference::{collect_label_references, find_label_references};
use texquery::rename::{prepare_rename, rename};
use texquery::text::{LineIndex, Location, Position, Range, TextRange};

fn tok(text: &str, start: usize) -> Token {
    Token {
        text: text.to_string(),
        range: TextRange { start: start as u32, end: (start + text.len()) as u32 },
    }
}

/// Parses the handful of commands the tests use, with exact source spans.
fn parse_tex(text: &str) -> LatexRoot {
    let mut nodes = Vec::new();
    let n = text.len();
    let mut i = 0usize;
    while i < n {
        let rest = &text[i..];
        let cmd = if rest.starts_with("\\label{") {
            "\\label"
        } else if rest.starts_with("\\ref{") {
            "\\ref"
        } else if rest.starts_with("\\cite{") {
            "\\cite"
        } else if rest.starts_with("\\input{") {
            "\\input"
        } else {
            i += 1;
            continue;
        };
        let command = tok(cmd, i);
        let body_start = i + cmd.len() + 1;
        let close = text[body_start..]
            .find('}')
            .map(|p| body_start + p)
            .unwrap_or(n);
        let inner = &text[body_start..close];
        let mut toks = Vec::new();
        let mut off = body_start;
        for part in inner.split(',') {
            let trimmed = part.trim();
            if !trimmed.is_empty() {
                let tstart = off + (part.len() - part.trim_start().len());
                toks.push(tok(trimmed, tstart));
            }
            off += part.len() + 1;
        }
        let node = match cmd {
            "\\label" => LatexNode::LabelDefinition {
                command,
                name: toks.into_iter().next(),
            },
            "\\ref" => LatexNode::LabelReference {
                command,
                names: toks,
            },
            "\\cite" => LatexNode::Citation {
                command,
                keys: toks,
            },
            _ => LatexNode::Input {
                command,
                path: toks.into_iter().next(),
            },
        };
        nodes.push(node);
        i = close + 1;
    }
    LatexRoot { nodes }
}

/// Parses `@string{name = value}` definitions and `@kind{key, f = v}`
/// entries, with quoted values as literals and bare words as references to
/// string definitions.
fn parse_bib(text: &str) -> BibRoot {
    let mut nodes = Vec::new();
    let n = text.len();
    let mut i = 0usize;
    while i < n {
        if !text[i..].starts_with('@') {
            i += 1;
            continue;
        }
        let brace = match text[i..].find('{') {
            Some(p) => i + p,
            None => break,
        };
        let kind = &text[i + 1..brace];
        let close = text[brace..].find('}').map(|p| brace + p).unwrap_or(n);
        let inner = &text[brace + 1..close];
        if kind == "string" {
            let eq = inner.find('=').unwrap_or(inner.len());
            let name_part = &inner[..eq];
            let name = name_part.trim();
            let name_tok = if name.is_empty() {
                None
            } else {
                let s = brace + 1 + (name_part.len() - name_part.trim_start().len());
                Some(tok(name, s))
            };
            let value = if eq < inner.len() {
                Some(parse_value(text, brace + 1 + eq + 1, close))
            } else {
                None
            };
            nodes.push(BibNode::StringDef { name: name_tok, value });
        } else {
            let comma = inner.find(',').unwrap_or(inner.len());
            let key_part = &inner[..comma];
            let key = key_part.trim();
            let name_tok = if key.is_empty() {
                None
            } else {
                let s = brace + 1 + (key_part.len() - key_part.trim_start().len());
                Some(tok(key, s))
            };
            let mut fields = Vec::new();
            let mut off = brace + 1 + comma + 1;
            while off < close {
                let seg_end = text[off..close].find(',').map(|p| off + p).unwrap_or(close);
                let seg = &text[off..seg_end];
                if let Some(eq) = seg.find('=') {
                    let fname = seg[..eq].trim();
                    let fstart = off + (seg[..eq].len() - seg[..eq].trim_start().len());
                    let field_name = if fname.is_empty() {
                        None
                    } else {
                        Some(tok(fname, fstart))
                    };
                    let value = parse_value(text, off + eq + 1, seg_end);
                    fields.push(BibField {
                        name: field_name,
                        value: Some(value),
                    });
                }
                off = seg_end + 1;
            }
            nodes.push(BibNode::Entry {
                name: name_tok,
                fields,
            });
        }
        i = close + 1;
    }
    BibRoot { nodes }
}

fn parse_value(text: &str, from: usize, to: usize) -> BibValue {
    let seg = &text[from..to];
    let mut parts = Vec::new();
    let trimmed = seg.trim();
    if !trimmed.is_empty() {
        let start = from + (seg.len() - seg.trim_start().len());
        if trimmed.starts_with('"') && trimmed.ends_with('"') && trimmed.len() >= 2 {
            let literal = &trimmed[1..trimmed.len() - 1];
            parts.push(BibValuePart::Literal(tok(literal, start + 1)));
        } else {
            parts.push(BibValuePart::StringRef(tok(trimmed, start)));
        }
    }
    BibValue { parts }
}

fn build_workspace(files: &[(&str, &str)]) -> Workspace {
    let mut docs = Vec::new();
    let mut targets: Vec<String> = Vec::new();
    for (name, text) in files {
        if !name.ends_with(".bib") {
            let root = parse_tex(text);
            for node in &root.nodes {
                if let LatexNode::Input {
                    path: Some(t), ..
                } = node
                {
                    targets.push(t.text.clone());
                }
            }
        }
    }
    for (name, text) in files {
        let data = if name.ends_with(".bib") {
            DocumentData::Bib(BibData {
                root: parse_bib(text),
            })
        } else {
            DocumentData::Tex(TexData {
                root: parse_tex(text),
                can_be_root: !targets.iter().any(|t| t == name),
                implicit_pdf_links: Vec::new(),
            })
        };
        docs.push(Document {
            uri: name.to_string(),
            text: text.to_string(),
            data,
            line_index: LineIndex::new(text),
        });
    }
    Workspace { documents: docs }
}

fn loc(uri: &str, l1: u32, c1: u32, l2: u32, c2: u32) -> Location {
    Location {
        uri: uri.to_string(),
        range: Range {
            start: Position { line: l1, character: c1 },
            end: Position { line: l2, character: c2 },
        },
    }
}

fn run_label_refs(
    files: &[(&str, &str)],
    main: &str,
    character: u32,
    with_declaration: bool,
) -> Vec<Location> {
    let workspace = build_workspace(files);
    let uri = main.to_string();
    let project = workspace.project_of(&uri);
    let idx = workspace.document_index(&uri).unwrap();
    let context = CursorContext::new(&workspace.documents[idx], character);
    let mut references = Vec::new();
    find_label_references(
        &context,
        &project,
        with_declaration,
        CancellationToken::none(),
        &mut references,
    );
    references
}

#[test]
fn test_definition() {
    let actual_references = run_label_refs(
        &[
            ("foo.tex", r#"\label{foo}"#),
            ("bar.tex", r#"\ref{foo}\input{foo.tex}"#),
        ],
        "foo.tex",
        8,
        false,
    );
    let expected_references = vec![loc("bar.tex", 0, 5, 0, 8)];
    assert_eq!(actual_references, expected_references);
}

#[test]
fn test_definition_include_declaration() {
    let actual_references = run_label_refs(
        &[
            ("foo.tex", r#"\label{foo}\input{bar.tex}"#),
            ("bar.tex", r#"\ref{foo}"#),
        ],
        "foo.tex",
        9,
        true,
    );
    let expected_references = vec![loc("foo.tex", 0, 7, 0, 10), loc("bar.tex", 0, 5, 0, 8)];
    assert_eq!(actual_references, expected_references);
}

#[test]
fn test_reference() {
    let actual_references = run_label_refs(
        &[
            ("foo.tex", r#"\label{foo}\input{bar.tex}"#),
            ("bar.tex", r#"\ref{foo}"#),
            ("baz.tex", r#"\ref{foo}\input{bar.tex}"#),
        ],
        "bar.tex",
        7,
        false,
    );
    let expected_references = vec![loc("bar.tex", 0, 5, 0, 8), loc("baz.tex", 0, 5, 0, 8)];
    assert_eq!(actual_references, expected_references);
}

#[test]
fn test_reference_include_declaration() {
    let actual_references = run_label_refs(
        &[
            ("foo.tex", r#"\label{foo}"#),
            ("bar.tex", r#"\ref{foo}\input{foo.tex}"#),
        ],
        "bar.tex",
        7,
        true,
    );
    let expected_references = vec![loc("bar.tex", 0, 5, 0, 8), loc("foo.tex", 0, 7, 0, 10)];
    assert_eq!(actual_references, expected_references);
}

#[test]
fn test_empty_latex_document() {
    let actual_references = run_label_refs(&[("main.tex", "")], "main.tex", 0, false);
    assert!(actual_references.is_empty());
}

#[test]
fn test_empty_bibtex_document() {
    let actual_references = run_label_refs(&[("main.bib", "")], "main.bib", 0, false);
    assert!(actual_references.is_empty());
}

#[test]
fn test_exact_match_only() {
    // Case variants and longer keys sharing a prefix are never reported.
    let actual_references = run_label_refs(
        &[(
            "main.tex",
            r#"\ref{foo}\label{Foo}\label{foobar}\label{foo}"#,
        )],
        "main.tex",
        6,
        true,
    );
    let expected_references = vec![loc("main.tex", 0, 5, 0, 8), loc("main.tex", 0, 41, 0, 44)];
    assert_eq!(actual_references, expected_references);
}

#[test]
fn test_declaration_flag_toggles_definitions_only() {
    let files = [
        ("foo.tex", r#"\label{foo}\input{bar.tex}"#),
        ("bar.tex", r#"\ref{foo}"#),
    ];
    let without = run_label_refs(&files, "foo.tex", 9, false);
    let with = run_label_refs(&files, "foo.tex", 9, true);
    assert_eq!(without, vec![loc("bar.tex", 0, 5, 0, 8)]);
    assert_eq!(
        with,
        vec![loc("foo.tex", 0, 7, 0, 10), loc("bar.tex", 0, 5, 0, 8)]
    );
}

#[test]
fn test_cancellation_before_traversal() {
    let workspace = build_workspace(&[
        ("foo.tex", r#"\label{foo}\input{bar.tex}"#),
        ("bar.tex", r#"\ref{foo}"#),
    ]);
    let uri = "foo.tex".to_string();
    let project = workspace.project_of(&uri);
    let idx = workspace.document_index(&uri).unwrap();
    let context = CursorContext::new(&workspace.documents[idx], 9);
    let source = CancellationTokenSource::new();
    source.cancel();
    let mut references = Vec::new();
    let outcome = find_label_references(&context, &project, true, &source, &mut references);
    assert!(outcome.is_none());
    assert!(references.is_empty());
}

#[test]
fn test_collect_matches_find() {
    let workspace = build_workspace(&[
        ("foo.tex", r#"\label{foo}\input{bar.tex}"#),
        ("bar.tex", r#"\ref{foo}"#),
    ]);
    let uri = "foo.tex".to_string();
    let project = workspace.project_of(&uri);
    let idx = workspace.document_index(&uri).unwrap();
    let context = CursorContext::new(&workspace.documents[idx], 9);
    let collected = collect_label_references(&context, &project, true);
    let mut polled = Vec::new();
    let done = find_label_references(
        &context,
        &project,
        true,
        CancellationToken::none(),
        &mut polled,
    );
    assert!(done.is_some());
    assert_eq!(collected, polled);
}

#[test]
fn test_hover_string_ref() {
    let text = "@string{foo = \"Bar\"}\n@article{baz,\n author = foo}";
    let workspace = build_workspace(&[("main.bib", text)]);
    let usage = text.rfind("foo").unwrap() as u32;
    let context = CursorContext::new(&workspace.documents[0], usage);
    let hover = find_hover(&context).unwrap();
    assert_eq!(hover.value, "Bar".to_string());
    assert_eq!(hover.range, TextRange { start: usage, end: usage + 3 });
    assert_eq!(hover.value_kind, MarkupKind::PlainText);
}

#[test]
fn test_hover_on_definition_name() {
    let text = "@string{foo = \"Bar\"}";
    let workspace = build_workspace(&[("main.bib", text)]);
    let context = CursorContext::new(&workspace.documents[0], 9);
    let hover = find_hover(&context).unwrap();
    assert_eq!(hover.value, "Bar".to_string());
    assert_eq!(hover.range, TextRange { start: 8, end: 11 });
}

#[test]
fn test_hover_entry_key_is_no_string_ref() {
    // An entry key is a name token, but its parent is no field value and no
    // string definition, so hover yields nothing.
    let text = "@string{foo = \"Bar\"}\n@article{foo, title = \"t\"}";
    let workspace = build_workspace(&[("main.bib", text)]);
    let key = text.rfind("foo").unwrap() as u32;
    let context = CursorContext::new(&workspace.documents[0], key + 1);
    assert!(find_hover(&context).is_none());
}

#[test]
fn test_hover_missing_definition() {
    let text = "@article{baz,\n author = foo}";
    let workspace = build_workspace(&[("main.bib", text)]);
    let usage = text.rfind("foo").unwrap() as u32;
    let context = CursorContext::new(&workspace.documents[0], usage);
    assert!(find_hover(&context).is_none());
}

#[test]
fn test_hover_empty_document() {
    let workspace = build_workspace(&[("main.bib", "")]);
    let context = CursorContext::new(&workspace.documents[0], 0);
    assert!(find_hover(&context).is_none());
}

#[test]
fn test_prepare_rename_citation() {
    let text = r#"\cite{foo}"#;
    let workspace = build_workspace(&[("main.tex", text)]);
    let context = CursorContext::new(&workspace.documents[0], 7);
    let range = prepare_rename(&context).unwrap();
    assert_eq!(range, TextRange { start: 6, end: 9 });
}

#[test]
fn test_prepare_rename_rejects_label() {
    let text = r#"\label{foo}"#;
    let workspace = build_workspace(&[("main.tex", text)]);
    let context = CursorContext::new(&workspace.documents[0], 8);
    assert!(prepare_rename(&context).is_none());
}

#[test]
fn test_prepare_then_rename_agree() {
    let text = r#"\cite{foo}"#;
    let workspace = build_workspace(&[("main.tex", text)]);
    let project = workspace.project_of(&"main.tex".to_string());
    let context = CursorContext::new(&workspace.documents[0], 7);
    assert!(prepare_rename(&context).is_some());
    assert!(rename(&context, &project, &"bar".to_string()).is_some());
}

#[test]
fn test_rename_entry_key_across_documents() {
    // The key is defined in one bibliography document and cited in two
    // others; a fourth unrelated document still appears, with no edits.
    let files = [
        ("main.bib", "@article{foo, title = \"t\"}"),
        ("a.tex", r#"\cite{foo}"#),
        ("b.tex", r#"\cite{foo}\cite{bar}"#),
        ("c.tex", r#"\ref{foo}"#),
    ];
    let workspace = build_workspace(&files);
    let docs: Vec<&texquery::document::Document> = workspace.documents.iter().collect();
    let project = texquery::document::Project { documents: docs };
    let context = CursorContext::new(&workspace.documents[0], 10);
    let new_name = "qux".to_string();
    let outcome = rename(&context, &project, &new_name).unwrap();
    assert_eq!(outcome.changes.len(), 4);
    assert_eq!(outcome.changes[0].uri, "main.bib".to_string());
    assert_eq!(outcome.changes[0].edits.len(), 1);
    assert_eq!(
        outcome.changes[0].edits[0].delete,
        TextRange { start: 9, end: 12 }
    );
    assert_eq!(outcome.changes[0].edits[0].insert, "qux".to_string());
    assert_eq!(outcome.changes[1].uri, "a.tex".to_string());
    assert_eq!(outcome.changes[1].edits.len(), 1);
    assert_eq!(
        outcome.changes[1].edits[0].delete,
        TextRange { start: 6, end: 9 }
    );
    assert_eq!(outcome.changes[2].uri, "b.tex".to_string());
    assert_eq!(outcome.changes[2].edits.len(), 1);
    assert_eq!(outcome.changes[3].uri, "c.tex".to_string());
    assert_eq!(outcome.changes[3].edits.len(), 0);
}

#[test]
fn test_rename_touches_exactly_referencing_documents() {
    // Documents with a nonzero edit list are exactly those holding an
    // occurrence of the key.
    let files = [
        ("main.bib", "@article{foo, title = \"t\"}"),
        ("a.tex", r#"\cite{foo}"#),
        ("b.tex", r#"\cite{bar}"#),
    ];
    let workspace = build_workspace(&files);
    let docs: Vec<&texquery::document::Document> = workspace.documents.iter().collect();
    let project = texquery::document::Project { documents: docs };
    let context = CursorContext::new(&workspace.documents[0], 10);
    let outcome = rename(&context, &project, &"qux".to_string()).unwrap();
    let touched: Vec<&str> = outcome
        .changes
        .iter()
        .filter(|c| !c.edits.is_empty())
        .map(|c| c.uri.as_str())
        .collect();
    assert_eq!(touched, vec!["main.bib", "a.tex"]);
}

#[test]
fn test_rename_empty_documents() {
    let workspace = build_workspace(&[("main.tex", ""), ("main.bib", "")]);
    for idx in 0..2 {
        let context = CursorContext::new(&workspace.documents[idx], 0);
        let project = workspace.project_of(&workspace.documents[idx].uri);
        assert!(prepare_rename(&context).is_none());
        assert!(rename(&context, &project, &"x".to_string()).is_none());
    }
}

#[test]
fn test_project_of_degenerates_to_single_document() {
    let workspace = build_workspace(&[("a.tex", r#"\label{x}"#), ("b.tex", r#"\label{y}"#)]);
    let project = workspace.project_of(&"a.tex".to_string());
    let uris: Vec<&str> = project.documents.iter().map(|d| d.uri.as_str()).collect();
    assert_eq!(uris, vec!["a.tex"]);
}

#[test]
fn test_project_of_follows_inputs() {
    let workspace = build_workspace(&[
        ("root.tex", r#"\input{leaf.tex}"#),
        ("leaf.tex", r#"\label{x}"#),
        ("other.tex", r#"\label{y}"#),
    ]);
    let project = workspace.project_of(&"leaf.tex".to_string());
    let uris: Vec<&str> = project.documents.iter().map(|d| d.uri.as_str()).collect();
    assert_eq!(uris, vec!["root.tex", "leaf.tex"]);
}

#[test]
fn test_line_index_positions() {
    let index = LineIndex::new("ab\ncd\n\ne");
    assert_eq!(index.line_col(0), Position { line: 0, character: 0 });
    assert_eq!(index.line_col(4), Position { line: 1, character: 1 });
    assert_eq!(index.line_col(6), Position { line: 2, character: 0 });
    assert_eq!(index.line_col(7), Position { line: 3, character: 0 });
}

#[test]
fn test_find_root_document() {
    let workspace = build_workspace(&[
        ("file:///sub.tex", r#"\label{x}"#),
        ("file:///root.tex", r#"\input{file:///sub.tex}"#),
    ]);
    let root = texquery::forward_search::find_root_document(&workspace);
    assert_eq!(root, Some(1));
}

#[test]
fn test_find_root_document_rejects_other_scheme() {
    let workspace = build_workspace(&[("untitled:doc.tex", r#"\label{x}"#)]);
    assert!(texquery::forward_search::find_root_document(&workspace).is_none());
}

#[test]
fn test_expand_args() {
    let args = vec!["%f".to_string(), "\"%f\"".to_string(), "-g".to_string()];
    let out = texquery::forward_search::expand_args(&args, "a.tex", "a.pdf", 4);
    assert_eq!(
        out,
        vec!["a.tex".to_string(), "\"%f\"".to_string(), "-g".to_string()]
    );
}
