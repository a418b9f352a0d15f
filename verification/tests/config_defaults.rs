//! Tests of the built-in configuration defaults.

use texquery::config::{
    fx_set_contains, BuildConfig, ChktexConfig, CompletionConfig, Config, DiagnosticsConfig,
    Formatter, FormattingConfig, LatexIndentConfig, MatchingAlgo, SymbolConfig, SyntaxConfig,
};
use texquery::forward_search::{ForwardSearchResult, ForwardSearchStatus};

#[test]
fn test_build_config_default() {
    let build = BuildConfig::default();
    assert_eq!(build.program, "latexmk".to_string());
    assert_eq!(
        build.args,
        vec![
            "-pdf".to_string(),
            "-interaction=nonstopmode".to_string(),
            "-synctex=1".to_string(),
            "%f".to_string(),
        ]
    );
    assert!(!build.on_save);
    assert!(!build.forward_search_after);
    assert_eq!(build.output_dir, ".".to_string());
}

#[test]
fn test_chktex_config_default() {
    let chktex = ChktexConfig::default();
    assert!(!chktex.on_open && !chktex.on_save && !chktex.on_edit);
}

#[test]
fn test_diagnostics_config_default() {
    let diagnostics = DiagnosticsConfig::default();
    assert!(diagnostics.allowed_patterns.is_empty());
    assert!(diagnostics.ignored_patterns.is_empty());
    assert_eq!(diagnostics.delay_millis, 300);
}

#[test]
fn test_formatting_config_default() {
    let formatting = FormattingConfig::default();
    assert_eq!(formatting.tex_formatter, Formatter::LatexIndent);
    assert_eq!(formatting.bib_formatter, Formatter::Server);
    assert_eq!(formatting.line_length, 80);
    assert!(formatting.latex_indent.local.is_none());
    assert!(!formatting.latex_indent.modify_line_breaks);
}

#[test]
fn test_latex_indent_config_default() {
    let latex_indent = LatexIndentConfig::default();
    assert!(latex_indent.local.is_none());
    assert!(!latex_indent.modify_line_breaks);
}

#[test]
fn test_symbol_config_default() {
    let symbols = SymbolConfig::default();
    assert!(symbols.allowed_patterns.is_empty() && symbols.ignored_patterns.is_empty());
}

#[test]
fn test_completion_config_default() {
    let completion = CompletionConfig::default();
    assert_eq!(completion.matcher, MatchingAlgo::SkimIgnoreCase);
}

#[test]
fn test_syntax_config_default_tables() {
    let syntax = SyntaxConfig::default();
    assert!(fx_set_contains(&syntax.math_environments, "align"));
    assert!(fx_set_contains(&syntax.math_environments, "Vmatrix*"));
    assert!(!fx_set_contains(&syntax.math_environments, "tabular"));
    assert!(fx_set_contains(&syntax.enum_environments, "itemize"));
    assert!(fx_set_contains(&syntax.verbatim_environments, "minted"));
    assert!(fx_set_contains(&syntax.citation_commands, "cite"));
    assert!(fx_set_contains(&syntax.citation_commands, "footfullcite"));
    assert!(!fx_set_contains(&syntax.citation_commands, "label"));
    assert_eq!(syntax.math_environments.len(), 48);
    assert_eq!(syntax.enum_environments.len(), 3);
    assert_eq!(syntax.verbatim_environments.len(), 5);
    assert_eq!(syntax.citation_commands.len(), 56);
}

#[test]
fn test_config_default() {
    let config = Config::default();
    assert!(config.root_dir.is_none());
    assert!(config.synctex.is_none());
    assert_eq!(config.build.program, "latexmk".to_string());
    assert_eq!(config.completion.matcher, MatchingAlgo::SkimIgnoreCase);
    assert!(fx_set_contains(&config.syntax.citation_commands, "parencite"));
}

#[test]
fn test_diagnostics_config_accepts_patterns() {
    let diagnostics = DiagnosticsConfig {
        allowed_patterns: vec![regex::Regex::new("^Warning").unwrap()],
        ignored_patterns: Vec::new(),
        chktex: ChktexConfig::default(),
        delay_millis: 300,
    };
    assert_eq!(diagnostics.allowed_patterns.len(), 1);
}

#[test]
fn test_forward_search_status_codes() {
    assert_eq!(ForwardSearchStatus::SUCCESS.code(), 0);
    assert_eq!(ForwardSearchStatus::ERROR.code(), 1);
    assert_eq!(ForwardSearchStatus::FAILURE.code(), 2);
    assert_eq!(ForwardSearchStatus::UNCONFIGURED.code(), 3);
    let result = ForwardSearchResult { status: ForwardSearchStatus::SUCCESS };
    assert_eq!(result.status, ForwardSearchStatus::SUCCESS);
}
