//! Configuration of the server, with its built-in defaults.
//!
//! These structs are plain data handed in by the host; only the default
//! values carry meaning of their own.  The diagnostic and symbol filters
//! hold compiled patterns of the `regex` crate, carried through untouched;
//! the syntax tables are hash sets of the `rustc_hash` crate.

use vstd::prelude::*;

verus! {

/// A compiled filter pattern of the `regex` crate.  The library only
/// carries such values; it never runs them.
#[verifier::external_type_specification]
#[verifier::external_body]
pub struct ExRegex(regex::Regex);

/// The hasher the `rustc_hash` sets are built over.
#[verifier::external_type_specification]
#[verifier::external_body]
pub struct ExFxBuildHasher(rustc_hash::FxBuildHasher);

/// The elements a syntax table holds, as a set of character sequences.
pub uninterp spec fn fx_set_contents(s: &rustc_hash::FxHashSet<String>) -> Set<Seq<char>>;

/// Relies on `HashSet::default` with the `rustc_hash` hasher: a fresh set
/// holds nothing.
#[verifier::external_body]
fn fx_set_new() -> (r: rustc_hash::FxHashSet<String>)
    ensures
        fx_set_contents(&r) == Set::<Seq<char>>::empty(),
{
    rustc_hash::FxHashSet::default()
}

/// Relies on `HashSet::insert`: afterwards the set holds the old elements
/// and the new one.
#[verifier::external_body]
fn fx_set_insert(s: &mut rustc_hash::FxHashSet<String>, value: String)
    ensures
        fx_set_contents(final(s)) == fx_set_contents(old(s)).insert(value@),
{
    s.insert(value);
}

/// Relies on `HashSet::contains`: whether the set holds the value.
#[verifier::external_body]
pub fn fx_set_contains(s: &rustc_hash::FxHashSet<String>, value: &str) -> (r: bool)
    ensures
        r == fx_set_contents(s).contains(value@),
{
    s.contains(value)
}

pub open spec fn default_math_environments() -> Set<Seq<char>> {
    set![
        "align"@,
        "align*"@,
        "alignat"@,
        "alignat*"@,
        "aligned"@,
        "aligned*"@,
        "alignedat"@,
        "alignedat*"@,
        "array"@,
        "array*"@,
        "bmatrix"@,
        "Bmatrix"@,
        "bmatrix*"@,
        "Bmatrix*"@,
        "cases"@,
        "cases*"@,
        "CD"@,
        "CD*"@,
        "eqnarray"@,
        "eqnarray*"@,
        "equation"@,
        "equation*"@,
        "flalign"@,
        "flalign*"@,
        "gather"@,
        "gather*"@,
        "gathered"@,
        "gathered*"@,
        "IEEEeqnarray"@,
        "IEEEeqnarray*"@,
        "matrix"@,
        "matrix*"@,
        "multline"@,
        "multline*"@,
        "pmatrix"@,
        "pmatrix*"@,
        "smallmatrix"@,
        "smallmatrix*"@,
        "split"@,
        "split*"@,
        "subarray"@,
        "subarray*"@,
        "subequations"@,
        "subequations*"@,
        "vmatrix"@,
        "Vmatrix"@,
        "vmatrix*"@,
        "Vmatrix*"@,
    ]
}

pub open spec fn default_enum_environments() -> Set<Seq<char>> {
    set![
        "enumerate"@,
        "itemize"@,
        "description"@,
    ]
}

pub open spec fn default_verbatim_environments() -> Set<Seq<char>> {
    set![
        "pycode"@,
        "minted"@,
        "asy"@,
        "lstlisting"@,
        "verbatim"@,
    ]
}

pub open spec fn default_citation_commands() -> Set<Seq<char>> {
    set![
        "cite"@,
        "cite*"@,
        "Cite"@,
        "nocite"@,
        "citet"@,
        "citet*"@,
        "citep"@,
        "citep*"@,
        "citeauthor"@,
        "citeauthor*"@,
        "Citeauthor"@,
        "Citeauthor*"@,
        "citetitle"@,
        "citetitle*"@,
        "citeyear"@,
        "citeyear*"@,
        "citedate"@,
        "citedate*"@,
        "citeurl"@,
        "fullcite"@,
        "citeyearpar"@,
        "citealt"@,
        "citealp"@,
        "citetext"@,
        "parencite"@,
        "parencite*"@,
        "Parencite"@,
        "footcite"@,
        "footfullcite"@,
        "footcitetext"@,
        "textcite"@,
        "Textcite"@,
        "smartcite"@,
        "supercite"@,
        "autocite"@,
        "autocite*"@,
        "Autocite"@,
        "Autocite*"@,
        "volcite"@,
        "Volcite"@,
        "pvolcite"@,
        "Pvolcite"@,
        "fvolcite"@,
        "ftvolcite"@,
        "svolcite"@,
        "Svolcite"@,
        "tvolcite"@,
        "Tvolcite"@,
        "avolcite"@,
        "Avolcite"@,
        "notecite"@,
        "pnotecite"@,
        "Pnotecite"@,
        "fnotecite"@,
        "citeA"@,
        "citeA*"@,
    ]
}

/// The environment and command tables the parser is configured with.
pub struct SyntaxConfig {
    pub math_environments: rustc_hash::FxHashSet<String>,
    pub enum_environments: rustc_hash::FxHashSet<String>,
    pub verbatim_environments: rustc_hash::FxHashSet<String>,
    pub citation_commands: rustc_hash::FxHashSet<String>,
}

impl Default for SyntaxConfig {
    /// The built-in tables.
    fn default() -> (r: SyntaxConfig)
        ensures
            fx_set_contents(&r.math_environments) == default_math_environments(),
            fx_set_contents(&r.enum_environments) == default_enum_environments(),
            fx_set_contents(&r.verbatim_environments) == default_verbatim_environments(),
            fx_set_contents(&r.citation_commands) == default_citation_commands(),
    {
        let mut math_environments = fx_set_new();
        fx_set_insert(&mut math_environments, String::from_str("align"));
        fx_set_insert(&mut math_environments, String::from_str("align*"));
        fx_set_insert(&mut math_environments, String::from_str("alignat"));
        fx_set_insert(&mut math_environments, String::from_str("alignat*"));
        fx_set_insert(&mut math_environments, String::from_str("aligned"));
        fx_set_insert(&mut math_environments, String::from_str("aligned*"));
        fx_set_insert(&mut math_environments, String::from_str("alignedat"));
        fx_set_insert(&mut math_environments, String::from_str("alignedat*"));
        fx_set_insert(&mut math_environments, String::from_str("array"));
        fx_set_insert(&mut math_environments, String::from_str("array*"));
        fx_set_insert(&mut math_environments, String::from_str("bmatrix"));
        fx_set_insert(&mut math_environments, String::from_str("Bmatrix"));
        fx_set_insert(&mut math_environments, String::from_str("bmatrix*"));
        fx_set_insert(&mut math_environments, String::from_str("Bmatrix*"));
        fx_set_insert(&mut math_environments, String::from_str("cases"));
        fx_set_insert(&mut math_environments, String::from_str("cases*"));
        fx_set_insert(&mut math_environments, String::from_str("CD"));
        fx_set_insert(&mut math_environments, String::from_str("CD*"));
        fx_set_insert(&mut math_environments, String::from_str("eqnarray"));
        fx_set_insert(&mut math_environments, String::from_str("eqnarray*"));
        fx_set_insert(&mut math_environments, String::from_str("equation"));
        fx_set_insert(&mut math_environments, String::from_str("equation*"));
        fx_set_insert(&mut math_environments, String::from_str("flalign"));
        fx_set_insert(&mut math_environments, String::from_str("flalign*"));
        fx_set_insert(&mut math_environments, String::from_str("gather"));
        fx_set_insert(&mut math_environments, String::from_str("gather*"));
        fx_set_insert(&mut math_environments, String::from_str("gathered"));
        fx_set_insert(&mut math_environments, String::from_str("gathered*"));
        fx_set_insert(&mut math_environments, String::from_str("IEEEeqnarray"));
        fx_set_insert(&mut math_environments, String::from_str("IEEEeqnarray*"));
        fx_set_insert(&mut math_environments, String::from_str("matrix"));
        fx_set_insert(&mut math_environments, String::from_str("matrix*"));
        fx_set_insert(&mut math_environments, String::from_str("multline"));
        fx_set_insert(&mut math_environments, String::from_str("multline*"));
        fx_set_insert(&mut math_environments, String::from_str("pmatrix"));
        fx_set_insert(&mut math_environments, String::from_str("pmatrix*"));
        fx_set_insert(&mut math_environments, String::from_str("smallmatrix"));
        fx_set_insert(&mut math_environments, String::from_str("smallmatrix*"));
        fx_set_insert(&mut math_environments, String::from_str("split"));
        fx_set_insert(&mut math_environments, String::from_str("split*"));
        fx_set_insert(&mut math_environments, String::from_str("subarray"));
        fx_set_insert(&mut math_environments, String::from_str("subarray*"));
        fx_set_insert(&mut math_environments, String::from_str("subequations"));
        fx_set_insert(&mut math_environments, String::from_str("subequations*"));
        fx_set_insert(&mut math_environments, String::from_str("vmatrix"));
        fx_set_insert(&mut math_environments, String::from_str("Vmatrix"));
        fx_set_insert(&mut math_environments, String::from_str("vmatrix*"));
        fx_set_insert(&mut math_environments, String::from_str("Vmatrix*"));
        let mut enum_environments = fx_set_new();
        fx_set_insert(&mut enum_environments, String::from_str("enumerate"));
        fx_set_insert(&mut enum_environments, String::from_str("itemize"));
        fx_set_insert(&mut enum_environments, String::from_str("description"));
        let mut verbatim_environments = fx_set_new();
        fx_set_insert(&mut verbatim_environments, String::from_str("pycode"));
        fx_set_insert(&mut verbatim_environments, String::from_str("minted"));
        fx_set_insert(&mut verbatim_environments, String::from_str("asy"));
        fx_set_insert(&mut verbatim_environments, String::from_str("lstlisting"));
        fx_set_insert(&mut verbatim_environments, String::from_str("verbatim"));
        let mut citation_commands = fx_set_new();
        fx_set_insert(&mut citation_commands, String::from_str("cite"));
        fx_set_insert(&mut citation_commands, String::from_str("cite*"));
        fx_set_insert(&mut citation_commands, String::from_str("Cite"));
        fx_set_insert(&mut citation_commands, String::from_str("nocite"));
        fx_set_insert(&mut citation_commands, String::from_str("citet"));
        fx_set_insert(&mut citation_commands, String::from_str("citet*"));
        fx_set_insert(&mut citation_commands, String::from_str("citep"));
        fx_set_insert(&mut citation_commands, String::from_str("citep*"));
        fx_set_insert(&mut citation_commands, String::from_str("citeauthor"));
        fx_set_insert(&mut citation_commands, String::from_str("citeauthor*"));
        fx_set_insert(&mut citation_commands, String::from_str("Citeauthor"));
        fx_set_insert(&mut citation_commands, String::from_str("Citeauthor*"));
        fx_set_insert(&mut citation_commands, String::from_str("citetitle"));
        fx_set_insert(&mut citation_commands, String::from_str("citetitle*"));
        fx_set_insert(&mut citation_commands, String::from_str("citeyear"));
        fx_set_insert(&mut citation_commands, String::from_str("citeyear*"));
        fx_set_insert(&mut citation_commands, String::from_str("citedate"));
        fx_set_insert(&mut citation_commands, String::from_str("citedate*"));
        fx_set_insert(&mut citation_commands, String::from_str("citeurl"));
        fx_set_insert(&mut citation_commands, String::from_str("fullcite"));
        fx_set_insert(&mut citation_commands, String::from_str("citeyearpar"));
        fx_set_insert(&mut citation_commands, String::from_str("citealt"));
        fx_set_insert(&mut citation_commands, String::from_str("citealp"));
        fx_set_insert(&mut citation_commands, String::from_str("citetext"));
        fx_set_insert(&mut citation_commands, String::from_str("parencite"));
        fx_set_insert(&mut citation_commands, String::from_str("parencite*"));
        fx_set_insert(&mut citation_commands, String::from_str("Parencite"));
        fx_set_insert(&mut citation_commands, String::from_str("footcite"));
        fx_set_insert(&mut citation_commands, String::from_str("footfullcite"));
        fx_set_insert(&mut citation_commands, String::from_str("footcitetext"));
        fx_set_insert(&mut citation_commands, String::from_str("textcite"));
        fx_set_insert(&mut citation_commands, String::from_str("Textcite"));
        fx_set_insert(&mut citation_commands, String::from_str("smartcite"));
        fx_set_insert(&mut citation_commands, String::from_str("supercite"));
        fx_set_insert(&mut citation_commands, String::from_str("autocite"));
        fx_set_insert(&mut citation_commands, String::from_str("autocite*"));
        fx_set_insert(&mut citation_commands, String::from_str("Autocite"));
        fx_set_insert(&mut citation_commands, String::from_str("Autocite*"));
        fx_set_insert(&mut citation_commands, String::from_str("volcite"));
        fx_set_insert(&mut citation_commands, String::from_str("Volcite"));
        fx_set_insert(&mut citation_commands, String::from_str("pvolcite"));
        fx_set_insert(&mut citation_commands, String::from_str("Pvolcite"));
        fx_set_insert(&mut citation_commands, String::from_str("fvolcite"));
        fx_set_insert(&mut citation_commands, String::from_str("ftvolcite"));
        fx_set_insert(&mut citation_commands, String::from_str("svolcite"));
        fx_set_insert(&mut citation_commands, String::from_str("Svolcite"));
        fx_set_insert(&mut citation_commands, String::from_str("tvolcite"));
        fx_set_insert(&mut citation_commands, String::from_str("Tvolcite"));
        fx_set_insert(&mut citation_commands, String::from_str("avolcite"));
        fx_set_insert(&mut citation_commands, String::from_str("Avolcite"));
        fx_set_insert(&mut citation_commands, String::from_str("notecite"));
        fx_set_insert(&mut citation_commands, String::from_str("pnotecite"));
        fx_set_insert(&mut citation_commands, String::from_str("Pnotecite"));
        fx_set_insert(&mut citation_commands, String::from_str("fnotecite"));
        fx_set_insert(&mut citation_commands, String::from_str("citeA"));
        fx_set_insert(&mut citation_commands, String::from_str("citeA*"));
        SyntaxConfig {
            math_environments,
            enum_environments,
            verbatim_environments,
            citation_commands,
        }
    }
}

/// How a build is run.
pub struct BuildConfig {
    pub program: String,
    pub args: Vec<String>,
    pub on_save: bool,
    pub forward_search_after: bool,
    pub output_dir: String,
}

pub open spec fn is_default_build(b: BuildConfig) -> bool {
    &&& b.program@ == "latexmk"@
    &&& b.args@.len() == 4
    &&& b.args@[0]@ == "-pdf"@
    &&& b.args@[1]@ == "-interaction=nonstopmode"@
    &&& b.args@[2]@ == "-synctex=1"@
    &&& b.args@[3]@ == "%f"@
    &&& b.on_save == false
    &&& b.forward_search_after == false
    &&& b.output_dir@ == "."@
}

impl Default for BuildConfig {
    fn default() -> (r: BuildConfig)
        ensures
            is_default_build(r),
    {
        let mut args: Vec<String> = Vec::new();
        args.push(String::from_str("-pdf"));
        args.push(String::from_str("-interaction=nonstopmode"));
        args.push(String::from_str("-synctex=1"));
        args.push(String::from_str("%f"));
        BuildConfig {
            program: String::from_str("latexmk"),
            args,
            on_save: false,
            forward_search_after: false,
            output_dir: String::from_str("."),
        }
    }
}

/// When the external style checker runs.
#[derive(Clone, Copy, Debug, PartialEq, Eq, Structural)]
pub struct ChktexConfig {
    pub on_open: bool,
    pub on_save: bool,
    pub on_edit: bool,
}

pub open spec fn is_default_chktex(c: ChktexConfig) -> bool {
    c.on_open == false && c.on_save == false && c.on_edit == false
}

impl Default for ChktexConfig {
    fn default() -> (r: ChktexConfig)
        ensures
            is_default_chktex(r),
    {
        ChktexConfig { on_open: false, on_save: false, on_edit: false }
    }
}

/// How the viewer synchronisation tool is invoked.
pub struct SynctexConfig {
    pub program: String,
    pub args: Vec<String>,
}

/// Filters applied to reported diagnostics, and when they run.
pub struct DiagnosticsConfig {
    pub allowed_patterns: Vec<regex::Regex>,
    pub ignored_patterns: Vec<regex::Regex>,
    pub chktex: ChktexConfig,
    pub delay_millis: u64,
}

pub open spec fn is_default_diagnostics(d: DiagnosticsConfig) -> bool {
    &&& d.allowed_patterns@.len() == 0
    &&& d.ignored_patterns@.len() == 0
    &&& is_default_chktex(d.chktex)
    &&& d.delay_millis == 300
}

impl Default for DiagnosticsConfig {
    fn default() -> (r: DiagnosticsConfig)
        ensures
            is_default_diagnostics(r),
    {
        DiagnosticsConfig {
            allowed_patterns: Vec::new(),
            ignored_patterns: Vec::new(),
            delay_millis: 300,
            chktex: ChktexConfig::default(),
        }
    }
}

/// Which formatter serves each grammar.
#[derive(Clone, Copy, Debug, PartialEq, Eq, Structural)]
pub enum Formatter {
    Null,
    Server,
    LatexIndent,
}

/// How the outside indenting formatter is invoked.
pub struct LatexIndentConfig {
    pub local: Option<String>,
    pub modify_line_breaks: bool,
}

pub open spec fn is_default_latex_indent(l: LatexIndentConfig) -> bool {
    l.local is None && l.modify_line_breaks == false
}

impl Default for LatexIndentConfig {
    fn default() -> (r: LatexIndentConfig)
        ensures
            is_default_latex_indent(r),
    {
        LatexIndentConfig { local: None, modify_line_breaks: false }
    }
}

/// Formatting choices.
pub struct FormattingConfig {
    pub tex_formatter: Formatter,
    pub bib_formatter: Formatter,
    pub latex_indent: LatexIndentConfig,
    pub line_length: usize,
}

pub open spec fn is_default_formatting(f: FormattingConfig) -> bool {
    &&& f.tex_formatter == Formatter::LatexIndent
    &&& f.bib_formatter == Formatter::Server
    &&& f.line_length == 80
    &&& is_default_latex_indent(f.latex_indent)
}

impl Default for FormattingConfig {
    fn default() -> (r: FormattingConfig)
        ensures
            is_default_formatting(r),
    {
        FormattingConfig {
            tex_formatter: Formatter::LatexIndent,
            bib_formatter: Formatter::Server,
            line_length: 80,
            latex_indent: LatexIndentConfig::default(),
        }
    }
}

/// Filters applied to workspace symbols.
pub struct SymbolConfig {
    pub allowed_patterns: Vec<regex::Regex>,
    pub ignored_patterns: Vec<regex::Regex>,
}

pub open spec fn is_default_symbols(s: SymbolConfig) -> bool {
    s.allowed_patterns@.len() == 0 && s.ignored_patterns@.len() == 0
}

impl Default for SymbolConfig {
    fn default() -> (r: SymbolConfig)
        ensures
            is_default_symbols(r),
    {
        SymbolConfig { allowed_patterns: Vec::new(), ignored_patterns: Vec::new() }
    }
}

/// Which matcher ranks completion candidates.
#[derive(Clone, Copy, Debug, PartialEq, Eq, Structural)]
pub enum MatchingAlgo {
    Skim,
    SkimIgnoreCase,
    Prefix,
    PrefixIgnoreCase,
}

/// Completion behaviour.
#[derive(Clone, Copy, Debug, PartialEq, Eq, Structural)]
pub struct CompletionConfig {
    pub matcher: MatchingAlgo,
}

pub open spec fn is_default_completion(c: CompletionConfig) -> bool {
    c.matcher == MatchingAlgo::SkimIgnoreCase
}

impl Default for CompletionConfig {
    fn default() -> (r: CompletionConfig)
        ensures
            is_default_completion(r),
    {
        CompletionConfig { matcher: MatchingAlgo::SkimIgnoreCase }
    }
}

/// The whole configuration of the server.
pub struct Config {
    pub root_dir: Option<String>,
    pub build: BuildConfig,
    pub diagnostics: DiagnosticsConfig,
    pub formatting: FormattingConfig,
    pub synctex: Option<SynctexConfig>,
    pub symbols: SymbolConfig,
    pub syntax: SyntaxConfig,
    pub completion: CompletionConfig,
}

impl Default for Config {
    fn default() -> (r: Config)
        ensures
            r.root_dir is None,
            is_default_build(r.build),
            is_default_diagnostics(r.diagnostics),
            is_default_formatting(r.formatting),
            r.synctex is None,
            is_default_symbols(r.symbols),
            fx_set_contents(&r.syntax.math_environments) == default_math_environments(),
            fx_set_contents(&r.syntax.enum_environments) == default_enum_environments(),
            fx_set_contents(&r.syntax.verbatim_environments) == default_verbatim_environments(),
            fx_set_contents(&r.syntax.citation_commands) == default_citation_commands(),
            is_default_completion(r.completion),
    {
        Config {
            root_dir: None,
            build: BuildConfig::default(),
            diagnostics: DiagnosticsConfig::default(),
            formatting: FormattingConfig::default(),
            synctex: None,
            symbols: SymbolConfig::default(),
            syntax: SyntaxConfig::default(),
            completion: CompletionConfig::default(),
        }
    }
}

} // verus!
