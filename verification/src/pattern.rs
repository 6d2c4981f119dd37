//! The pattern compiler: from a rule's pattern specification to a matcher
//! bound to one pattern string and two mode flags.
//!
//! Matching itself is the work of the `grep` crates. What they return is
//! named here by two uninterpreted functions, and every contract of this
//! module is stated over those names.

use crate::config::effective_pattern;
use crate::config::PatternModel;
use crate::config::RulePattern;
use grep::regex::RegexMatcher;
use grep::regex::RegexMatcherBuilder;
use grep::searcher::sinks::Bytes;
use grep::searcher::BinaryDetection;
use grep::searcher::SearcherBuilder;
use vstd::prelude::*;
use vstd::slice::slice_to_vec;

verus! {

/// The byte that ends a line.
pub const LINE_TERMINATOR: u8 = 10;

/// The byte whose presence marks content as binary.
pub const BINARY_SENTINEL: u8 = 0;

/// `grep::regex::RegexMatcher`, the compiled regular expression. It is carried
/// as an opaque value: nothing is known of what it holds.
#[verifier::external_type_specification]
#[verifier::external_body]
pub struct ExRegexMatcher(RegexMatcher);

/// What `RegexMatcherBuilder::build` returns for `pattern` once the builder's
/// `case_insensitive`, `multi_line` and `line_terminator` options are set to
/// the given values: the matcher, or the text of the engine's error.
pub uninterp spec fn regex_build(
    pattern: Seq<char>,
    case_insensitive: bool,
    multi_line: bool,
    line_terminator: Option<u8>,
) -> Result<RegexMatcher, Seq<char>>;

/// What `Searcher::search_slice` hands to its sink when it runs the matcher
/// built from the first four arguments over `content`, with multi-line search
/// set to `multi_line_search`, binary detection that quits on `binary_byte`
/// and every other option of the searcher at its default: every matched block
/// of lines with the number of its first line, in the order found, or the
/// text of the searcher's error.
pub uninterp spec fn search_blocks(
    pattern: Seq<char>,
    case_insensitive: bool,
    multi_line: bool,
    line_terminator: Option<u8>,
    multi_line_search: bool,
    binary_byte: u8,
    content: Seq<u8>,
) -> Result<Seq<(u64, Seq<u8>)>, Seq<char>>;

/// Whether `matcher` is what the engine builds from the pattern and flags.
pub open spec fn built_from(
    matcher: RegexMatcher,
    pattern: Seq<char>,
    case_insensitive: bool,
    multi_line: bool,
    line_terminator: Option<u8>,
) -> bool {
    regex_build(pattern, case_insensitive, multi_line, line_terminator) == Ok::<
        RegexMatcher,
        Seq<char>,
    >(matcher)
}

/// A run of one or more whole lines that holds at least one match, as the
/// searcher reports it.
#[derive(Debug, PartialEq, Eq)]
pub struct LineBlock {
    /// Number of the block's first line, counted from one.
    pub line_number: u64,
    /// The lines, each with its terminator if it has one.
    pub bytes: Vec<u8>,
}

impl View for LineBlock {
    type V = (u64, Seq<u8>);

    open spec fn view(&self) -> (u64, Seq<u8>) {
        (self.line_number, self.bytes@)
    }
}

impl DeepView for LineBlock {
    type V = (u64, Seq<u8>);

    open spec fn deep_view(&self) -> (u64, Seq<u8>) {
        self@
    }
}

/// Mathematical model of a search result.
pub open spec fn search_view(r: Result<Vec<LineBlock>, String>) -> Result<
    Seq<(u64, Seq<u8>)>,
    Seq<char>,
> {
    match r {
        Ok(blocks) => Ok(blocks.deep_view()),
        Err(reason) => Err(reason@),
    }
}

/// Builds a matcher with `RegexMatcherBuilder`: sets the three options and
/// calls `build`. The contract only gives the outcome its name; an error is
/// handed back as its display text.
#[verifier::external_body]
fn build_matcher(
    pattern: &str,
    case_insensitive: bool,
    multi_line: bool,
    line_terminator: Option<u8>,
) -> (r: Result<RegexMatcher, String>)
    ensures
        match r {
            Ok(matcher) => built_from(matcher, pattern@, case_insensitive, multi_line, line_terminator),
            Err(reason) => regex_build(pattern@, case_insensitive, multi_line, line_terminator)
                == Err::<RegexMatcher, Seq<char>>(reason@),
        },
{
    let mut builder = RegexMatcherBuilder::new();
    builder.case_insensitive(case_insensitive);
    builder.multi_line(multi_line);
    builder.line_terminator(line_terminator);
    match builder.build(pattern) {
        Ok(matcher) => Ok(matcher),
        Err(e) => Err(e.to_string()),
    }
}

/// Appends one matched block to `blocks` and asks the searcher to go on.
fn record_block(blocks: &mut Vec<LineBlock>, line_number: u64, bytes: &[u8]) -> (go_on: bool)
    ensures
        go_on,
        final(blocks).deep_view() == old(blocks).deep_view().push((line_number, bytes@)),
{
    blocks.push(LineBlock { line_number, bytes: slice_to_vec(bytes) });
    assert(blocks.deep_view() =~= old(blocks).deep_view().push((line_number, bytes@)));
    true
}

/// Runs `Searcher::search_slice` over `content` with a searcher built by
/// `SearcherBuilder` for the given options and a `Bytes` sink that records
/// every block. For whichever pattern and flags `matcher` was built from, the
/// result is the one named by `search_blocks`. Line numbers start at one, as
/// the searcher counts them; an error is handed back as its display text.
#[verifier::external_body]
fn search_slice(
    matcher: &RegexMatcher,
    multi_line_search: bool,
    binary_byte: u8,
    content: &[u8],
) -> (r: Result<Vec<LineBlock>, String>)
    ensures
        forall|pattern: Seq<char>, case_insensitive: bool, multi_line: bool, line_terminator: Option<u8>|
            #[trigger] built_from(*matcher, pattern, case_insensitive, multi_line, line_terminator)
                ==> search_view(r) == search_blocks(
                pattern,
                case_insensitive,
                multi_line,
                line_terminator,
                multi_line_search,
                binary_byte,
                content@,
            ),
        r matches Ok(blocks) ==> forall|i: int|
            0 <= i < blocks.len() ==> (#[trigger] blocks[i]).line_number >= 1,
{
    let mut searcher = SearcherBuilder::new()
        .binary_detection(BinaryDetection::quit(binary_byte))
        .multi_line(multi_line_search)
        .build();
    let mut blocks = Vec::new();
    let sink = Bytes(|line_number, bytes| Ok(record_block(&mut blocks, line_number, bytes)));
    match searcher.search_slice(matcher, content, sink) {
        Ok(()) => Ok(blocks),
        Err(e) => Err(e.to_string()),
    }
}

/// Mathematical model of a [`PatternError`].
pub enum PatternErrorModel {
    Empty,
    Invalid(Seq<char>),
}

/// Why a rule's pattern could not be compiled.
#[derive(Debug, PartialEq, Eq)]
pub enum PatternError {
    /// No field of the pattern specification is populated.
    Empty,
    /// The regex engine rejected the pattern; carries the engine's message.
    Invalid(String),
}

impl View for PatternError {
    type V = PatternErrorModel;

    open spec fn view(&self) -> PatternErrorModel {
        match self {
            PatternError::Empty => PatternErrorModel::Empty,
            PatternError::Invalid(reason) => PatternErrorModel::Invalid(reason@),
        }
    }
}

/// Mathematical model of a [`CompiledPattern`]: the pattern string and the
/// two mode flags that the matcher is bound to.
pub struct CompiledModel {
    pub text: Seq<char>,
    pub case_insensitive: bool,
    pub multiline: bool,
}

/// The line terminator that the regex is built with. A single-line pattern is
/// built with the terminator fixed, so that it can never match across lines.
pub open spec fn line_terminator_for(multiline: bool) -> Option<u8> {
    if multiline {
        None
    } else {
        Some(LINE_TERMINATOR)
    }
}

impl CompiledModel {
    /// The blocks that this pattern matches in `content`.
    pub open spec fn search(self, content: Seq<u8>) -> Result<Seq<(u64, Seq<u8>)>, Seq<char>> {
        search_blocks(
            self.text,
            self.case_insensitive,
            self.multiline,
            line_terminator_for(self.multiline),
            self.multiline,
            BINARY_SENTINEL,
            content,
        )
    }
}

/// What compiling a pattern specification yields: the effective pattern
/// string bound to the flags it asks for, or the reason why there is none.
pub open spec fn compile_spec(p: PatternModel) -> Result<CompiledModel, PatternErrorModel> {
    match effective_pattern(p) {
        None => Err(PatternErrorModel::Empty),
        Some(text) => match regex_build(
            text,
            !p.case_sensitive,
            p.multiline,
            line_terminator_for(p.multiline),
        ) {
            Ok(_) => Ok(
                CompiledModel { text, case_insensitive: !p.case_sensitive, multiline: p.multiline },
            ),
            Err(reason) => Err(PatternErrorModel::Invalid(reason)),
        },
    }
}

/// A compiled matcher, bound to the pattern string and the flags it was built
/// from.
pub struct CompiledPattern {
    text: String,
    case_insensitive: bool,
    multiline: bool,
    matcher: RegexMatcher,
}

impl View for CompiledPattern {
    type V = CompiledModel;

    closed spec fn view(&self) -> CompiledModel {
        CompiledModel {
            text: self.text@,
            case_insensitive: self.case_insensitive,
            multiline: self.multiline,
        }
    }
}

/// Mathematical model of a compilation result.
pub open spec fn compiled_view(r: Result<CompiledPattern, PatternError>) -> Result<
    CompiledModel,
    PatternErrorModel,
> {
    match r {
        Ok(compiled) => Ok(compiled@),
        Err(e) => Err(e@),
    }
}

impl CompiledPattern {
    /// The matcher is the one that the engine builds from the bound pattern
    /// string and flags.
    #[verifier::type_invariant]
    spec fn bound(self) -> bool {
        built_from(
            self.matcher,
            self.text@,
            self.case_insensitive,
            self.multiline,
            line_terminator_for(self.multiline),
        )
    }

    /// Compiles a pattern specification. Picks the effective pattern string,
    /// maps `case_sensitive` and `multiline` to the engine's options and
    /// builds the matcher.
    pub fn compile(pattern: &RulePattern) -> (r: Result<CompiledPattern, PatternError>)
        ensures
            compiled_view(r) == compile_spec(pattern@),
    {
        let text = match pattern.effective() {
            Some(text) => text,
            None => {
                return Err(PatternError::Empty);
            },
        };
        let case_insensitive = !pattern.case_sensitive;
        let multiline = pattern.multiline;
        let line_terminator = if multiline {
            None
        } else {
            Some(LINE_TERMINATOR)
        };
        match build_matcher(text.as_str(), case_insensitive, multiline, line_terminator) {
            Ok(matcher) => Ok(CompiledPattern { text: text.clone(), case_insensitive, multiline, matcher }),
            Err(reason) => Err(PatternError::Invalid(reason)),
        }
    }

    /// The pattern string that the matcher was built from.
    pub fn text(&self) -> (text: &String)
        ensures
            text@ == self@.text,
    {
        &self.text
    }

    /// Whether the matcher ignores case.
    pub fn case_insensitive(&self) -> (b: bool)
        ensures
            b == self@.case_insensitive,
    {
        self.case_insensitive
    }

    /// Whether the matcher searches whole buffers rather than single lines.
    pub fn multiline(&self) -> (b: bool)
        ensures
            b == self@.multiline,
    {
        self.multiline
    }

    /// Searches `content` and returns every matched block of lines with the
    /// number of its first line, in the order found.
    pub fn search(&self, content: &[u8]) -> (r: Result<Vec<LineBlock>, String>)
        ensures
            search_view(r) == self@.search(content@),
            r matches Ok(blocks) ==> forall|i: int|
                0 <= i < blocks.len() ==> (#[trigger] blocks[i]).line_number >= 1,
    {
        proof {
            use_type_invariant(self);
        }
        search_slice(&self.matcher, self.multiline, BINARY_SENTINEL, content)
    }
}

} // verus!
