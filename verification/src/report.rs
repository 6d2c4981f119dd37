//! The match reporter: brings findings into the form in which they are
//! printed.

use crate::pattern::PatternError;
use crate::pattern::PatternErrorModel;
use crate::scope::ScopeError;
use crate::scope::ScopeErrorModel;
use crate::search::Finding;
use crate::search::FindingModel;
use crate::search::Match;
use crate::search::MatchModel;
use crate::search::RuleError;
use crate::search::RuleErrorModel;
use vstd::prelude::*;

verus! {

/// Whether a path begins with `./`.
pub open spec fn has_dot_slash(path: Seq<char>) -> bool {
    path.len() >= 2 && path[0] == '.' && path[1] == '/'
}

/// A path without its leading `./` prefixes.
pub open spec fn normalized(path: Seq<char>) -> Seq<char>
    decreases path.len(),
{
    if has_dot_slash(path) {
        normalized(path.skip(2))
    } else {
        path
    }
}

/// A normalized path does not begin with `./`, and normalizing it again
/// changes nothing.
pub proof fn lemma_normalized_is_stable(path: Seq<char>)
    ensures
        !has_dot_slash(normalized(path)),
        normalized(normalized(path)) == normalized(path),
    decreases path.len(),
{
    if has_dot_slash(path) {
        lemma_normalized_is_stable(path.skip(2));
    }
}

/// Strips every leading `./` from a path.
pub fn normalize_path(path: &str) -> (stripped: &str)
    ensures
        stripped@ == normalized(path@),
{
    let mut rest = path;
    loop
        invariant
            normalized(rest@) == normalized(path@),
        decreases rest@.len(),
    {
        let len = rest.unicode_len();
        if len >= 2 && rest.get_char(0) == '.' && rest.get_char(1) == '/' {
            let shorter = rest.substring_char(2, len);
            assert(shorter@ =~= rest@.skip(2));
            rest = shorter;
        } else {
            return rest;
        }
    }
}

/// Whether two paths name the same file once their `./` prefixes are gone.
pub open spec fn same_file(path: Seq<char>, other: Seq<char>) -> bool {
    normalized(path) == normalized(other)
}

/// Paths name the same file exactly when one is the other behind some number
/// of `./` prefixes: a path and its normalized form always name the same file.
pub proof fn lemma_same_file_as_normalized(path: Seq<char>)
    ensures
        same_file(path, normalized(path)),
        same_file(seq!['.', '/'] + path, path),
{
    lemma_normalized_is_stable(path);
    let prefixed = seq!['.', '/'] + path;
    assert(has_dot_slash(prefixed));
    assert(prefixed.skip(2) =~= path);
}

/// Whether `path` names the configuration file at `config_path`.
pub fn is_config_file(path: &str, config_path: &str) -> (b: bool)
    ensures
        b == same_file(path@, config_path@),
{
    let a = normalize_path(path).to_owned();
    let b = normalize_path(config_path).to_owned();
    a == b
}

/// The character of a decimal digit.
pub open spec fn digit_char(d: int) -> char {
    if d == 0 {
        '0'
    } else if d == 1 {
        '1'
    } else if d == 2 {
        '2'
    } else if d == 3 {
        '3'
    } else if d == 4 {
        '4'
    } else if d == 5 {
        '5'
    } else if d == 6 {
        '6'
    } else if d == 7 {
        '7'
    } else if d == 8 {
        '8'
    } else {
        '9'
    }
}

/// The decimal numeral of a number, without leading zeros.
pub open spec fn decimal(n: nat) -> Seq<char>
    decreases n,
{
    if n < 10 {
        seq![digit_char(n as int)]
    } else {
        decimal(n / 10).push(digit_char((n % 10) as int))
    }
}

/// The numeral of one decimal digit.
fn digit_str(d: u8) -> (s: &'static str)
    requires
        d < 10,
    ensures
        s@ == seq![digit_char(d as int)],
{
    proof {
        reveal_strlit("0");
        reveal_strlit("1");
        reveal_strlit("2");
        reveal_strlit("3");
        reveal_strlit("4");
        reveal_strlit("5");
        reveal_strlit("6");
        reveal_strlit("7");
        reveal_strlit("8");
        reveal_strlit("9");
    }
    let s = if d == 0 {
        "0"
    } else if d == 1 {
        "1"
    } else if d == 2 {
        "2"
    } else if d == 3 {
        "3"
    } else if d == 4 {
        "4"
    } else if d == 5 {
        "5"
    } else if d == 6 {
        "6"
    } else if d == 7 {
        "7"
    } else if d == 8 {
        "8"
    } else {
        "9"
    };
    assert(s@ =~= seq![digit_char(d as int)]);
    s
}

/// Appends the decimal numeral of `n`.
pub fn append_decimal(out: &mut String, n: u64)
    ensures
        final(out)@ == old(out)@ + decimal(n as nat),
    decreases n,
{
    if n >= 10 {
        append_decimal(out, n / 10);
    }
    out.append(digit_str((n % 10) as u8));
    assert(out@ =~= old(out)@ + decimal(n as nat));
}

/// The line that reports a match: path, line number and message in the form
/// `path:line:<tab>message`, the path without its leading `./`.
pub open spec fn match_line(m: MatchModel) -> Seq<char> {
    normalized(m.path) + seq![':'] + decimal(m.line_number as nat) + seq![':', '\t']
        + m.rule_message
}

/// Formats a match for printing.
pub fn format_match(m: &Match) -> (text: String)
    ensures
        text@ == match_line(m@),
{
    proof {
        reveal_strlit(":");
        reveal_strlit(":\t");
    }
    let mut text = normalize_path(m.path.as_str()).to_owned();
    text.append(":");
    append_decimal(&mut text, m.line_number);
    text.append(":\t");
    text.append(m.rule_message.as_str());
    assert(text@ =~= match_line(m@));
    text
}

/// The line that reports a skipped rule.
pub open spec fn rule_error_line(error: RuleErrorModel) -> Seq<char> {
    match error {
        RuleErrorModel::Pattern(PatternErrorModel::Empty) => "regex error: no pattern given"@,
        RuleErrorModel::Pattern(PatternErrorModel::Invalid(reason)) => "regex error: "@ + reason,
        RuleErrorModel::Scope(ScopeErrorModel::InvalidGlob(glob)) => "glob error: invalid glob "@
            + glob,
        RuleErrorModel::Scope(ScopeErrorModel::Unbuildable) => "glob error: the globs cannot be combined"@,
    }
}

/// Formats the record of a skipped rule for printing.
pub fn format_rule_error(error: &RuleError) -> (text: String)
    ensures
        text@ == rule_error_line(error@),
{
    match error {
        RuleError::Pattern(PatternError::Empty) => "regex error: no pattern given".to_owned(),
        RuleError::Pattern(PatternError::Invalid(reason)) => {
            let mut text = "regex error: ".to_owned();
            text.append(reason.as_str());
            text
        },
        RuleError::Scope(ScopeError::InvalidGlob(glob)) => {
            let mut text = "glob error: invalid glob ".to_owned();
            text.append(glob.as_str());
            text
        },
        RuleError::Scope(ScopeError::Unbuildable) => "glob error: the globs cannot be combined".to_owned(),
    }
}

/// The line that reports a skipped file.
pub open spec fn file_error_line(path: Seq<char>, reason: Seq<char>) -> Seq<char> {
    "error: "@ + path + ": "@ + reason
}

/// Formats the record of a skipped file for printing.
pub fn format_file_error(path: &str, reason: &str) -> (text: String)
    ensures
        text@ == file_error_line(path@, reason@),
{
    let mut text = "error: ".to_owned();
    text.append(path);
    text.append(": ");
    text.append(reason);
    text
}

/// Where a line of the report goes.
#[derive(Debug, Clone, Copy, PartialEq, Eq, Structural)]
pub enum Stream {
    /// Standard output: the matches.
    Stdout,
    /// Standard error: what was skipped, and why.
    Stderr,
}

/// Mathematical model of an [`OutputLine`].
pub struct LineModel {
    pub stream: Stream,
    pub text: Seq<char>,
}

/// One line of the report, without its line break.
#[derive(Debug, PartialEq, Eq)]
pub struct OutputLine {
    pub stream: Stream,
    pub text: String,
}

impl View for OutputLine {
    type V = LineModel;

    open spec fn view(&self) -> LineModel {
        LineModel { stream: self.stream, text: self.text@ }
    }
}

impl DeepView for OutputLine {
    type V = LineModel;

    open spec fn deep_view(&self) -> LineModel {
        self@
    }
}

/// The line that a finding is reported with, if it is reported at all. A
/// match in the configuration file itself is never reported.
pub open spec fn render_spec(finding: FindingModel, config_path: Seq<char>) -> Option<LineModel> {
    match finding {
        FindingModel::Match(m) => if same_file(m.path, config_path) {
            None
        } else {
            Some(LineModel { stream: Stream::Stdout, text: match_line(m) })
        },
        FindingModel::FileSkipped { path, reason } => Some(
            LineModel { stream: Stream::Stderr, text: file_error_line(path, reason) },
        ),
        FindingModel::RuleSkipped { rule_id, error } => Some(
            LineModel { stream: Stream::Stderr, text: rule_error_line(error) },
        ),
    }
}

/// Renders one finding.
pub fn render(finding: &Finding, config_path: &str) -> (line: Option<OutputLine>)
    ensures
        line.deep_view() == render_spec(finding@, config_path@),
{
    match finding {
        Finding::Match(m) => {
            if is_config_file(m.path.as_str(), config_path) {
                None
            } else {
                Some(OutputLine { stream: Stream::Stdout, text: format_match(m) })
            }
        },
        Finding::FileSkipped(e) => Some(
            OutputLine {
                stream: Stream::Stderr,
                text: format_file_error(e.path.as_str(), e.reason.as_str()),
            },
        ),
        Finding::RuleSkipped { rule_id: _, error } => Some(
            OutputLine { stream: Stream::Stderr, text: format_rule_error(error) },
        ),
    }
}

/// The lines that one finding contributes to the report: one or none.
pub open spec fn rendered(finding: FindingModel, config_path: Seq<char>) -> Seq<LineModel> {
    match render_spec(finding, config_path) {
        Some(line) => seq![line],
        None => Seq::empty(),
    }
}

/// `rendered` for a fixed configuration path.
pub open spec fn per_finding(config_path: Seq<char>) -> spec_fn(FindingModel) -> Seq<LineModel> {
    |finding: FindingModel| rendered(finding, config_path)
}

/// The report of a list of findings: the line of each finding that is
/// reported, in the order of the findings.
pub open spec fn report_spec(findings: Seq<FindingModel>, config_path: Seq<char>) -> Seq<
    LineModel,
> {
    findings.flat_map(per_finding(config_path))
}

/// Renders a list of findings.
pub fn report(findings: &Vec<Finding>, config_path: &str) -> (lines: Vec<OutputLine>)
    ensures
        lines.deep_view() == report_spec(findings.deep_view(), config_path@),
{
    let mut lines: Vec<OutputLine> = Vec::new();
    let ghost model = findings.deep_view();
    let ghost f = per_finding(config_path@);
    let mut i: usize = 0;
    assert(model.take(0).flat_map(f) =~= Seq::<LineModel>::empty()) by {
        assert(model.take(0).map_values(f) =~= Seq::<Seq<LineModel>>::empty());
    }
    assert(lines.deep_view() =~= model.take(0).flat_map(f));
    while i < findings.len()
        invariant
            i <= findings.len(),
            model == findings.deep_view(),
            f == per_finding(config_path@),
            lines.deep_view() == model.take(i as int).flat_map(f),
        decreases findings.len() - i,
    {
        let ghost prev = lines.deep_view();
        proof {
            model.lemma_flat_map_take_append(f, i as int);
            assert(model[i as int] == findings[i as int]@);
        }
        match render(&findings[i], config_path) {
            Some(line) => {
                lines.push(line);
                assert(lines.deep_view() =~= prev + seq![line@]);
            },
            None => {
                assert(prev + Seq::<LineModel>::empty() =~= prev);
            },
        }
        i = i + 1;
    }
    assert(model.take(i as int) =~= model);
    lines
}

} // verus!
