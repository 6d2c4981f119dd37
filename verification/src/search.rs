//! The search executor: runs compiled rules over candidate files and yields
//! positioned matches.

use crate::config::Config;
use crate::config::Rule;
use crate::config::RuleModel;
use crate::content::is_binary;
use crate::content::lines_of;
use crate::content::lines_view;
use crate::content::looks_binary;
use crate::content::split_lines;
use crate::pattern::compile_spec;
use crate::pattern::search_view;
use crate::pattern::CompiledModel;
use crate::pattern::CompiledPattern;
use crate::pattern::LineBlock;
use crate::pattern::PatternError;
use crate::pattern::PatternErrorModel;
use crate::scope::resolve_spec;
use crate::scope::scope_accepts;
use crate::scope::Scope;
use crate::scope::ScopeError;
use crate::scope::ScopeErrorModel;
use vstd::prelude::*;
use vstd::slice::slice_to_vec;

verus! {

/// Mathematical model of a [`Match`].
pub struct MatchModel {
    pub path: Seq<char>,
    pub line_number: u64,
    pub line_text: Seq<u8>,
    pub column_span: Option<(u64, u64)>,
    pub rule_message: Seq<char>,
}

/// One located occurrence of a rule's pattern in one file.
#[derive(Debug, PartialEq, Eq)]
pub struct Match {
    /// Path of the file, as the file source presented it.
    pub path: String,
    /// Number of the line, counted from one.
    pub line_number: u64,
    /// The line, without its terminator.
    pub line_text: Vec<u8>,
    /// Where in the line the match stands, if that is known. The searcher
    /// reports whole lines, so the executor leaves it empty.
    pub column_span: Option<(u64, u64)>,
    /// The message of the rule that matched.
    pub rule_message: String,
}

impl View for Match {
    type V = MatchModel;

    open spec fn view(&self) -> MatchModel {
        MatchModel {
            path: self.path@,
            line_number: self.line_number,
            line_text: self.line_text@,
            column_span: self.column_span,
            rule_message: self.rule_message@,
        }
    }
}

/// Mathematical model of a [`RuleError`].
pub enum RuleErrorModel {
    Pattern(PatternErrorModel),
    Scope(ScopeErrorModel),
}

/// Why a rule was skipped.
#[derive(Debug, PartialEq, Eq)]
pub enum RuleError {
    Pattern(PatternError),
    Scope(ScopeError),
}

impl View for RuleError {
    type V = RuleErrorModel;

    open spec fn view(&self) -> RuleErrorModel {
        match self {
            RuleError::Pattern(e) => RuleErrorModel::Pattern(e@),
            RuleError::Scope(e) => RuleErrorModel::Scope(e@),
        }
    }
}

/// Mathematical model of a [`Finding`].
pub enum FindingModel {
    Match(MatchModel),
    FileSkipped { path: Seq<char>, reason: Seq<char> },
    RuleSkipped { rule_id: Seq<char>, error: RuleErrorModel },
}

/// Why a file was skipped: it could not be opened or read, or the search over
/// it failed.
#[derive(Debug, PartialEq, Eq)]
pub struct FileAccessError {
    /// Path of the file, as the file source presented it.
    pub path: String,
    /// What went wrong, in words.
    pub reason: String,
}

/// What the executor yields: a match, or the record of a file or a rule that
/// it had to skip.
#[derive(Debug, PartialEq, Eq)]
pub enum Finding {
    /// A rule matched a line.
    Match(Match),
    /// A file could not be read or searched; it is skipped for this rule.
    FileSkipped(FileAccessError),
    /// A rule could not be compiled or scoped; it is skipped.
    RuleSkipped { rule_id: String, error: RuleError },
}

impl View for Finding {
    type V = FindingModel;

    open spec fn view(&self) -> FindingModel {
        match self {
            Finding::Match(m) => FindingModel::Match(m@),
            Finding::FileSkipped(e) => FindingModel::FileSkipped {
                path: e.path@,
                reason: e.reason@,
            },
            Finding::RuleSkipped { rule_id, error } => FindingModel::RuleSkipped {
                rule_id: rule_id@,
                error: error@,
            },
        }
    }
}

impl DeepView for Finding {
    type V = FindingModel;

    open spec fn deep_view(&self) -> FindingModel {
        self@
    }
}

/// Mathematical model of a [`SourceFile`].
pub struct FileModel {
    pub path: Seq<char>,
    pub content: Result<Seq<u8>, Seq<char>>,
}

/// A candidate file as the file source hands it over: its path, and its
/// content or the reason why it could not be read.
#[derive(Debug, PartialEq, Eq)]
pub struct SourceFile {
    pub path: String,
    pub content: Result<Vec<u8>, String>,
}

impl View for SourceFile {
    type V = FileModel;

    open spec fn view(&self) -> FileModel {
        FileModel {
            path: self.path@,
            content: match self.content {
                Ok(bytes) => Ok(bytes@),
                Err(reason) => Err(reason@),
            },
        }
    }
}

impl DeepView for SourceFile {
    type V = FileModel;

    open spec fn deep_view(&self) -> FileModel {
        self@
    }
}

/// Number of the line that stands `k` lines below line `first`. Saturates at
/// the largest number.
pub open spec fn line_number_at(first: u64, k: int) -> u64 {
    if first + k > u64::MAX {
        u64::MAX
    } else {
        (first + k) as u64
    }
}

/// The matches of one block: one for each of its lines, numbered onwards
/// from the block's first line.
pub open spec fn block_findings(path: Seq<char>, message: Seq<char>, block: (u64, Seq<u8>)) -> Seq<
    FindingModel,
> {
    let lines = lines_of(block.1);
    Seq::new(
        lines.len(),
        |k: int|
            FindingModel::Match(
                MatchModel {
                    path,
                    line_number: line_number_at(block.0, k),
                    line_text: lines[k],
                    column_span: None,
                    rule_message: message,
                },
            ),
    )
}

/// `block_findings` for a fixed path and message.
pub open spec fn per_block(path: Seq<char>, message: Seq<char>) -> spec_fn((u64, Seq<u8>)) -> Seq<
    FindingModel,
> {
    |block: (u64, Seq<u8>)| block_findings(path, message, block)
}

/// What a search outcome amounts to for one file: the matches of its blocks
/// in order, or the record that the file was skipped.
pub open spec fn outcome_findings(
    path: Seq<char>,
    message: Seq<char>,
    outcome: Result<Seq<(u64, Seq<u8>)>, Seq<char>>,
) -> Seq<FindingModel> {
    match outcome {
        Ok(blocks) => blocks.flat_map(per_block(path, message)),
        Err(reason) => seq![FindingModel::FileSkipped { path, reason }],
    }
}

/// What one rule finds in one file. Nothing if the file is out of scope or
/// binary; a skip record if it could not be read or searched; else its
/// matches.
pub open spec fn file_findings(
    compiled: CompiledModel,
    scope: Option<Seq<Seq<char>>>,
    message: Seq<char>,
    file: FileModel,
) -> Seq<FindingModel> {
    if !scope_accepts(scope, file.path) {
        Seq::empty()
    } else {
        match file.content {
            Err(reason) => seq![FindingModel::FileSkipped { path: file.path, reason }],
            Ok(content) => if looks_binary(content) {
                Seq::empty()
            } else {
                outcome_findings(file.path, message, compiled.search(content))
            },
        }
    }
}

/// `file_findings` for a fixed rule.
pub open spec fn per_file(
    compiled: CompiledModel,
    scope: Option<Seq<Seq<char>>>,
    message: Seq<char>,
) -> spec_fn(FileModel) -> Seq<FindingModel> {
    |file: FileModel| file_findings(compiled, scope, message, file)
}

/// What one rule finds in a list of files: a skip record if its pattern does
/// not compile or its scope does not resolve, else what it finds in each
/// file, in the order of the files.
pub open spec fn rule_findings(rule: RuleModel, files: Seq<FileModel>) -> Seq<FindingModel> {
    match compile_spec(rule.pattern) {
        Err(e) => seq![
            FindingModel::RuleSkipped { rule_id: rule.id, error: RuleErrorModel::Pattern(e) },
        ],
        Ok(compiled) => match resolve_spec(rule.glob) {
            Err(e) => seq![
                FindingModel::RuleSkipped { rule_id: rule.id, error: RuleErrorModel::Scope(e) },
            ],
            Ok(scope) => files.flat_map(per_file(compiled, scope, rule.message)),
        },
    }
}

/// `rule_findings` for a fixed list of files.
pub open spec fn per_rule(files: Seq<FileModel>) -> spec_fn(RuleModel) -> Seq<FindingModel> {
    |rule: RuleModel| rule_findings(rule, files)
}

/// What a configuration finds in a list of files: what each rule finds, in
/// the order of the rules.
pub open spec fn findings(rules: Seq<RuleModel>, files: Seq<FileModel>) -> Seq<FindingModel> {
    rules.flat_map(per_rule(files))
}

/// Whether every match among the findings carries a line number of at
/// least one.
pub open spec fn counts_from_one(found: Seq<FindingModel>) -> bool {
    forall|i: int|
        0 <= i < found.len() ==> ((#[trigger] found[i]) matches FindingModel::Match(m)
            ==> m.line_number >= 1)
}

/// Whether every block carries a line number of at least one.
pub open spec fn blocks_count_from_one(blocks: Seq<(u64, Seq<u8>)>) -> bool {
    forall|i: int| 0 <= i < blocks.len() ==> (#[trigger] blocks[i]).0 >= 1
}

/// Appends the matches of one block.
fn append_block(out: &mut Vec<Finding>, path: &str, message: &str, block: &LineBlock)
    ensures
        final(out).deep_view() == old(out).deep_view() + block_findings(path@, message@, block@),
        block.line_number >= 1 && counts_from_one(old(out).deep_view()) ==> counts_from_one(
            final(out).deep_view(),
        ),
{
    let lines = split_lines(block.bytes.as_slice());
    let ghost before = out.deep_view();
    let ghost all = block_findings(path@, message@, block@);
    let mut k: usize = 0;
    assert(before + all.take(0) =~= before);
    while k < lines.len()
        invariant
            k <= lines.len(),
            lines_view(lines@) == lines_of(block@.1),
            all == block_findings(path@, message@, block@),
            out.deep_view() == before + all.take(k as int),
            block.line_number >= 1 && counts_from_one(before) ==> counts_from_one(out.deep_view()),
        decreases lines.len() - k,
    {
        let line_number = block.line_number.saturating_add(k as u64);
        let found = Match {
            path: path.to_owned(),
            line_number,
            line_text: slice_to_vec(lines[k].as_slice()),
            column_span: None,
            rule_message: message.to_owned(),
        };
        assert(lines_view(lines@)[k as int] == lines@[k as int]@);
        assert(Finding::Match(found)@ == all[k as int]);
        let ghost prev = out.deep_view();
        out.push(Finding::Match(found));
        assert(out.deep_view() =~= prev.push(all[k as int]));
        assert(all.take(k + 1) =~= all.take(k as int).push(all[k as int]));
        assert(out.deep_view() =~= before + all.take(k + 1));
        k = k + 1;
    }
    assert(all.take(k as int) =~= all);
}

/// Appends what a search outcome amounts to for the file at `path`.
pub fn append_outcome(
    out: &mut Vec<Finding>,
    path: &str,
    message: &str,
    outcome: Result<Vec<LineBlock>, String>,
)
    ensures
        final(out).deep_view() == old(out).deep_view() + outcome_findings(
            path@,
            message@,
            search_view(outcome),
        ),
        (outcome matches Ok(blocks) ==> blocks_count_from_one(blocks.deep_view()))
            && counts_from_one(old(out).deep_view()) ==> counts_from_one(final(out).deep_view()),
{
    let ghost before = out.deep_view();
    match outcome {
        Err(reason) => {
            out.push(Finding::FileSkipped(FileAccessError { path: path.to_owned(), reason }));
            assert(out.deep_view() =~= before + seq![
                FindingModel::FileSkipped { path: path@, reason: reason@ },
            ]);
        },
        Ok(blocks) => {
            let ghost model = blocks.deep_view();
            let ghost f = per_block(path@, message@);
            let mut i: usize = 0;
            assert(model.take(0).flat_map(f) =~= Seq::<FindingModel>::empty()) by {
                assert(model.take(0).map_values(f) =~= Seq::<Seq<FindingModel>>::empty());
            }
            assert(before + model.take(0).flat_map(f) =~= before);
            while i < blocks.len()
                invariant
                    i <= blocks.len(),
                    model == blocks.deep_view(),
                    f == per_block(path@, message@),
                    out.deep_view() == before + model.take(i as int).flat_map(f),
                    blocks_count_from_one(model) && counts_from_one(before) ==> counts_from_one(
                        out.deep_view(),
                    ),
                decreases blocks.len() - i,
            {
                assert(model[i as int].0 == blocks[i as int].line_number);
                append_block(out, path, message, &blocks[i]);
                proof {
                    model.lemma_flat_map_take_append(f, i as int);
                    assert(model[i as int] == blocks[i as int]@);
                    assert(out.deep_view() =~= before + model.take(i + 1).flat_map(f));
                }
                i = i + 1;
            }
            assert(model.take(i as int) =~= model);
        },
    }
}

/// Runs one compiled rule over one file and appends what it finds.
pub fn scan_file(
    out: &mut Vec<Finding>,
    compiled: &CompiledPattern,
    scope: &Scope,
    message: &str,
    file: &SourceFile,
)
    ensures
        final(out).deep_view() == old(out).deep_view() + file_findings(
            compiled@,
            scope@,
            message@,
            file@,
        ),
        counts_from_one(old(out).deep_view()) ==> counts_from_one(final(out).deep_view()),
{
    let ghost before = out.deep_view();
    assert(before + Seq::<FindingModel>::empty() =~= before);
    if !scope.accepts(file.path.as_str()) {
        return ;
    }
    match &file.content {
        Err(reason) => {
            out.push(
                Finding::FileSkipped(
                    FileAccessError { path: file.path.clone(), reason: reason.clone() },
                ),
            );
            assert(out.deep_view() =~= before + seq![
                FindingModel::FileSkipped { path: file.path@, reason: reason@ },
            ]);
        },
        Ok(content) => {
            if is_binary(content.as_slice()) {
                return ;
            }
            let outcome = compiled.search(content.as_slice());
            append_outcome(out, file.path.as_str(), message, outcome);
        },
    }
}

/// Compiles and scopes one rule, runs it over the files in order and appends
/// what it finds. A rule that does not compile or resolve leaves one skip
/// record and touches no file.
pub fn run_rule(out: &mut Vec<Finding>, rule: &Rule, files: &Vec<SourceFile>)
    ensures
        final(out).deep_view() == old(out).deep_view() + rule_findings(rule@, files.deep_view()),
        counts_from_one(old(out).deep_view()) ==> counts_from_one(final(out).deep_view()),
{
    let ghost before = out.deep_view();
    let compiled = match CompiledPattern::compile(&rule.pattern) {
        Ok(compiled) => compiled,
        Err(e) => {
            out.push(Finding::RuleSkipped { rule_id: rule.id.clone(), error: RuleError::Pattern(e) });
            assert(out.deep_view() =~= before + seq![
                FindingModel::RuleSkipped { rule_id: rule.id@, error: RuleErrorModel::Pattern(e@) },
            ]);
            return ;
        },
    };
    let scope = match Scope::resolve(&rule.glob) {
        Ok(scope) => scope,
        Err(e) => {
            out.push(Finding::RuleSkipped { rule_id: rule.id.clone(), error: RuleError::Scope(e) });
            assert(out.deep_view() =~= before + seq![
                FindingModel::RuleSkipped { rule_id: rule.id@, error: RuleErrorModel::Scope(e@) },
            ]);
            return ;
        },
    };
    let ghost model = files.deep_view();
    let ghost f = per_file(compiled@, scope@, rule.message@);
    let mut i: usize = 0;
    assert(model.take(0).flat_map(f) =~= Seq::<FindingModel>::empty()) by {
        assert(model.take(0).map_values(f) =~= Seq::<Seq<FindingModel>>::empty());
    }
    assert(before + model.take(0).flat_map(f) =~= before);
    while i < files.len()
        invariant
            i <= files.len(),
            model == files.deep_view(),
            f == per_file(compiled@, scope@, rule.message@),
            out.deep_view() == before + model.take(i as int).flat_map(f),
            counts_from_one(before) ==> counts_from_one(out.deep_view()),
        decreases files.len() - i,
    {
        scan_file(out, &compiled, &scope, rule.message.as_str(), &files[i]);
        proof {
            model.lemma_flat_map_take_append(f, i as int);
            assert(model[i as int] == files[i as int]@);
            assert(out.deep_view() =~= before + model.take(i + 1).flat_map(f));
        }
        i = i + 1;
    }
    assert(model.take(i as int) =~= model);
}

/// Runs every rule of the configuration over the files, rule by rule in the
/// order declared and file by file in the order given.
pub fn run(conf: &Config, files: &Vec<SourceFile>) -> (out: Vec<Finding>)
    ensures
        out.deep_view() == findings(conf@, files.deep_view()),
        counts_from_one(out.deep_view()),
{
    let mut out: Vec<Finding> = Vec::new();
    let ghost model = conf@;
    let ghost f = per_rule(files.deep_view());
    let mut i: usize = 0;
    assert(model.take(0).flat_map(f) =~= Seq::<FindingModel>::empty()) by {
        assert(model.take(0).map_values(f) =~= Seq::<Seq<FindingModel>>::empty());
    }
    assert(out.deep_view() =~= model.take(0).flat_map(f));
    while i < conf.rules.len()
        invariant
            i <= conf.rules.len(),
            model == conf@,
            f == per_rule(files.deep_view()),
            out.deep_view() == model.take(i as int).flat_map(f),
            counts_from_one(out.deep_view()),
        decreases conf.rules.len() - i,
    {
        run_rule(&mut out, &conf.rules[i], files);
        proof {
            model.lemma_flat_map_take_append(f, i as int);
            assert(model[i as int] == conf.rules[i as int]@);
        }
        i = i + 1;
    }
    assert(model.take(i as int) =~= model);
    out
}

} // verus!
