//! What holds of every run of the engine, proved from the definitions of the
//! other modules.

use crate::config::RuleModel;
use crate::content::looks_binary;
use crate::pattern::compile_spec;
use crate::report::match_line;
use crate::report::per_finding;
use crate::report::report_spec;
use crate::report::same_file;
use crate::report::LineModel;
use crate::report::Stream;
use crate::scope::glob_matches;
use crate::scope::resolve_spec;
use crate::scope::scope_accepts;
use crate::search::findings;
use crate::search::outcome_findings;
use crate::search::per_block;
use crate::search::per_file;
use crate::search::per_rule;
use crate::search::rule_findings;
use crate::search::FileModel;
use crate::search::FindingModel;
use crate::search::RuleErrorModel;
use crate::sequences::lemma_flat_map_agreeing;
use crate::sequences::lemma_flat_map_origin;
use crate::sequences::lemma_flat_map_reordered;
use crate::sequences::lemma_flat_map_split;
use vstd::prelude::*;

verus! {

/// The order in which the file source presents the files does not change
/// what one rule finds, taken as a multiset.
pub proof fn lemma_rule_ignores_file_order(rule: RuleModel, files: Seq<FileModel>, reordered: Seq<FileModel>)
    requires
        files.to_multiset() == reordered.to_multiset(),
    ensures
        rule_findings(rule, files).to_multiset() == rule_findings(rule, reordered).to_multiset(),
{
    match compile_spec(rule.pattern) {
        Err(_) => {},
        Ok(compiled) => match resolve_spec(rule.glob) {
            Err(_) => {},
            Ok(scope) => {
                lemma_flat_map_reordered(files, reordered, per_file(compiled, scope, rule.message));
            },
        },
    }
}

/// What a configuration finds in a set of files is a function of the rules
/// and the files: the same rules over the same files in the same order give
/// the same findings and the same report, line for line. Over the same files
/// in another order they give the same findings and the same report as
/// multisets.
pub proof fn theorem_runs_are_deterministic(
    rules: Seq<RuleModel>,
    files: Seq<FileModel>,
    reordered: Seq<FileModel>,
    config_path: Seq<char>,
)
    requires
        files.to_multiset() == reordered.to_multiset(),
    ensures
        files == reordered ==> report_spec(findings(rules, files), config_path) == report_spec(
            findings(rules, reordered),
            config_path,
        ),
        findings(rules, files).to_multiset() == findings(rules, reordered).to_multiset(),
        report_spec(findings(rules, files), config_path).to_multiset() == report_spec(
            findings(rules, reordered),
            config_path,
        ).to_multiset(),
{
    let f = per_rule(files);
    let g = per_rule(reordered);
    assert forall|i: int| 0 <= i < rules.len() implies f(#[trigger] rules[i]).to_multiset() == g(
        rules[i],
    ).to_multiset() by {
        lemma_rule_ignores_file_order(rules[i], files, reordered);
    }
    lemma_flat_map_agreeing(rules, f, g);
    lemma_flat_map_reordered(
        findings(rules, files),
        findings(rules, reordered),
        per_finding(config_path),
    );
}

/// Rules are evaluated independently. What a configuration finds is what the
/// rules before rule `i` find, then what rule `i` finds by itself, then what
/// the rules after it find.
pub proof fn theorem_rules_are_independent(rules: Seq<RuleModel>, files: Seq<FileModel>, i: int)
    requires
        0 <= i < rules.len(),
    ensures
        findings(rules, files) == findings(rules.take(i), files) + rule_findings(rules[i], files)
            + findings(rules.skip(i + 1), files),
{
    lemma_flat_map_split(rules, per_rule(files), i);
}

/// A rule whose pattern does not compile is reported and skipped, and the
/// scan goes on: of two rules of which the first is broken, the findings are
/// the record of the first rule's error and then all that the second rule
/// finds by itself.
pub proof fn theorem_broken_rule_does_not_stop_the_scan(
    broken: RuleModel,
    next: RuleModel,
    files: Seq<FileModel>,
)
    requires
        compile_spec(broken.pattern) is Err,
    ensures
        findings(seq![broken, next], files) == seq![
            FindingModel::RuleSkipped {
                rule_id: broken.id,
                error: RuleErrorModel::Pattern(compile_spec(broken.pattern)->Err_0),
            },
        ] + rule_findings(next, files),
{
    let rules = seq![broken, next];
    theorem_rules_are_independent(rules, files, 0);
    assert(rules.take(0).map_values(per_rule(files)) =~= Seq::<Seq<FindingModel>>::empty());
    assert(rules.skip(1) =~= seq![next]);
    seq![next].lemma_flat_map_singleton(per_rule(files));
    assert(findings(rules.take(0), files) + rule_findings(broken, files) =~= rule_findings(
        broken,
        files,
    ));
}

/// A rule reports a match only in a file that its scope accepts: every match
/// among the findings of a rule carries the path of one of the files and the
/// message of the rule, and the rule's scope accepts that path.
pub proof fn theorem_matches_lie_in_scope(rule: RuleModel, files: Seq<FileModel>, k: int) -> (j: int)
    requires
        0 <= k < rule_findings(rule, files).len(),
        rule_findings(rule, files)[k] is Match,
    ensures
        0 <= j < files.len(),
        files[j].path == rule_findings(rule, files)[k]->Match_0.path,
        resolve_spec(rule.glob) is Ok,
        scope_accepts(resolve_spec(rule.glob)->Ok_0, files[j].path),
        rule_findings(rule, files)[k]->Match_0.rule_message == rule.message,
{
    let compiled = compile_spec(rule.pattern)->Ok_0;
    let scope = resolve_spec(rule.glob)->Ok_0;
    let at = lemma_flat_map_origin(files, per_file(compiled, scope, rule.message), k);
    let file = files[at.0];
    let blocks = compiled.search(file.content->Ok_0)->Ok_0;
    let within = lemma_flat_map_origin(blocks, per_block(file.path, rule.message), at.1);
    at.0
}

/// A rule reports every match in a file that its scope accepts: where such a
/// file can be read and is not binary, the findings of the rule hold what the
/// search over it amounts to, between what the files before it and after it
/// contribute.
pub proof fn theorem_in_scope_file_is_reported(rule: RuleModel, files: Seq<FileModel>, j: int)
    requires
        0 <= j < files.len(),
        compile_spec(rule.pattern) is Ok,
        resolve_spec(rule.glob) is Ok,
        scope_accepts(resolve_spec(rule.glob)->Ok_0, files[j].path),
        files[j].content is Ok,
        !looks_binary(files[j].content->Ok_0),
    ensures
        rule_findings(rule, files) == rule_findings(rule, files.take(j)) + outcome_findings(
            files[j].path,
            rule.message,
            compile_spec(rule.pattern)->Ok_0.search(files[j].content->Ok_0),
        ) + rule_findings(rule, files.skip(j + 1)),
{
    let compiled = compile_spec(rule.pattern)->Ok_0;
    let scope = resolve_spec(rule.glob)->Ok_0;
    lemma_flat_map_split(files, per_file(compiled, scope, rule.message), j);
}

/// A file out of a rule's scope contributes nothing, whatever it holds.
pub proof fn theorem_out_of_scope_file_is_silent(rule: RuleModel, files: Seq<FileModel>, j: int)
    requires
        0 <= j < files.len(),
        compile_spec(rule.pattern) is Ok,
        resolve_spec(rule.glob) is Ok,
        !scope_accepts(resolve_spec(rule.glob)->Ok_0, files[j].path),
    ensures
        rule_findings(rule, files) == rule_findings(rule, files.take(j)) + rule_findings(
            rule,
            files.skip(j + 1),
        ),
{
    let compiled = compile_spec(rule.pattern)->Ok_0;
    let scope = resolve_spec(rule.glob)->Ok_0;
    lemma_flat_map_split(files, per_file(compiled, scope, rule.message), j);
    assert(rule_findings(rule, files.take(j)) + Seq::<FindingModel>::empty() =~= rule_findings(
        rule,
        files.take(j),
    ));
}

/// Globs are alternatives. A path that one glob of a list matches is in the
/// scope of the list, whatever other globs stand before or after that one.
pub proof fn theorem_any_glob_is_enough(
    before: Seq<Seq<char>>,
    glob: Seq<char>,
    after: Seq<Seq<char>>,
    path: Seq<char>,
)
    requires
        glob_matches(glob, path),
    ensures
        scope_accepts(Some(before + seq![glob] + after), path),
{
    let globs = before + seq![glob] + after;
    assert(globs[before.len() as int] == glob);
}

/// A rule without a glob list is evaluated against every file: its scope
/// resolves without error and accepts every path.
pub proof fn theorem_no_glob_means_every_file(rule: RuleModel, path: Seq<char>)
    requires
        rule.glob is None,
    ensures
        resolve_spec(rule.glob) is Ok,
        scope_accepts(resolve_spec(rule.glob)->Ok_0, path),
{
}

/// No line of the report stands for a match in the configuration file: every
/// line on standard output reports a match among the findings whose path does
/// not name the configuration file.
pub proof fn theorem_config_file_is_never_reported(
    found: Seq<FindingModel>,
    config_path: Seq<char>,
    k: int,
) -> (i: int)
    requires
        0 <= k < report_spec(found, config_path).len(),
        report_spec(found, config_path)[k].stream == Stream::Stdout,
    ensures
        0 <= i < found.len(),
        found[i] is Match,
        !same_file(found[i]->Match_0.path, config_path),
        report_spec(found, config_path)[k].text == match_line(found[i]->Match_0),
{
    let at = lemma_flat_map_origin(found, per_finding(config_path), k);
    at.0
}

/// A match in the configuration file leaves no line in the report.
pub proof fn theorem_config_file_match_leaves_no_line(
    found: Seq<FindingModel>,
    config_path: Seq<char>,
    i: int,
)
    requires
        0 <= i < found.len(),
        found[i] is Match,
        same_file(found[i]->Match_0.path, config_path),
    ensures
        report_spec(found, config_path) == report_spec(found.take(i), config_path) + report_spec(
            found.skip(i + 1),
            config_path,
        ),
{
    lemma_flat_map_split(found, per_finding(config_path), i);
    assert(report_spec(found.take(i), config_path) + Seq::<LineModel>::empty() =~= report_spec(
        found.take(i),
        config_path,
    ));
}

} // verus!
