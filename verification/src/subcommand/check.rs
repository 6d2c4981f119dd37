//! The `check` entry point: runs the configuration over the candidate files
//! and returns the report.

use crate::config::Config;
use crate::config::DEFAULT_CONF;
use crate::report::report;
use crate::report::report_spec;
use crate::report::OutputLine;
use crate::search::findings;
use crate::search::run;
use crate::search::SourceFile;
use vstd::prelude::*;

verus! {

/// Runs every rule of `conf` over `files` and renders what it finds: matches
/// for standard output, skipped rules and files for standard error, in the
/// order rule by rule and file by file. Matches in the configuration file
/// itself are left out.
pub fn execute(conf: Config, files: &Vec<SourceFile>) -> (lines: Vec<OutputLine>)
    ensures
        lines.deep_view() == report_spec(findings(conf@, files.deep_view()), DEFAULT_CONF@),
{
    let found = run(&conf, files);
    report(&found, DEFAULT_CONF)
}

} // verus!
