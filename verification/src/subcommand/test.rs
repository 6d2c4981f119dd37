//! The `test` entry point: says whether the configuration is valid. It never
//! runs a rule against a file.

use crate::config::Config;
use crate::config::ConfigError;
use crate::config::ConfigErrorModel;
use crate::report::append_decimal;
use crate::report::decimal;
use crate::util::Tone;
use vstd::prelude::*;

verus! {

/// Mathematical model of a [`Segment`].
pub struct SegmentModel {
    pub tone: Tone,
    pub text: Seq<char>,
}

/// A span of output in one tone.
#[derive(Debug, PartialEq, Eq)]
pub struct Segment {
    pub tone: Tone,
    pub text: String,
}

impl View for Segment {
    type V = SegmentModel;

    open spec fn view(&self) -> SegmentModel {
        SegmentModel { tone: self.tone, text: self.text@ }
    }
}

impl DeepView for Segment {
    type V = SegmentModel;

    open spec fn deep_view(&self) -> SegmentModel {
        self@
    }
}

/// The outcome of validation: how many tests of the configuration failed, and
/// what to print.
#[derive(Debug, PartialEq, Eq)]
pub struct Summary {
    pub failures: u64,
    pub output: Vec<Segment>,
}

/// The number of failed checks: none for a configuration that loaded, one for
/// one that did not.
pub open spec fn failure_count(error: Option<ConfigErrorModel>) -> nat {
    if error is Some {
        1
    } else {
        0
    }
}

/// What the validator prints: the result of the check, and the summary.
pub open spec fn summary_output(error: Option<ConfigErrorModel>) -> Seq<SegmentModel> {
    match error {
        None => seq![
            SegmentModel { tone: Tone::Success, text: "ok"@ },
            SegmentModel { tone: Tone::Plain, text: " - yaml format and config keys\n"@ },
            SegmentModel { tone: Tone::Success, text: "configuration is valid\n"@ },
        ],
        Some(e) => seq![
            SegmentModel { tone: Tone::Failure, text: "fail"@ },
            SegmentModel { tone: Tone::Plain, text: " - "@ + e.text() + "\n"@ },
            SegmentModel {
                tone: Tone::Failure,
                text: "configuration is invalid. fail: "@ + decimal(failure_count(error)) + "\n"@,
            },
        ],
    }
}

/// The error of a load result, if it is one.
pub open spec fn load_error(conf: Result<Config, ConfigError>) -> Option<ConfigErrorModel> {
    match conf {
        Ok(_) => None,
        Err(e) => Some(e@),
    }
}

/// Judges the result of loading the configuration.
pub fn execute(conf: &Result<Config, ConfigError>) -> (summary: Summary)
    ensures
        summary.failures == failure_count(load_error(*conf)),
        summary.output.deep_view() == summary_output(load_error(*conf)),
{
    let mut output: Vec<Segment> = Vec::new();
    let mut failures: u64 = 0;
    match conf {
        Ok(_) => {
            output.push(Segment { tone: Tone::Success, text: "ok".to_owned() });
            output.push(
                Segment { tone: Tone::Plain, text: " - yaml format and config keys\n".to_owned() },
            );
        },
        Err(e) => {
            failures = failures + 1;
            let mut text = " - ".to_owned();
            text.append(e.message().as_str());
            text.append("\n");
            output.push(Segment { tone: Tone::Failure, text: "fail".to_owned() });
            output.push(Segment { tone: Tone::Plain, text });
        },
    }
    if failures == 0 {
        output.push(Segment { tone: Tone::Success, text: "configuration is valid\n".to_owned() });
    } else {
        let mut text = "configuration is invalid. fail: ".to_owned();
        append_decimal(&mut text, failures);
        text.append("\n");
        output.push(Segment { tone: Tone::Failure, text });
    }
    assert(output.deep_view() =~= summary_output(load_error(*conf)));
    Summary { failures, output }
}

} // verus!
