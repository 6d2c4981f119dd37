//! The `init` entry point: decides whether a starter configuration is
//! written.

use vstd::prelude::*;

verus! {

/// The starter configuration.
pub const INIT_TEMPLATE: &'static str = "rules:
  - id: com.example.1
    pattern: Github
    message: Do you want to write GitHub?
    glob: 
      - \"**/*.rb\"
      - \"**/*.yaml\"
      - \"**/*.yml\"
      - \"**/*.html\"
    fail:
      - Signup via Github
    pass:
      - Signup via GitHub
";

/// What is said when a configuration file is already there.
pub const ALREADY_EXISTS: &'static str =
    "already exists 'goodcheck.yml' file in the currenct directory📄";

/// What is said when the starter configuration was written.
pub const WRITTEN: &'static str = "write 'goodcheck.yml' file in the currenct directory👍";

/// Mathematical model of an [`InitPlan`].
pub struct InitPlanModel {
    pub content: Option<Seq<char>>,
    pub message: Seq<char>,
}

/// What `init` does: the content to write to the configuration file, if any,
/// and the message to print.
#[derive(Debug, PartialEq, Eq)]
pub struct InitPlan {
    pub content: Option<String>,
    pub message: String,
}

impl View for InitPlan {
    type V = InitPlanModel;

    open spec fn view(&self) -> InitPlanModel {
        InitPlanModel { content: self.content.deep_view(), message: self.message@ }
    }
}

/// The plan for a directory in which the configuration file exists or does
/// not: an existing file is never overwritten.
pub open spec fn init_plan(exists: bool) -> InitPlanModel {
    if exists {
        InitPlanModel { content: None, message: ALREADY_EXISTS@ }
    } else {
        InitPlanModel { content: Some(INIT_TEMPLATE@), message: WRITTEN@ }
    }
}

/// Decides what `init` does, given whether the configuration file exists.
pub fn execute(exists: bool) -> (plan: InitPlan)
    ensures
        plan@ == init_plan(exists),
{
    if exists {
        InitPlan { content: None, message: ALREADY_EXISTS.to_owned() }
    } else {
        InitPlan { content: Some(INIT_TEMPLATE.to_owned()), message: WRITTEN.to_owned() }
    }
}

} // verus!
