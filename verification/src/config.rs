//! The rule model: the configuration as it is held in memory.

use std::str::FromStr;
use void::Void;
use vstd::prelude::*;

verus! {

/// Name of the configuration file, relative to the working directory.
pub const DEFAULT_CONF: &'static str = "goodcheck.yml";

/// `void::Void`, the error type of a conversion that cannot fail. It has no
/// value; it is declared so that it can stand in a signature.
#[verifier::external_type_specification]
#[verifier::external_body]
pub struct ExVoid(Void);

/// Mathematical model of a [`RulePattern`].
pub struct PatternModel {
    pub string: Option<Seq<char>>,
    pub regexp: Option<Seq<char>>,
    pub literal: Option<Seq<char>>,
    pub token: Option<Seq<char>>,
    pub case_sensitive: bool,
    pub multiline: bool,
}

/// The full form of a pattern specification: up to four alternative pattern
/// fields and two mode flags.
#[derive(Debug, PartialEq, Eq)]
pub struct RulePattern {
    pub string: Option<String>,
    pub regexp: Option<String>,
    pub literal: Option<String>,
    pub token: Option<String>,
    pub case_sensitive: bool,
    pub multiline: bool,
}

impl View for RulePattern {
    type V = PatternModel;

    open spec fn view(&self) -> PatternModel {
        PatternModel {
            string: self.string.deep_view(),
            regexp: self.regexp.deep_view(),
            literal: self.literal.deep_view(),
            token: self.token.deep_view(),
            case_sensitive: self.case_sensitive,
            multiline: self.multiline,
        }
    }
}

impl DeepView for RulePattern {
    type V = PatternModel;

    open spec fn deep_view(&self) -> PatternModel {
        self@
    }
}

/// The pattern that a bare string stands for: the string itself under the
/// default flags.
pub open spec fn shorthand_pattern(text: Seq<char>) -> PatternModel {
    PatternModel {
        string: Some(text),
        regexp: None,
        literal: None,
        token: None,
        case_sensitive: true,
        multiline: false,
    }
}

impl RulePattern {
    /// Case sensitivity of a pattern that does not say otherwise.
    pub fn default_case_sensitive() -> (b: bool)
        ensures
            b,
    {
        true
    }

    /// Multi-line mode of a pattern that does not say otherwise.
    pub fn default_multiline() -> (b: bool)
        ensures
            !b,
    {
        false
    }
}

impl FromStr for RulePattern {
    type Err = Void;

    fn from_str(s: &str) -> (r: Result<Self, Self::Err>)
        ensures
            r is Ok,
            r.unwrap()@ == shorthand_pattern(s@),
    {
        Ok(
            RulePattern {
                string: Some(s.to_owned()),
                regexp: None,
                literal: None,
                token: None,
                case_sensitive: RulePattern::default_case_sensitive(),
                multiline: RulePattern::default_multiline(),
            },
        )
    }
}

impl Default for RulePattern {
    /// A pattern with no field populated, under the default flags.
    fn default() -> (p: RulePattern)
        ensures
            p@ == (PatternModel {
                string: None,
                regexp: None,
                literal: None,
                token: None,
                case_sensitive: true,
                multiline: false,
            }),
    {
        RulePattern {
            string: None,
            regexp: None,
            literal: None,
            token: None,
            case_sensitive: RulePattern::default_case_sensitive(),
            multiline: RulePattern::default_multiline(),
        }
    }
}

/// The pattern string that a specification resolves to: the first populated
/// field in the order `string`, `regexp`, `literal`, `token`.
pub open spec fn effective_pattern(p: PatternModel) -> Option<Seq<char>> {
    if p.string is Some {
        p.string
    } else if p.regexp is Some {
        p.regexp
    } else if p.literal is Some {
        p.literal
    } else {
        p.token
    }
}

impl RulePattern {
    /// The pattern string that this specification resolves to, if any field
    /// is populated.
    pub fn effective(&self) -> (r: Option<&String>)
        ensures
            r.deep_view() == effective_pattern(self@),
    {
        if self.string.is_some() {
            self.string.as_ref()
        } else if self.regexp.is_some() {
            self.regexp.as_ref()
        } else if self.literal.is_some() {
            self.literal.as_ref()
        } else {
            self.token.as_ref()
        }
    }
}

/// A pattern as a rule author writes it: a bare string, or the full form.
#[derive(Debug, PartialEq, Eq)]
pub enum PatternSpec {
    Shorthand(String),
    Full(RulePattern),
}

impl PatternSpec {
    /// The full form that both ways of writing a pattern come down to.
    pub open spec fn normal_form(self) -> PatternModel {
        match self {
            PatternSpec::Shorthand(text) => shorthand_pattern(text@),
            PatternSpec::Full(pattern) => pattern@,
        }
    }

    /// Brings either form to the full form, so that nothing downstream has to
    /// tell the two apart.
    pub fn normalize(self) -> (p: RulePattern)
        ensures
            p@ == self.normal_form(),
    {
        match self {
            PatternSpec::Shorthand(text) => RulePattern {
                string: Some(text),
                regexp: None,
                literal: None,
                token: None,
                case_sensitive: RulePattern::default_case_sensitive(),
                multiline: RulePattern::default_multiline(),
            },
            PatternSpec::Full(pattern) => pattern,
        }
    }
}

/// Mathematical model of a [`Rule`].
pub struct RuleModel {
    pub id: Seq<char>,
    pub pattern: PatternModel,
    pub message: Seq<char>,
    pub justification: Option<Seq<Seq<char>>>,
    pub glob: Option<Seq<Seq<char>>>,
    pub pass: Option<Seq<Seq<char>>>,
    pub fail: Option<Seq<Seq<char>>>,
}

/// One kind of text violation to detect: what to look for, what to say about
/// it, and where to look.
#[derive(Debug, PartialEq, Eq)]
pub struct Rule {
    pub id: String,
    pub pattern: RulePattern,
    pub message: String,
    pub justification: Option<Vec<String>>,
    pub glob: Option<Vec<String>>,
    pub pass: Option<Vec<String>>,
    pub fail: Option<Vec<String>>,
}

impl View for Rule {
    type V = RuleModel;

    open spec fn view(&self) -> RuleModel {
        RuleModel {
            id: self.id@,
            pattern: self.pattern@,
            message: self.message@,
            justification: self.justification.deep_view(),
            glob: self.glob.deep_view(),
            pass: self.pass.deep_view(),
            fail: self.fail.deep_view(),
        }
    }
}

impl DeepView for Rule {
    type V = RuleModel;

    open spec fn deep_view(&self) -> RuleModel {
        self@
    }
}

/// An ordered list of rules. The order is the order of the report.
#[derive(Debug, PartialEq, Eq)]
pub struct Config {
    pub rules: Vec<Rule>,
}

impl View for Config {
    type V = Seq<RuleModel>;

    open spec fn view(&self) -> Seq<RuleModel> {
        self.rules.deep_view()
    }
}

impl DeepView for Config {
    type V = Seq<RuleModel>;

    open spec fn deep_view(&self) -> Seq<RuleModel> {
        self@
    }
}

/// Mathematical model of a [`ConfigError`].
pub enum ConfigErrorModel {
    Unreadable(Seq<char>),
    Malformed(Seq<char>),
    EmptyPattern(Seq<char>),
}

/// Why a configuration could not be loaded.
#[derive(Debug, PartialEq, Eq)]
pub enum ConfigError {
    /// The file is missing or cannot be read; carries the reason.
    Unreadable(String),
    /// The file does not follow the schema; carries the parser's message.
    Malformed(String),
    /// A rule's pattern has no field populated; carries the rule's id.
    EmptyPattern(String),
}

impl View for ConfigError {
    type V = ConfigErrorModel;

    open spec fn view(&self) -> ConfigErrorModel {
        match self {
            ConfigError::Unreadable(reason) => ConfigErrorModel::Unreadable(reason@),
            ConfigError::Malformed(reason) => ConfigErrorModel::Malformed(reason@),
            ConfigError::EmptyPattern(id) => ConfigErrorModel::EmptyPattern(id@),
        }
    }
}

impl ConfigErrorModel {
    /// The error in words.
    pub open spec fn text(self) -> Seq<char> {
        match self {
            ConfigErrorModel::Unreadable(reason) => reason,
            ConfigErrorModel::Malformed(reason) => reason,
            ConfigErrorModel::EmptyPattern(id) => "rule "@ + id + ": no pattern given"@,
        }
    }
}

impl ConfigError {
    /// The error in words.
    pub fn message(&self) -> (text: String)
        ensures
            text@ == self@.text(),
    {
        match self {
            ConfigError::Unreadable(reason) => reason.clone(),
            ConfigError::Malformed(reason) => reason.clone(),
            ConfigError::EmptyPattern(id) => {
                let mut text = "rule ".to_owned();
                text.append(id.as_str());
                text.append(": no pattern given");
                text
            },
        }
    }
}

/// Whether `i` is the first rule of `rules` whose pattern has no field
/// populated.
pub open spec fn first_empty_pattern(rules: Seq<RuleModel>, i: int) -> bool {
    &&& 0 <= i < rules.len()
    &&& effective_pattern(rules[i].pattern) is None
    &&& forall|j: int| 0 <= j < i ==> effective_pattern(#[trigger] rules[j].pattern) is Some
}

/// Whether every rule of `rules` resolves to a pattern string.
pub open spec fn all_patterns_populated(rules: Seq<RuleModel>) -> bool {
    forall|j: int| 0 <= j < rules.len() ==> effective_pattern(#[trigger] rules[j].pattern) is Some
}

impl Config {
    /// Checks that every rule resolves to a pattern string. On failure names
    /// the first rule that does not.
    pub fn validate(&self) -> (r: Result<(), ConfigError>)
        ensures
            r is Ok <==> all_patterns_populated(self@),
            r is Err ==> exists|i: int|
                #[trigger] first_empty_pattern(self@, i) && r->Err_0@
                    == ConfigErrorModel::EmptyPattern(self@[i].id),
    {
        let mut i: usize = 0;
        while i < self.rules.len()
            invariant
                i <= self.rules.len(),
                forall|j: int| 0 <= j < i ==> effective_pattern(#[trigger] self@[j].pattern) is Some,
            decreases self.rules.len() - i,
        {
            let rule = &self.rules[i];
            assert(self@[i as int] == rule@);
            if rule.pattern.effective().is_none() {
                assert(first_empty_pattern(self@, i as int));
                return Err(ConfigError::EmptyPattern(rule.id.clone()));
            }
            i = i + 1;
        }
        Ok(())
    }
}

/// Completes the loading of a configuration. What could not be read or
/// decoded stays the error it is; what was decoded is validated, and is the
/// configuration only if every rule resolves to a pattern string.
pub fn load_config(decoded: Result<Config, ConfigError>) -> (r: Result<Config, ConfigError>)
    ensures
        match decoded {
            Err(_) => r == decoded,
            Ok(conf) => if all_patterns_populated(conf@) {
                r == decoded
            } else {
                r is Err && exists|i: int|
                    #[trigger] first_empty_pattern(conf@, i) && r->Err_0@
                        == ConfigErrorModel::EmptyPattern(conf@[i].id)
            },
        },
{
    match decoded {
        Err(e) => Err(e),
        Ok(conf) => match conf.validate() {
            Ok(()) => Ok(conf),
            Err(e) => Err(e),
        },
    }
}

} // verus!
