use goodcheck::config::Config;
use goodcheck::config::Rule;
use goodcheck::config::RulePattern;
use goodcheck::pattern::PatternError;
use goodcheck::report::OutputLine;
use goodcheck::report::Stream;
use goodcheck::scope::ScopeError;
use goodcheck::search::run;
use goodcheck::search::FileAccessError;
use goodcheck::search::Finding;
use goodcheck::search::Match;
use goodcheck::search::RuleError;
use goodcheck::search::SourceFile;
use goodcheck::subcommand::check::execute;
use std::str::FromStr;

const MESSAGE: &str = "Do you want to write GitHub?";

fn rule(id: &str, pattern: RulePattern, glob: Option<Vec<&str>>) -> Rule {
    Rule {
        id: id.to_string(),
        pattern,
        message: MESSAGE.to_string(),
        justification: None,
        glob: glob.map(|list| list.into_iter().map(|g| g.to_string()).collect()),
        pass: None,
        fail: None,
    }
}

fn full(text: &str, case_sensitive: bool, multiline: bool) -> RulePattern {
    RulePattern {
        string: None,
        regexp: Some(text.to_string()),
        literal: None,
        token: None,
        case_sensitive,
        multiline,
    }
}

fn shorthand(text: &str) -> RulePattern {
    RulePattern::from_str(text).unwrap()
}

fn file(path: &str, content: &str) -> SourceFile {
    SourceFile { path: path.to_string(), content: Ok(content.as_bytes().to_vec()) }
}

fn found(path: &str, line_number: u64, line: &str) -> Finding {
    Finding::Match(Match {
        path: path.to_string(),
        line_number,
        line_text: line.as_bytes().to_vec(),
        column_span: None,
        rule_message: MESSAGE.to_string(),
    })
}

fn stdout(text: &str) -> OutputLine {
    OutputLine { stream: Stream::Stdout, text: text.to_string() }
}

fn stderr(text: &str) -> OutputLine {
    OutputLine { stream: Stream::Stderr, text: text.to_string() }
}

fn sorted(mut lines: Vec<OutputLine>) -> Vec<String> {
    let mut texts: Vec<String> = lines.drain(..).map(|l| l.text).collect();
    texts.sort();
    texts
}

#[test]
fn example_scenario_yields_one_match() {
    let example = Rule {
        id: "com.example.1".to_string(),
        pattern: shorthand("Github"),
        message: MESSAGE.to_string(),
        justification: None,
        glob: Some(vec!["**/*.rb".to_string()]),
        pass: Some(vec!["Signup via GitHub".to_string()]),
        fail: Some(vec!["Signup via Github".to_string()]),
    };
    let conf = Config { rules: vec![example] };
    let files = vec![file(
        "./app.rb",
        "# frozen\nclass App\n  def run\n    # say it\n    puts \"Signup via Github\"\n  end\nend\n",
    )];
    assert_eq!(run(&conf, &files), vec![found("./app.rb", 5, "    puts \"Signup via Github\"")]);
    assert_eq!(execute(conf, &files), vec![stdout("app.rb:5:\tDo you want to write GitHub?")]);
}

#[test]
fn glob_scope_keeps_other_files_out() {
    let conf = Config { rules: vec![rule("r", shorthand("Github"), Some(vec!["**/*.rb"]))] };
    let files = vec![
        file("./settings.yml", "name: Github\n"),
        file("./lib/deep/tool.rb", "x\nGithub\n"),
        file("./top.rb", "Github\n"),
        file("./notes.txt", "Github\n"),
    ];
    assert_eq!(
        run(&conf, &files),
        vec![found("./lib/deep/tool.rb", 2, "Github"), found("./top.rb", 1, "Github")]
    );
}

#[test]
fn any_glob_of_the_list_is_enough() {
    let conf =
        Config { rules: vec![rule("r", shorthand("Github"), Some(vec!["**/*.rb", "**/*.html"]))] };
    let files = vec![
        file("./a.rb", "Github\n"),
        file("./b.html", "Github\n"),
        file("./c.yml", "Github\n"),
    ];
    assert_eq!(run(&conf, &files), vec![found("./a.rb", 1, "Github"), found("./b.html", 1, "Github")]);
}

#[test]
fn empty_glob_list_accepts_nothing() {
    let conf = Config { rules: vec![rule("r", shorthand("Github"), Some(vec![]))] };
    let files = vec![file("./a.rb", "Github\n")];
    assert_eq!(run(&conf, &files), vec![]);
}

#[test]
fn rule_without_glob_sees_every_file() {
    let conf = Config { rules: vec![rule("r", shorthand("Github"), None)] };
    let files = vec![
        file("./settings.yml", "name: Github\n"),
        file("./lib/tool.rb", "x\nGithub\n"),
        file("README", "Github and Github\n"),
    ];
    assert_eq!(
        run(&conf, &files),
        vec![
            found("./settings.yml", 1, "name: Github"),
            found("./lib/tool.rb", 2, "Github"),
            found("README", 1, "Github and Github"),
        ]
    );
}

#[test]
fn case_sensitive_pattern_tells_cases_apart() {
    let files = vec![file("a.txt", "see Github\nsee github\n")];
    let strict = Config { rules: vec![rule("r", full("Github", true, false), None)] };
    assert_eq!(run(&strict, &files), vec![found("a.txt", 1, "see Github")]);
    let loose = Config { rules: vec![rule("r", full("Github", false, false), None)] };
    assert_eq!(
        run(&loose, &files),
        vec![found("a.txt", 1, "see Github"), found("a.txt", 2, "see github")]
    );
}

#[test]
fn shorthand_pattern_is_case_sensitive() {
    let files = vec![file("a.txt", "Signup via Github\nSignup via GitHub\n")];
    let conf = Config { rules: vec![rule("r", shorthand("Github"), None)] };
    assert_eq!(run(&conf, &files), vec![found("a.txt", 1, "Signup via Github")]);
}

#[test]
fn pattern_across_lines_needs_multiline() {
    let files = vec![file("a.txt", "foo\nbar\n")];
    let multi = Config { rules: vec![rule("r", full("foo\\nbar", true, true), None)] };
    assert_eq!(run(&multi, &files), vec![found("a.txt", 1, "foo"), found("a.txt", 2, "bar")]);
    let single = Config { rules: vec![rule("r", full("foo\\nbar", true, false), None)] };
    let result = run(&single, &files);
    assert!(result.iter().all(|f| !matches!(f, Finding::Match(_))));
    assert_eq!(
        result,
        vec![Finding::RuleSkipped {
            rule_id: "r".to_string(),
            error: RuleError::Pattern(PatternError::Invalid(
                "the literal \"\\n\" is not allowed in a regex".to_string()
            )),
        }]
    );
}

#[test]
fn multiline_block_lines_are_numbered_onwards() {
    let files = vec![file("a.txt", "one\ntwo a\nb\nc three\nfour\n")];
    let conf = Config { rules: vec![rule("r", full("a\\nb\\nc", true, true), None)] };
    assert_eq!(
        run(&conf, &files),
        vec![found("a.txt", 2, "two a"), found("a.txt", 3, "b"), found("a.txt", 4, "c three")]
    );
}

#[test]
fn configuration_file_is_never_reported() {
    let conf = Config { rules: vec![rule("r", shorthand("Github"), None)] };
    let files = vec![
        file("./goodcheck.yml", "rules:\n  - pattern: Github\n"),
        file("./doc/goodcheck.yml", "Github\n"),
        file("./a.txt", "Github\n"),
    ];
    assert_eq!(
        execute(conf, &files),
        vec![
            stdout("doc/goodcheck.yml:1:\tDo you want to write GitHub?"),
            stdout("a.txt:1:\tDo you want to write GitHub?"),
        ]
    );
    let again = Config { rules: vec![rule("r", shorthand("Github"), None)] };
    let bare = vec![file("goodcheck.yml", "Github\n")];
    assert_eq!(run(&again, &bare), vec![found("goodcheck.yml", 1, "Github")]);
    assert_eq!(execute(again, &bare), vec![]);
}

#[test]
fn broken_rule_is_reported_and_the_next_one_runs() {
    let conf = Config {
        rules: vec![rule("bad", full("(", true, false), None), rule("good", shorthand("Github"), None)],
    };
    let files = vec![file("./a.txt", "Github\n")];
    let result = run(&conf, &files);
    assert_eq!(result.len(), 2);
    match &result[0] {
        Finding::RuleSkipped { rule_id, error: RuleError::Pattern(PatternError::Invalid(reason)) } => {
            assert_eq!(rule_id, "bad");
            assert!(reason.contains("unclosed group"));
        }
        other => panic!("unexpected finding {:?}", other),
    }
    assert_eq!(result[1], found("./a.txt", 1, "Github"));
    let lines = execute(conf, &files);
    assert_eq!(lines.len(), 2);
    assert_eq!(lines[0].stream, Stream::Stderr);
    assert!(lines[0].text.starts_with("regex error: "));
    assert_eq!(lines[1], stdout("a.txt:1:\tDo you want to write GitHub?"));
}

#[test]
fn rule_without_pattern_is_reported_and_skipped() {
    let conf = Config {
        rules: vec![rule("none", RulePattern::default(), None), rule("good", shorthand("b"), None)],
    };
    let files = vec![file("a.txt", "b\n")];
    assert_eq!(
        run(&conf, &files),
        vec![
            Finding::RuleSkipped {
                rule_id: "none".to_string(),
                error: RuleError::Pattern(PatternError::Empty),
            },
            found("a.txt", 1, "b"),
        ]
    );
    assert_eq!(
        execute(conf, &files),
        vec![stderr("regex error: no pattern given"), stdout("a.txt:1:\tDo you want to write GitHub?")]
    );
}

#[test]
fn invalid_glob_names_the_first_offender() {
    let conf = Config {
        rules: vec![
            rule("scoped", shorthand("b"), Some(vec!["*.txt", "a[", "b{"])),
            rule("good", shorthand("b"), Some(vec!["*.txt"])),
        ],
    };
    let files = vec![file("a.txt", "b\n")];
    assert_eq!(
        run(&conf, &files),
        vec![
            Finding::RuleSkipped {
                rule_id: "scoped".to_string(),
                error: RuleError::Scope(ScopeError::InvalidGlob("a[".to_string())),
            },
            found("a.txt", 1, "b"),
        ]
    );
    assert_eq!(
        execute(conf, &files),
        vec![
            stderr("glob error: invalid glob a["),
            stdout("a.txt:1:\tDo you want to write GitHub?"),
        ]
    );
}

#[test]
fn pattern_error_comes_before_scope_error() {
    let conf = Config { rules: vec![rule("both", full("(", true, false), Some(vec!["a["]))] };
    let result = run(&conf, &vec![]);
    assert_eq!(result.len(), 1);
    assert!(matches!(
        &result[0],
        Finding::RuleSkipped { error: RuleError::Pattern(PatternError::Invalid(_)), .. }
    ));
}

#[test]
fn unreadable_file_is_reported_and_the_scan_goes_on() {
    let conf = Config { rules: vec![rule("r", shorthand("b"), Some(vec!["*.txt"]))] };
    let files = vec![
        SourceFile { path: "./gone.txt".to_string(), content: Err("No such file".to_string()) },
        SourceFile { path: "./gone.rb".to_string(), content: Err("No such file".to_string()) },
        file("./a.txt", "b\n"),
    ];
    assert_eq!(
        run(&conf, &files),
        vec![
            Finding::FileSkipped(FileAccessError { path: "./gone.txt".to_string(), reason: "No such file".to_string() }),
            found("./a.txt", 1, "b"),
        ]
    );
    assert_eq!(
        execute(conf, &files),
        vec![stderr("error: ./gone.txt: No such file"), stdout("a.txt:1:\tDo you want to write GitHub?")]
    );
}

#[test]
fn binary_file_is_skipped_silently() {
    let conf = Config { rules: vec![rule("r", shorthand("Github"), None)] };
    let files = vec![
        SourceFile { path: "blob.bin".to_string(), content: Ok(b"Github\n\x00\x01Github\n".to_vec()) },
        file("a.txt", "Github\n"),
    ];
    assert_eq!(run(&conf, &files), vec![found("a.txt", 1, "Github")]);
}

#[test]
fn rules_report_in_declaration_order_then_file_order() {
    let conf = Config {
        rules: vec![rule("first", shorthand("b"), None), rule("second", shorthand("a"), None)],
    };
    let files = vec![file("2.txt", "a\nb\n"), file("1.txt", "b\na\n")];
    assert_eq!(
        run(&conf, &files),
        vec![
            found("2.txt", 2, "b"),
            found("1.txt", 1, "b"),
            found("2.txt", 1, "a"),
            found("1.txt", 2, "a"),
        ]
    );
}

#[test]
fn repeated_runs_agree_and_file_order_only_reorders() {
    let make = || Config {
        rules: vec![
            rule("first", shorthand("Github"), Some(vec!["**/*.rb"])),
            rule("bad", full("(", true, false), None),
            rule("second", full("hub", false, false), None),
        ],
    };
    let files = vec![
        file("./a.rb", "Github\nhub\n"),
        file("./b.txt", "GitHub\n"),
        file("./c.rb", "nothing\n"),
    ];
    let once = execute(make(), &files);
    let twice = execute(make(), &files);
    assert_eq!(once, twice);
    assert_eq!(once.len(), 5);
    let reordered = vec![
        file("./c.rb", "nothing\n"),
        file("./b.txt", "GitHub\n"),
        file("./a.rb", "Github\nhub\n"),
    ];
    let other = execute(make(), &reordered);
    assert_ne!(once, other);
    assert_eq!(sorted(once), sorted(other));
}

#[test]
fn line_without_terminator_at_end_of_file_is_matched() {
    let conf = Config { rules: vec![rule("r", shorthand("b"), None)] };
    let files = vec![file("a.txt", "a\nb")];
    assert_eq!(run(&conf, &files), vec![found("a.txt", 2, "b")]);
}

#[test]
fn precedence_picks_string_before_regexp() {
    let both = RulePattern {
        string: Some("one".to_string()),
        regexp: Some("two".to_string()),
        literal: Some("three".to_string()),
        token: Some("four".to_string()),
        case_sensitive: true,
        multiline: false,
    };
    let conf = Config { rules: vec![rule("r", both, None)] };
    let files = vec![file("a.txt", "four\nthree\ntwo\none\n")];
    assert_eq!(run(&conf, &files), vec![found("a.txt", 4, "one")]);
    let late = RulePattern {
        string: None,
        regexp: None,
        literal: None,
        token: Some("four".to_string()),
        case_sensitive: true,
        multiline: false,
    };
    let conf = Config { rules: vec![rule("r", late, None)] };
    assert_eq!(run(&conf, &files), vec![found("a.txt", 1, "four")]);
}
