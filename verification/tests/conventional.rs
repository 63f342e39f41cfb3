use committed::config::Style as Grammar;
use committed::conventional::Commit;
use committed::style::Parsed;
use committed::style::Style;

#[test]
fn header_with_scope() {
    let commit = Commit::parse("feat(parser): Parse bad greetings").unwrap();
    assert_eq!(commit.type_, "feat");
    assert_eq!(commit.scope, Some("parser"));
    assert!(!commit.breaking);
    assert_eq!(commit.description, "Parse bad greetings");
    assert_eq!(commit.body, None);
}

#[test]
fn header_with_breaking_mark() {
    let commit = Commit::parse("feat(parser)!: Parse bad greetings").unwrap();
    assert_eq!(commit.type_, "feat");
    assert_eq!(commit.scope, Some("parser"));
    assert!(commit.breaking);
    assert_eq!(commit.description, "Parse bad greetings");
    assert_eq!(commit.body, None);
}

#[test]
fn unclosed_scope_is_refused() {
    assert!(Commit::parse("feat(parser: Parse bad greetings").is_err());
}

#[test]
fn missing_colon_is_refused() {
    let error = Commit::parse("Parse bad greetings").unwrap_err();
    assert_eq!(error, "Missing type in the commit summary, expected `type: description`");
}

#[test]
fn header_without_scope() {
    let commit = Commit::parse("fix: Mend the parser").unwrap();
    assert_eq!(
        commit,
        Commit {
            type_: "fix",
            scope: None,
            breaking: false,
            description: "Mend the parser",
            body: None,
        }
    );
}

#[test]
fn body_and_trailer_follow_blank_lines() {
    let commit = Commit::parse("feat: Hello\n\nLet's do it!\n\nFixes #10").unwrap();
    assert_eq!(commit.type_, "feat");
    assert_eq!(commit.description, "Hello");
    assert_eq!(commit.body, Some("Let's do it!"));
    assert!(!commit.breaking);
}

#[test]
fn breaking_change_trailer_marks_the_commit() {
    let commit = Commit::parse("feat: Hello\n\nBREAKING CHANGE: all of it").unwrap();
    assert!(commit.breaking);
    assert_eq!(commit.body, None);
}

#[test]
fn body_without_blank_line_is_refused() {
    assert!(Commit::parse("feat: Hello\nbody right away").is_err());
    assert!(Commit::parse("").is_err());
    assert!(Commit::parse("feat:").is_err());
}

#[test]
fn conventional_commit_has_all_parts() {
    let commit = Commit::parse("Feat(Parser): Parse bad greetings\n\nHello").unwrap();
    assert_eq!(commit.subject(), "Parse bad greetings");
    assert_eq!(Style::body(&commit), Some("Hello"));
    assert_eq!(Style::type_(&commit), Some("Feat"));
    assert_eq!(Style::scope(&commit), Some("Parser"));
}

#[test]
fn parsed_message_by_either_grammar() {
    let message = "feat(parser): Parse bad greetings\n\nHello";
    let parsed = Parsed::parse(Grammar::Conventional, message).unwrap();
    assert_eq!(parsed.subject(), "Parse bad greetings");
    assert_eq!(parsed.type_(), Some("feat"));
    assert_eq!(parsed.scope(), Some("parser"));
    assert_eq!(parsed.body(), Some("Hello"));
    match parsed {
        Parsed::Conventional(commit) => assert_eq!(commit, Commit::parse(message).unwrap()),
        other => panic!("unexpected {:?}", other),
    }
    let parsed = Parsed::parse(Grammar::NoStyle, message).unwrap();
    assert_eq!(parsed.subject(), "feat(parser): Parse bad greetings");
    assert_eq!(parsed.type_(), None);
    assert_eq!(parsed.scope(), None);
    assert_eq!(parsed.body(), Some("Hello"));
    assert!(matches!(parsed, Parsed::NoStyle(_)));
    assert!(Parsed::parse(Grammar::Conventional, "Parse bad greetings").is_err());
    assert!(Parsed::parse(Grammar::NoStyle, "Parse bad greetings").is_ok());
}
