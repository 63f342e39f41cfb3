use committed::config::Style;
use committed::report::push_decimal;
use committed::report::push_error;
use committed::report::CapitalizeSubject;
use committed::report::Content;
use committed::report::DisallowedCommitType;
use committed::report::EmptyCommit;
use committed::report::Fixup;
use committed::report::Imperative;
use committed::report::InvalidCommitFormat;
use committed::report::LineTooLong;
use committed::report::MergeCommitDisallowed;
use committed::report::Message;
use committed::report::NoPunctuation;
use committed::report::Severity;
use committed::report::Source;
use committed::report::SubjectTooLong;
use committed::report::Wip;

fn every_content() -> Vec<Content<'static>> {
    vec![
        Content::EmptyCommit(EmptyCommit {}),
        Content::SubjectTooLong(SubjectTooLong {
            max_length: 50,
            actual_length: 123,
        }),
        Content::LineTooLong(LineTooLong {
            max_length: 72,
            actual_length: 80,
        }),
        Content::CapitalizeSubject(CapitalizeSubject { first_word: "wip" }),
        Content::NoPunctuation(NoPunctuation { punctuation: '.' }),
        Content::Imperative(Imperative { first_word: "adds" }),
        Content::Wip(Wip {}),
        Content::Fixup(Fixup {}),
        Content::InvalidCommitFormat(InvalidCommitFormat {
            error: "Missing type".to_owned(),
            style: Style::Conventional,
        }),
        Content::DisallowedCommitType(DisallowedCommitType {
            used: "wat".to_owned(),
            allowed: vec!["fix".to_owned(), "feat".to_owned()],
        }),
        Content::MergeCommitDisallowed(MergeCommitDisallowed {}),
    ]
}

#[test]
fn every_content_has_its_sentence() {
    let sentences: Vec<String> = every_content().iter().map(|c| c.to_string()).collect();
    assert_eq!(
        sentences,
        vec![
            "Empty commits are disallowed",
            "Commit subject is too long, 123 exceeds the max length of 50",
            "Line is too long, 80 exceeds the max length of 72",
            "Subject should be capitalized but found `wip`",
            "Subject should not be punctuated but found `.`",
            "Subject should be in the imperative mood but found `adds`",
            "Work-in-progress commits must be cleaned up",
            "Fixup commits must be squashed",
            "Commit is not in Conventional format: Missing type",
            "Disallowed type `wat` used, please use one of [\"fix\", \"feat\"]",
            "Merge commits are disallowed",
        ]
    );
}

#[test]
fn every_content_has_its_record() {
    let records: Vec<String> = every_content().iter().map(|c| c.to_json()).collect();
    assert_eq!(
        records,
        vec![
            r#"{"type":"empty_commit"}"#,
            r#"{"type":"subject_too_long","max_length":50,"actual_length":123}"#,
            r#"{"type":"line_too_long","max_length":72,"actual_length":80}"#,
            r#"{"type":"capitalize_subject","first_word":"wip"}"#,
            r#"{"type":"no_punctuation","punctuation":"."}"#,
            r#"{"type":"imperative","first_word":"adds"}"#,
            r#"{"type":"wip"}"#,
            r#"{"type":"fixup"}"#,
            r#"{"type":"invalid_commit_format","error":"Missing type","style":"conventional"}"#,
            r#"{"type":"disallowed_commit_type","used":"wat","allowed":["fix","feat"]}"#,
            r#"{"type":"merge_commit_disallowed"}"#,
        ]
    );
}

#[test]
fn records_are_json() {
    for content in every_content() {
        let message = Message::error(Source::Path("-"), content);
        let record = message.to_json();
        let value: serde_json::Value = serde_json::from_str(&record).unwrap();
        assert_eq!(value["source"], "-");
        assert_eq!(value["severity"], "error");
        assert!(value["content"]["type"].is_string());
        assert!(!record.contains('\n'));
    }
}

#[test]
fn record_of_a_message() {
    let message = Message::error(Source::ShortId("1a2b3c4"), Content::Wip(Wip {}));
    assert_eq!(
        message.to_json(),
        r#"{"source":"1a2b3c4","severity":"error","content":{"type":"wip"}}"#
    );
    let message = Message::error(
        Source::Path("-"),
        Content::SubjectTooLong(SubjectTooLong {
            max_length: 50,
            actual_length: 51,
        }),
    );
    assert_eq!(
        message.to_json(),
        r#"{"source":"-","severity":"error","content":{"type":"subject_too_long","max_length":50,"actual_length":51}}"#
    );
}

#[test]
fn records_escape_their_texts() {
    let content = Content::CapitalizeSubject(CapitalizeSubject {
        first_word: "say\"hi\"\\",
    });
    assert_eq!(
        content.to_json(),
        r#"{"type":"capitalize_subject","first_word":"say\"hi\"\\"}"#
    );
    let content = Content::DisallowedCommitType(DisallowedCommitType {
        used: "a\tb".to_owned(),
        allowed: vec!["\"".to_owned()],
    });
    assert_eq!(
        content.to_json(),
        r#"{"type":"disallowed_commit_type","used":"a\tb","allowed":["\""]}"#
    );
    let message = Message::error(Source::Path("dir/\"file\""), Content::Fixup(Fixup {}));
    let value: serde_json::Value = serde_json::from_str(&message.to_json()).unwrap();
    assert_eq!(value["source"], "dir/\"file\"");
}

#[test]
fn record_lists_the_allowed_types() {
    for (allowed, expected) in [
        (vec![], r#"{"type":"disallowed_commit_type","used":"x","allowed":[]}"#),
        (vec!["a"], r#"{"type":"disallowed_commit_type","used":"x","allowed":["a"]}"#),
        (vec!["a", "b", "c"], r#"{"type":"disallowed_commit_type","used":"x","allowed":["a","b","c"]}"#),
    ] {
        let content = Content::DisallowedCommitType(DisallowedCommitType {
            used: "x".to_owned(),
            allowed: allowed.iter().map(|s| s.to_string()).collect(),
        });
        assert_eq!(content.to_json(), expected);
    }
}

#[test]
fn sentence_shows_the_allowed_types_as_a_list() {
    let content = Content::DisallowedCommitType(DisallowedCommitType {
        used: "x".to_owned(),
        allowed: Vec::new(),
    });
    assert_eq!(content.to_string(), "Disallowed type `x` used, please use one of []");
    let content = Content::DisallowedCommitType(DisallowedCommitType {
        used: "x".to_owned(),
        allowed: vec!["a\"b".to_owned()],
    });
    assert_eq!(content.to_string(), "Disallowed type `x` used, please use one of [\"a\\\"b\"]");
}

#[test]
fn sentence_names_the_style() {
    let content = Content::InvalidCommitFormat(InvalidCommitFormat {
        error: "no".to_owned(),
        style: Style::NoStyle,
    });
    assert_eq!(content.to_string(), "Commit is not in None format: no");
    assert_eq!(content.to_json(), r#"{"type":"invalid_commit_format","error":"no","style":"none"}"#);
}

#[test]
fn numbers_are_written_in_decimal() {
    for n in [0usize, 1, 9, 10, 11, 99, 100, 101, 12345, 1000000, usize::MAX] {
        let mut out = String::from("n=");
        push_decimal(&mut out, n);
        assert_eq!(out, format!("n={}", n));
    }
}

#[test]
fn brief_line_has_source_severity_and_sentence() {
    let message = Message::error(Source::Path("-"), Content::EmptyCommit(EmptyCommit {}));
    assert_eq!(message.brief(), "-: error Empty commits are disallowed");
    let message = Message::error(
        Source::Oid("0123456789abcdef0123456789abcdef01234567"),
        Content::NoPunctuation(NoPunctuation { punctuation: '?' }),
    );
    assert_eq!(
        message.brief(),
        "0123456789abcdef0123456789abcdef01234567: error Subject should not be punctuated but found `?`"
    );
    let message = Message::error(Source::Path("a file.txt"), Content::Fixup(Fixup {}));
    assert_eq!(message.brief(), "a file.txt: error Fixup commits must be squashed");
}

#[test]
fn error_has_severity_error() {
    let message = Message::error(Source::ShortId("abc"), Content::Wip(Wip {}));
    assert_eq!(message.severity, Severity::Error);
    assert_eq!(message.severity.as_str(), "error");
    assert_eq!(message.source.as_str(), "abc");
    assert!(matches!(message.content, Content::Wip(_)));
}

#[test]
fn push_error_adds_at_the_end() {
    let mut report = vec![Message::error(Source::Path("-"), Content::Wip(Wip {}))];
    push_error(&mut report, Source::Path("x"), Content::Fixup(Fixup {}));
    assert_eq!(report.len(), 2);
    assert_eq!(report[0].brief(), "-: error Work-in-progress commits must be cleaned up");
    assert_eq!(report[1].brief(), "x: error Fixup commits must be squashed");
}
