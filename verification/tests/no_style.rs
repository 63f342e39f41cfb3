use committed::no_style::split_parts;

#[test]
fn no_style_subject() {
    let actual = split_parts("feat(parser): Parse bad greetings");
    let expected = ("feat(parser): Parse bad greetings", None);
    assert_eq!(actual, expected);
}

#[test]
fn no_style_body() {
    let actual = split_parts(
        r#"feat(parser): Parse bad greetings

Hello
World

Foo
Bar"#,
    );
    let expected = (
        "feat(parser): Parse bad greetings",
        Some("Hello\nWorld\n\nFoo\nBar"),
    );
    assert_eq!(actual, expected);
}

#[test]
fn subject() {
    let actual = split_parts("feat(parser): Parse bad greetings");
    let expected = ("feat(parser): Parse bad greetings", None);
    assert_eq!(actual, expected);
}

#[test]
fn body() {
    let actual = split_parts(
        r#"feat(parser): Parse bad greetings

Hello
World

Foo
Bar"#,
    );
    let expected = (
        "feat(parser): Parse bad greetings",
        Some("Hello\nWorld\n\nFoo\nBar"),
    );
    assert_eq!(actual, expected);
}
