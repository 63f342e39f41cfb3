use committed::commit_file::trim_commit_file;

#[test]
fn main_empty() {
    let input = "";
    let expected = "";
    let actual = trim_commit_file(input);
    assert_eq!(actual, expected);
}

#[test]
fn main_user_message() {
    let input = "feat: Hello

Let's do it!

Fixes #10";
    let expected = input;
    let actual = trim_commit_file(input);
    assert_eq!(actual, expected);
}

#[test]
fn main_default_message() {
    let input = "


# Please enter the commit message for your changes. Lines starting
# with '#' will be ignored, and an empty message aborts the commit.
#
# On branch master
# Your branch is up to date with 'origin/master'.
#
# Changes to be committed:
#	modified:   custom-file.el
#	modified:   init.el
#
# Untracked files:
#	lisp/ob-maven.el
#	url/
#
";
    let expected = "";
    let actual = trim_commit_file(input);
    assert_eq!(actual, expected);
}

#[test]
fn main_user_with_default_message() {
    let input = "feat: Hello

Let's do it!

Fixes #10

# Please enter the commit message for your changes. Lines starting
# with '#' will be ignored, and an empty message aborts the commit.
#
# On branch master
# Your branch is up to date with 'origin/master'.
#
# Changes to be committed:
#	modified:   custom-file.el
#	modified:   init.el
#
# Untracked files:
#	lisp/ob-maven.el
#	url/
#
";
    let expected = "feat: Hello

Let's do it!

Fixes #10";
    let actual = trim_commit_file(input);
    assert_eq!(actual, expected);
}

#[test]
fn user_with_verbose_commit() {
    let input = "docs: Add Code of Conduct

Fixes #10

# Please enter the commit message for your changes. Lines starting
# with '#' will be ignored, and an empty message aborts the commit.
#
# On branch chore/repository-setup
# Changes to be committed:
# new file:   docs/CODE_OF_CONDUCT.md
#
# ------------------------ >8 ------------------------
# Do not modify or remove the line above.
# Everything below it will be ignored.
diff --git a/docs/CODE_OF_CONDUCT.md b/docs/CODE_OF_CONDUCT.md
new file mode 100644
index 0000000000000000..a366d6b2f3755024
--- /dev/null
+++ b/docs/CODE_OF_CONDUCT.md
@@ -0,0 +1,134 @@
+# Contributor Covenant Code of Conduct
+
+## Our Pledge
+
+We as members, contributors, and leaders pledge to make participation in our
+community a harassment-free experience for everyone, regardless of age, body
+size, visible or invisible disability, ethnicity, sex characteristics, gender
+identity and expression, level of experience, education, socio-economic status,
+nationality, personal appearance, race, caste, color, religion, or sexual
+identity and orientation.
+
+ ...
";
    let expected = "docs: Add Code of Conduct

Fixes #10";
    let actual = trim_commit_file(input);
    assert_eq!(actual, expected);
}

#[test]
fn blank_file_has_no_message() {
    assert_eq!(trim_commit_file(" \n\t\n  "), "");
}

#[test]
fn comments_alone_have_no_message() {
    assert_eq!(trim_commit_file("# one\n\n\n# two"), "");
    assert_eq!(trim_commit_file("#"), "");
}

#[test]
fn comment_before_text_stays() {
    assert_eq!(trim_commit_file("# one\ntext"), "# one\ntext");
    assert_eq!(trim_commit_file("# one\ntext\n# two"), "# one\ntext");
}

#[test]
fn comment_inside_text_stays() {
    let input = "subject\n# inside\nbody\n\n# trailing\n#more";
    assert_eq!(trim_commit_file(input), "subject\n# inside\nbody");
}

#[test]
fn white_space_before_trailing_comment_stays() {
    assert_eq!(trim_commit_file("subject  \n# comment"), "subject  ");
}

#[test]
fn text_after_hash_on_same_line_is_no_comment() {
    assert_eq!(trim_commit_file("Fixes #10"), "Fixes #10");
    assert_eq!(trim_commit_file("subject\nFixes #10 # done"), "subject\nFixes #10 # done");
}

#[test]
fn scissors_line_cuts_the_rest() {
    let input = "subject\n# ------------------------ >8 ------------------------\ndiff";
    assert_eq!(trim_commit_file(input), "subject");
    let input = "subject\n\nbody # ------------------------ >8 ------------------------ diff";
    assert_eq!(trim_commit_file(input), "subject\n\nbody");
}

#[test]
fn scissors_line_first_leaves_nothing() {
    let input = "x# ------------------------ >8 ------------------------\nsubject";
    assert_eq!(trim_commit_file(input), "x");
    let input = "\n# ------------------------ >8 ------------------------\nsubject\nmore";
    assert_eq!(trim_commit_file(input), "");
}

#[test]
fn non_ascii_text_is_kept_whole() {
    let input = "  Füge Grüße hinzu ✨\n\n# Kommentar ✂\n";
    assert_eq!(trim_commit_file(input), "Füge Grüße hinzu ✨");
}

fn all_comment_re() -> regex::Regex {
    regex::RegexBuilder::new(r"^(#[^\n]*\n*)+$")
        .dot_matches_new_line(true)
        .build()
        .unwrap()
}

fn trailing_comment_re() -> regex::Regex {
    regex::RegexBuilder::new(r"^(.*?)(\n+#[^\n]*)*$")
        .dot_matches_new_line(true)
        .build()
        .unwrap()
}

fn by_regex(all_comment: &regex::Regex, trailing_comment: &regex::Regex, message: &str) -> String {
    let message = message.trim();
    if message.is_empty() {
        return String::new();
    }
    if all_comment.is_match(message) {
        return String::new();
    }
    let message =
        if let Some(idx) = message.find("# ------------------------ >8 ------------------------") {
            message[..idx].trim()
        } else {
            message
        };
    let captures = trailing_comment.captures(message).unwrap();
    captures.get(1).unwrap().as_str().to_owned()
}

#[test]
fn agrees_with_the_patterns_on_every_short_text() {
    let all_comment = all_comment_re();
    let trailing_comment = trailing_comment_re();
    let alphabet = ['a', '#', '\n', ' '];
    let mut texts: Vec<String> = vec![String::new()];
    let mut start = 0;
    for _ in 0..6 {
        let end = texts.len();
        for i in start..end {
            for c in alphabet {
                let mut next = texts[i].clone();
                next.push(c);
                texts.push(next);
            }
        }
        start = end;
    }
    for text in &texts {
        let expected = by_regex(&all_comment, &trailing_comment, text);
        assert_eq!(trim_commit_file(text), expected, "on {:?}", text);
    }
}

#[test]
fn agrees_with_the_patterns_around_the_scissors_line() {
    let all_comment = all_comment_re();
    let trailing_comment = trailing_comment_re();
    let marker = "# ------------------------ >8 ------------------------";
    let pieces = ["", "a", "\n", "#", " ", "a\n", "\n#b", "\n\na", "# c\n"];
    for before in pieces {
        for middle in pieces {
            for after in pieces {
                let text = format!("{}{}{}{}{}", before, middle, marker, after, middle);
                let expected = by_regex(&all_comment, &trailing_comment, &text);
                assert_eq!(trim_commit_file(&text), expected, "on {:?}", text);
            }
        }
    }
}
