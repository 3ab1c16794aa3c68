use quickgc::commit_message_lint::CommitMessage;
use quickgc::header::{parse_header, write_header, Header};

fn parts(kind: &str, scope: Option<&str>, breaking: bool, subject: &str) -> Header {
    Header {
        kind: kind.to_string(),
        scope: scope.map(|s| s.to_string()),
        breaking,
        subject: subject.to_string(),
    }
}

#[test]
fn reads_a_plain_header() {
    assert_eq!(parse_header("feat: add x"), Some(parts("feat", None, false, "add x")));
}

#[test]
fn reads_scope_and_breaking_mark() {
    assert_eq!(
        parse_header("feat(api)!: change signature"),
        Some(parts("feat", Some("api"), true, "change signature"))
    );
    assert_eq!(parse_header("fix(core): mend"), Some(parts("fix", Some("core"), false, "mend")));
    assert_eq!(parse_header("fix!: mend"), Some(parts("fix", None, true, "mend")));
}

#[test]
fn reads_only_the_first_line() {
    assert_eq!(
        parse_header("feat: add x\n\nbody: text\n\nBREAKING CHANGE: all"),
        Some(parts("feat", None, false, "add x"))
    );
    assert_eq!(parse_header("feat: add x\n"), Some(parts("feat", None, false, "add x")));
}

#[test]
fn reads_a_subject_with_delimiters_in_it() {
    assert_eq!(
        parse_header("feat(a(b): c: d (e)!"),
        Some(parts("feat", Some("a(b"), false, "c: d (e)!"))
    );
    assert_eq!(parse_header("feat: "), Some(parts("feat", None, false, "")));
}

#[test]
fn reads_a_type_of_any_characters_but_the_delimiters() {
    assert_eq!(parse_header("Feat 1: x"), Some(parts("Feat 1", None, false, "x")));
    assert_eq!(parse_header("feat : add x"), Some(parts("feat ", None, false, "add x")));
    assert_eq!(parse_header(": x"), Some(parts("", None, false, "x")));
    assert_eq!(parse_header("(s)!: x"), Some(parts("", Some("s"), true, "x")));
}

#[test]
fn refuses_what_is_no_header() {
    for text in [
        "",
        "feat",
        "feat:",
        "feat:add x",
        "feat(api: add x",
        "feat(): add x",
        "feat(  ): add x",
        "feat(api)x: add x",
        "feat!!: add x",
        "feat!(api): add x",
        "feat(api)\n: add x",
        "\nfeat: add x",
        "feat(a\nb): add x",
    ] {
        assert_eq!(parse_header(text), None, "{:?}", text);
    }
}

#[test]
fn writes_a_header_from_its_parts() {
    assert_eq!(write_header("feat", None, false, "add x"), "feat: add x");
    assert_eq!(write_header("feat", Some("api"), false, "add x"), "feat(api): add x");
    assert_eq!(write_header("feat", None, true, "add x"), "feat!: add x");
    assert_eq!(write_header("feat", Some("api"), true, "add x"), "feat(api)!: add x");
    assert_eq!(write_header("", Some(""), false, ""), "(): ");
    assert_eq!(parts("feat", Some("api"), true, "add x").text(), "feat(api)!: add x");
}

#[test]
fn reading_inverts_writing() {
    let kinds = ["feat", "fix", "a", "Big Kind", ""];
    let scopes = [None, Some("api"), Some("a(b"), Some(" x "), Some("s!: t")];
    let subjects = ["add x", "", "a: b", "(x)!", " lead"];
    for kind in kinds {
        for scope in scopes {
            for breaking in [false, true] {
                for subject in subjects {
                    let h = parts(kind, scope, breaking, subject);
                    assert_eq!(parse_header(&h.text()), Some(h));
                }
            }
        }
    }
}

#[test]
fn writing_inverts_reading() {
    for line in ["feat: add x", "feat(api)!: y", "a!: ", "x(y(z): (w)", ": "] {
        assert_eq!(parse_header(line).unwrap().text(), line);
    }
}

#[test]
fn the_header_of_a_rendered_message_reads_back() {
    let bodies = [None, Some("the body\n\nmore: of it".to_string())];
    let footers = [None, Some("Refs: 1".to_string())];
    for scope in [None, Some("api".to_string())] {
        for breaking in [false, true] {
            for body in bodies.iter() {
                for footer in footers.iter() {
                    let m = CommitMessage::new(
                        "feat".to_string(),
                        scope.clone(),
                        "change signature".to_string(),
                        body.clone(),
                        footer.clone(),
                        breaking,
                    );
                    assert_eq!(
                        parse_header(&m.render()),
                        Some(Header {
                            kind: "feat".to_string(),
                            scope: scope.clone(),
                            breaking,
                            subject: "change signature".to_string(),
                        })
                    );
                }
            }
        }
    }
}

#[test]
fn a_blank_scope_reads_back_as_none() {
    let m = CommitMessage::new(
        "feat".to_string(),
        Some(" ".to_string()),
        "add x".to_string(),
        None,
        None,
        false,
    );
    assert_eq!(parse_header(&m.render()), Some(parts("feat", None, false, "add x")));
}

#[test]
fn two_messages_can_share_a_header() {
    let bracketed =
        CommitMessage::new("a(b)".to_string(), None, "x".to_string(), None, None, false);
    let scoped = CommitMessage::new(
        "a".to_string(),
        Some("b".to_string()),
        "x".to_string(),
        None,
        None,
        false,
    );
    assert_eq!(bracketed.header(), scoped.header());
    assert_eq!(parse_header(&bracketed.render()), Some(parts("a", Some("b"), false, "x")));
}
