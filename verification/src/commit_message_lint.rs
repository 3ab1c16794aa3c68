//! The commit message: its fields, the text it is written as, and the rules
//! it has to meet before it is committed.

use crate::header::{
    header_text, kind_text, lemma_header_is_one_line, lemma_parse_inverts_header_text,
    optional_text, parsed_header, write_header, HeaderView,
};
use crate::pattern::{accepts, pattern_accepts};
use crate::text::{
    blank, contains_uppercase, ends_with, free_of, has_uppercase, is_blank, lemma_first_line,
    str_ends_with,
};
use vstd::prelude::*;
use vstd::string::*;

verus! {

/// The marker that opens the footer of a breaking change.
pub const BREAKING_MARKER: &'static str = "BREAKING CHANGE: ";

/// The pattern that the type of a message has to match.
pub const TYPE_PATTERN: &'static str = "^[a-z]+$";

/// The most characters that a header line may have.
pub const MAX_HEADER_LENGTH: usize = 100;

/// Why a message is turned down.
#[derive(Debug, PartialEq, Eq)]
pub enum CommitMessageError {
    /// The type is blank.
    EmptyType,
    /// The type does not match the pattern, which is carried along.
    InvalidTypeFormat(String),
    /// The type has an uppercase character.
    UpperCaseType,
    /// The subject is blank.
    EmptySubject,
    /// The subject ends with a full stop.
    SubjectEndsWithFullStop,
    /// The header line is longer than `MAX_HEADER_LENGTH` characters.
    HeaderExceedsMaxLength,
}

/// Why a message is turned down, with the pattern as a sequence of
/// characters.
pub enum Violation {
    EmptyType,
    InvalidTypeFormat(Seq<char>),
    UpperCaseType,
    EmptySubject,
    SubjectEndsWithFullStop,
    HeaderExceedsMaxLength,
}

impl View for CommitMessageError {
    type V = Violation;

    open spec fn view(&self) -> Violation {
        match self {
            CommitMessageError::EmptyType => Violation::EmptyType,
            CommitMessageError::InvalidTypeFormat(pattern) => Violation::InvalidTypeFormat(
                pattern@,
            ),
            CommitMessageError::UpperCaseType => Violation::UpperCaseType,
            CommitMessageError::EmptySubject => Violation::EmptySubject,
            CommitMessageError::SubjectEndsWithFullStop => Violation::SubjectEndsWithFullStop,
            CommitMessageError::HeaderExceedsMaxLength => Violation::HeaderExceedsMaxLength,
        }
    }
}

/// What a violation says of itself.
pub open spec fn violation_message(v: Violation) -> Seq<char> {
    match v {
        Violation::EmptyType => "Type is empty"@,
        Violation::InvalidTypeFormat(pattern) => "Invalid type format: "@ + pattern,
        Violation::UpperCaseType => "Type is uppercase"@,
        Violation::EmptySubject => "Subject is empty"@,
        Violation::SubjectEndsWithFullStop => "Subject ends with full stop"@,
        Violation::HeaderExceedsMaxLength => "Header exceeds max length"@,
    }
}

impl CommitMessageError {
    /// What the error says of itself, for the user to read.
    pub fn message(&self) -> (r: String)
        ensures
            r@ == violation_message(self@),
    {
        match self {
            CommitMessageError::EmptyType => "Type is empty".to_owned(),
            CommitMessageError::InvalidTypeFormat(pattern) => {
                let mut out = "Invalid type format: ".to_owned();
                out.append(pattern.as_str());
                out
            },
            CommitMessageError::UpperCaseType => "Type is uppercase".to_owned(),
            CommitMessageError::EmptySubject => "Subject is empty".to_owned(),
            CommitMessageError::SubjectEndsWithFullStop => "Subject ends with full stop".to_owned(),
            CommitMessageError::HeaderExceedsMaxLength => "Header exceeds max length".to_owned(),
        }
    }
}

/// A structured commit message. The fields are kept as they were given;
/// nothing is normalised on construction.
pub struct CommitMessage {
    kind: String,
    scope: Option<String>,
    breaking: bool,
    subject: String,
    body: Option<String>,
    footer: Option<String>,
}

/// The fields of a commit message, as sequences of characters.
pub struct MessageView {
    pub kind: Seq<char>,
    pub scope: Option<Seq<char>>,
    pub breaking: bool,
    pub subject: Seq<char>,
    pub body: Option<Seq<char>>,
    pub footer: Option<Seq<char>>,
}

impl View for CommitMessage {
    type V = MessageView;

    closed spec fn view(&self) -> MessageView {
        MessageView {
            kind: self.kind@,
            scope: optional_text(self.scope),
            breaking: self.breaking,
            subject: self.subject@,
            body: optional_text(self.body),
            footer: optional_text(self.footer),
        }
    }
}

/// An optional field as the rendered text shows it: a field that is absent
/// or blank shows nothing, any other is shown as it stands.
pub open spec fn shown(field: Option<Seq<char>>) -> Option<Seq<char>> {
    if field is Some && !blank(field->0) {
        field
    } else {
        None
    }
}

/// The parts of the header line of a message.
pub open spec fn header_parts(m: MessageView) -> HeaderView {
    HeaderView { kind: m.kind, scope: shown(m.scope), breaking: m.breaking, subject: m.subject }
}

/// The header line of a message.
pub open spec fn header_line(m: MessageView) -> Seq<char> {
    header_text(header_parts(m))
}

/// The footer of a message: for a breaking change the marker and then the
/// footer text, if one is shown; else the footer text, if one is shown.
pub open spec fn footer_text(m: MessageView) -> Option<Seq<char>> {
    if m.breaking {
        Some(
            BREAKING_MARKER@ + match shown(m.footer) {
                Some(f) => f,
                None => Seq::empty(),
            },
        )
    } else {
        shown(m.footer)
    }
}

/// A section below the header: a blank line and then the text. A part that
/// is missing makes no section.
pub open spec fn section(part: Option<Seq<char>>) -> Seq<char> {
    match part {
        Some(t) => seq!['\n', '\n'] + t,
        None => Seq::empty(),
    }
}

/// The text of a message: the header line, then the body and the footer,
/// each as a section of its own where there is one.
pub open spec fn rendered(m: MessageView) -> Seq<char> {
    header_line(m) + section(shown(m.body)) + section(footer_text(m))
}

/// The first rule that a message breaks, if it breaks one. The rules, in
/// their order:
///
/// 1. the type is not blank;
/// 2. the type matches `TYPE_PATTERN` (`type_matches`);
/// 3. the type has no uppercase character (`type_has_uppercase`);
/// 4. the subject is not blank;
/// 5. the subject does not end with a full stop;
/// 6. the header line has at most `MAX_HEADER_LENGTH` characters.
///
/// Scope, body and footer are free: none of them, absent or present, breaks
/// a rule of its own.
pub open spec fn first_violation(
    m: MessageView,
    type_matches: bool,
    type_has_uppercase: bool,
) -> Option<Violation> {
    if blank(m.kind) {
        Some(Violation::EmptyType)
    } else if !type_matches {
        Some(Violation::InvalidTypeFormat(TYPE_PATTERN@))
    } else if type_has_uppercase {
        Some(Violation::UpperCaseType)
    } else if blank(m.subject) {
        Some(Violation::EmptySubject)
    } else if ends_with(m.subject, '.') {
        Some(Violation::SubjectEndsWithFullStop)
    } else if header_line(m).len() > MAX_HEADER_LENGTH {
        Some(Violation::HeaderExceedsMaxLength)
    } else {
        None
    }
}

/// The first rule that a message breaks, if it breaks one, where the
/// pattern is read as the `regex` crate reads it and uppercase is what std
/// takes for it.
pub open spec fn violation(m: MessageView) -> Option<Violation> {
    first_violation(m, accepts(TYPE_PATTERN@, m.kind), has_uppercase(m.kind))
}

/// `r` is the outcome of a validation that found `v`: acceptance where no
/// rule is broken, else the error of the rule that `v` names.
pub open spec fn is_outcome(r: Result<(), CommitMessageError>, v: Option<Violation>) -> bool {
    match r {
        Ok(_) => v is None,
        Err(e) => v == Some(e@),
    }
}

/// The header of the message can be read back from its text: the type
/// holds none of `(`, `!` and `:`, the scope, if there is one, is not blank
/// and holds no closing bracket, and none of type, scope and subject holds
/// a line feed.
pub open spec fn readable(m: MessageView) -> bool {
    &&& kind_text(m.kind)
    &&& m.scope matches Some(s) ==> !blank(s) && free_of(s, ')') && free_of(s, '\n')
    &&& free_of(m.subject, '\n')
}

/// Rendering a message and reading the header of the text back gives the
/// type, the scope, the breaking-change flag and the subject of the
/// message, each as it was, whatever body and footer the message has.
pub proof fn lemma_render_then_parse(m: MessageView)
    requires
        readable(m),
    ensures
        parsed_header(rendered(m)) == Some(
            HeaderView { kind: m.kind, scope: m.scope, breaking: m.breaking, subject: m.subject },
        ),
{
    let h = header_parts(m);
    let line = header_text(h);
    let text = rendered(m);
    assert(h == HeaderView {
        kind: m.kind,
        scope: m.scope,
        breaking: m.breaking,
        subject: m.subject,
    });
    lemma_header_is_one_line(h);
    lemma_parse_inverts_header_text(h);
    assert(text.take(line.len() as int) =~= line);
    lemma_first_line(text, line.len() as int);
}

/// Validation is repeatable: a message has one verdict. Two results that
/// meet the contract of `validate` on the same message are both an
/// acceptance, or both the same error.
pub proof fn lemma_validate_repeatable(
    m: CommitMessage,
    first: Result<(), CommitMessageError>,
    second: Result<(), CommitMessageError>,
)
    requires
        is_outcome(first, violation(m@)),
        is_outcome(second, violation(m@)),
    ensures
        first is Ok <==> second is Ok,
        first is Err ==> first->Err_0@ == second->Err_0@,
{
}

/// The limit on the header line. Of the messages that meet the rules on the
/// type and the subject, one whose header line has `MAX_HEADER_LENGTH`
/// characters or fewer is accepted, and one whose header line has more is
/// turned down for that: a hundred characters pass, a hundred and one fail.
pub proof fn lemma_header_limit(m: MessageView)
    requires
        !blank(m.kind),
        accepts(TYPE_PATTERN@, m.kind),
        !has_uppercase(m.kind),
        !blank(m.subject),
        !ends_with(m.subject, '.'),
    ensures
        header_line(m).len() <= 100 ==> violation(m) is None,
        header_line(m).len() >= 101 ==> violation(m) == Some(Violation::HeaderExceedsMaxLength),
{
}

/// The text of an optional field, if the rendered text shows the field.
fn shown_text(field: &Option<String>) -> (r: Option<&str>)
    ensures
        match r {
            Some(s) => shown(optional_text(*field)) == Some(s@),
            None => shown(optional_text(*field)) is None,
        },
{
    match field {
        Some(s) => {
            if is_blank(s.as_str()) {
                None
            } else {
                Some(s.as_str())
            }
        },
        None => None,
    }
}

/// Appends a section to a text: a blank line and then `part`.
fn append_section(out: &mut String, part: &str)
    ensures
        final(out)@ == old(out)@ + section(Some(part@)),
{
    proof {
        reveal_strlit("\n\n");
    }
    out.append("\n\n");
    out.append(part);
    assert(out@ =~= old(out)@ + section(Some(part@)));
}

impl CommitMessage {
    /// Makes a message of the given fields, stored as they are.
    pub fn new(
        kind: String,
        scope: Option<String>,
        subject: String,
        body: Option<String>,
        footer: Option<String>,
        breaking: bool,
    ) -> (r: Self)
        ensures
            r@ == (MessageView {
                kind: kind@,
                scope: optional_text(scope),
                breaking,
                subject: subject@,
                body: optional_text(body),
                footer: optional_text(footer),
            }),
    {
        Self { kind, scope, breaking, subject, body, footer }
    }

    /// The header line.
    pub fn header(&self) -> (r: String)
        ensures
            r@ == header_line(self@),
    {
        write_header(
            self.kind.as_str(),
            shown_text(&self.scope),
            self.breaking,
            self.subject.as_str(),
        )
    }

    /// The footer, if the message has one.
    pub fn footer(&self) -> (r: Option<String>)
        ensures
            optional_text(r) == footer_text(self@),
    {
        let text = shown_text(&self.footer);
        if self.breaking {
            let mut out = BREAKING_MARKER.to_owned();
            match text {
                Some(f) => {
                    out.append(f);
                },
                None => {
                    assert(out@ =~= BREAKING_MARKER@ + Seq::<char>::empty());
                },
            }
            Some(out)
        } else {
            match text {
                Some(f) => Some(f.to_owned()),
                None => None,
            }
        }
    }

    /// Holds the message to the rules, in their order, and stops at the
    /// first that it breaks. Whether the type matches `TYPE_PATTERN` and
    /// whether it has an uppercase character are given by the caller.
    pub fn check_rules(&self, type_matches: bool, type_has_uppercase: bool) -> (r: Result<
        (),
        CommitMessageError,
    >)
        ensures
            is_outcome(r, first_violation(self@, type_matches, type_has_uppercase)),
    {
        if is_blank(self.kind.as_str()) {
            return Err(CommitMessageError::EmptyType);
        }
        if !type_matches {
            return Err(CommitMessageError::InvalidTypeFormat(TYPE_PATTERN.to_owned()));
        }
        if type_has_uppercase {
            return Err(CommitMessageError::UpperCaseType);
        }
        if is_blank(self.subject.as_str()) {
            return Err(CommitMessageError::EmptySubject);
        }
        if str_ends_with(self.subject.as_str(), '.') {
            return Err(CommitMessageError::SubjectEndsWithFullStop);
        }
        let header = self.header();
        if header.as_str().unicode_len() > MAX_HEADER_LENGTH {
            return Err(CommitMessageError::HeaderExceedsMaxLength);
        }
        Ok(())
    }

    /// Validates the message: holds it to the rules, in their order, and
    /// returns the error of the first that it breaks. The message is left
    /// as it is.
    pub fn validate(&self) -> (r: Result<(), CommitMessageError>)
        ensures
            is_outcome(r, violation(self@)),
    {
        let type_matches = pattern_accepts(TYPE_PATTERN, self.kind.as_str());
        let type_has_uppercase = contains_uppercase(self.kind.as_str());
        self.check_rules(type_matches, type_has_uppercase)
    }

    /// The text of the message, as it is committed.
    pub fn render(&self) -> (r: String)
        ensures
            r@ == rendered(self@),
    {
        let mut out = self.header();
        match shown_text(&self.body) {
            Some(b) => {
                append_section(&mut out, b);
            },
            None => {
                assert(out@ =~= header_line(self@) + section(None));
            },
        }
        match self.footer() {
            Some(f) => {
                append_section(&mut out, f.as_str());
            },
            None => {
                assert(out@ =~= header_line(self@) + section(shown(self@.body)) + section(None));
            },
        }
        out
    }
}

} // verus!
