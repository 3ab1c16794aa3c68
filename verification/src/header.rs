//! The header line of a commit message: its parts, the text they make, and
//! the way back from the text to the parts.

use crate::text::{
    blank, chars_of, find_char, first_line, free_of, is_blank, lemma_first_line,
};
use vstd::prelude::*;
use vstd::string::*;

verus! {

/// The parts of a header line, as sequences of characters.
pub struct HeaderView {
    pub kind: Seq<char>,
    pub scope: Option<Seq<char>>,
    pub breaking: bool,
    pub subject: Seq<char>,
}

/// The parts of a header line.
#[derive(Debug, PartialEq, Eq)]
pub struct Header {
    pub kind: String,
    pub scope: Option<String>,
    pub breaking: bool,
    pub subject: String,
}

/// The characters of an optional text.
pub open spec fn optional_text(field: Option<String>) -> Option<Seq<char>> {
    match field {
        Some(s) => Some(s@),
        None => None,
    }
}

impl View for Header {
    type V = HeaderView;

    open spec fn view(&self) -> HeaderView {
        HeaderView {
            kind: self.kind@,
            scope: optional_text(self.scope),
            breaking: self.breaking,
            subject: self.subject@,
        }
    }
}

/// What a scope adds to the header: the scope in round brackets.
pub open spec fn scope_text(scope: Option<Seq<char>>) -> Seq<char> {
    match scope {
        Some(s) => seq!['('] + s + seq![')'],
        None => Seq::empty(),
    }
}

/// What the breaking-change flag adds to the header: an exclamation mark.
pub open spec fn breaking_text(breaking: bool) -> Seq<char> {
    if breaking {
        seq!['!']
    } else {
        Seq::empty()
    }
}

/// The header line: the type, the scope in brackets if there is one, `!` for
/// a breaking change, a colon and a space, and the subject.
pub open spec fn header_text(h: HeaderView) -> Seq<char> {
    h.kind + scope_text(h.scope) + breaking_text(h.breaking) + seq![':', ' '] + h.subject
}

/// A character that can stand in a type: any but `(`, `!` and `:`, one of
/// which follows the type in a header line, and the line feed.
pub open spec fn kind_char(c: char) -> bool {
    c != '(' && c != '!' && c != ':' && c != '\n'
}

/// A text that can stand as a type: each of its characters can.
pub open spec fn kind_text(s: Seq<char>) -> bool {
    forall|i: int| 0 <= i < s.len() ==> kind_char(#[trigger] s[i])
}

/// The parts are such that the header line can be read back: the type
/// holds none of `(`, `!` and `:`, a scope is not blank and holds no
/// closing bracket, and none of type, scope and subject holds a line feed.
pub open spec fn well_formed(h: HeaderView) -> bool {
    &&& kind_text(h.kind)
    &&& h.scope matches Some(s) ==> !blank(s) && free_of(s, ')') && free_of(s, '\n')
    &&& free_of(h.subject, '\n')
}

/// `line` is the header line of the well-formed parts `h`.
pub open spec fn is_header_of(h: HeaderView, line: Seq<char>) -> bool {
    well_formed(h) && header_text(h) == line
}

/// The parts that a header line is read as: the well-formed parts whose
/// header line it is, if there are any. There is at most one such set of
/// parts (`lemma_header_text_injective`).
pub open spec fn parsed_line(line: Seq<char>) -> Option<HeaderView> {
    if exists|h: HeaderView| is_header_of(h, line) {
        Some(choose|h: HeaderView| is_header_of(h, line))
    } else {
        None
    }
}

/// The parts that the header of a commit text is read as: those of its
/// first line.
pub open spec fn parsed_header(text: Seq<char>) -> Option<HeaderView> {
    parsed_line(first_line(text))
}

/// Where the pieces of a header line stand in it.
proof fn lemma_layout(h: HeaderView)
    requires
        well_formed(h),
    ensures
        ({
            let t = header_text(h);
            let k = h.kind.len() as int;
            let se = k + scope_text(h.scope).len();
            let me = se + breaking_text(h.breaking).len();
            &&& t.len() == me + 2 + h.subject.len()
            &&& t.take(k) == h.kind
            &&& !kind_char(t[k])
            &&& match h.scope {
                Some(s) => {
                    &&& se == k + s.len() + 2
                    &&& t[k] == '('
                    &&& t.subrange(k + 1, k + 1 + s.len()) == s
                    &&& t[k + 1 + s.len()] == ')'
                },
                None => se == k && t[k] != '(',
            }
            &&& h.breaking ==> t[se] == '!'
            &&& !h.breaking ==> t[se] != '!'
            &&& t[me] == ':'
            &&& t[me + 1] == ' '
            &&& t.skip(me + 2) == h.subject
        }),
{
    let t = header_text(h);
    let k = h.kind.len() as int;
    let se = k + scope_text(h.scope).len();
    let me = se + breaking_text(h.breaking).len();
    assert(t.take(k) =~= h.kind);
    assert(t.skip(me + 2) =~= h.subject);
    match h.scope {
        Some(s) => {
            assert(t.subrange(k + 1, k + 1 + s.len()) =~= s);
        },
        None => {},
    }
}

/// Two sets of well-formed parts that make the same header line are the
/// same parts.
pub proof fn lemma_header_text_injective(a: HeaderView, b: HeaderView)
    requires
        well_formed(a),
        well_formed(b),
        header_text(a) == header_text(b),
    ensures
        a == b,
{
    let t = header_text(a);
    lemma_layout(a);
    lemma_layout(b);
    let k = a.kind.len() as int;
    if k < b.kind.len() {
        assert(t[k] == t.take(b.kind.len() as int)[k]);
    }
    if b.kind.len() < k {
        assert(t[b.kind.len() as int] == t.take(k)[b.kind.len() as int]);
    }
    assert(a.kind.len() == b.kind.len());
    assert(a.kind =~= b.kind);
    match (a.scope, b.scope) {
        (Some(sa), Some(sb)) => {
            if sa.len() < sb.len() {
                assert(t[k + 1 + sa.len()] == t.subrange(k + 1, k + 1 + sb.len())[sa.len() as int]);
            }
            if sb.len() < sa.len() {
                assert(t[k + 1 + sb.len()] == t.subrange(k + 1, k + 1 + sa.len())[sb.len() as int]);
            }
            assert(sa.len() == sb.len());
            assert(sa =~= sb);
        },
        _ => {},
    }
    assert(a.scope == b.scope);
    assert(a.breaking == b.breaking);
    assert(a.subject =~= b.subject);
}

/// The run of characters at the start of `line` that can stand in a type
/// ends before `n`.
spec fn kind_ends_at(line: Seq<char>, n: int) -> bool {
    &&& 0 <= n <= line.len()
    &&& forall|j: int| 0 <= j < n ==> kind_char(line[j])
    &&& n < line.len() ==> !kind_char(line[n])
}

/// An opening bracket stands at `n`, and the first closing bracket after it
/// stands at `close`, or none does and `close` is the end of the line.
spec fn scope_closes_at(line: Seq<char>, n: int, close: int) -> bool {
    &&& 0 <= n < line.len()
    &&& line[n] == '('
    &&& n + 1 <= close <= line.len()
    &&& forall|j: int| n + 1 <= j < close ==> line[j] != ')'
    &&& close < line.len() ==> line[close] == ')'
}

/// What stands between the type and the mark of a breaking change: a scope
/// in brackets that close at `close`, so that the rest starts at
/// `close + 1`; or nothing, so that the rest starts at `n`.
spec fn scope_read(line: Seq<char>, n: int, scoped: bool, close: int, pos: int) -> bool {
    if scoped {
        scope_closes_at(line, n, close) && close < line.len() && pos == close + 1
    } else {
        !(n < line.len() && line[n] == '(') && pos == n
    }
}

/// The type of a header line is the run at its start of the characters
/// that can stand in a type.
proof fn lemma_scan_kind(h: HeaderView, line: Seq<char>, n: int)
    requires
        is_header_of(h, line),
        kind_ends_at(line, n),
    ensures
        h.kind.len() == n,
        h.kind == line.take(n),
{
    lemma_layout(h);
    let k = h.kind.len() as int;
    if n < k {
        assert(line[n] == line.take(k)[n]);
    }
}

/// Where an opening bracket follows the type, the scope is what stands
/// between it and the first closing bracket.
proof fn lemma_scan_scope(h: HeaderView, line: Seq<char>, n: int, close: int)
    requires
        is_header_of(h, line),
        h.kind.len() == n,
        scope_closes_at(line, n, close),
    ensures
        close < line.len(),
        h.scope == Some(line.subrange(n + 1, close)),
        scope_text(h.scope).len() == close + 1 - n,
{
    lemma_layout(h);
    let s = h.scope->0;
    let at = n + 1 + s.len();
    if close < at {
        assert(line[close] == line.subrange(n + 1, at)[close - n - 1]);
    }
}

/// Where no opening bracket follows the type, there is no scope.
proof fn lemma_scan_no_scope(h: HeaderView, line: Seq<char>, n: int)
    requires
        is_header_of(h, line),
        h.kind.len() == n,
        !(n < line.len() && line[n] == '('),
    ensures
        h.scope is None,
        scope_text(h.scope).len() == 0,
{
    lemma_layout(h);
}

/// What follows the type and the scope: the mark of a breaking change if
/// there is one, a colon, a space, and the subject.
proof fn lemma_scan_rest(h: HeaderView, line: Seq<char>, pos: int)
    requires
        is_header_of(h, line),
        pos == h.kind.len() + scope_text(h.scope).len(),
    ensures
        h.breaking == (pos < line.len() && line[pos] == '!'),
        ({
            let colon = if h.breaking {
                pos + 1
            } else {
                pos
            };
            &&& colon + 2 <= line.len()
            &&& line[colon] == ':'
            &&& line[colon + 1] == ' '
            &&& h.subject == line.skip(colon + 2)
        }),
{
    lemma_layout(h);
}

/// A line in which the scope is not closed, or is blank, is no header line.
proof fn lemma_no_scope(line: Seq<char>, n: int, close: int)
    requires
        kind_ends_at(line, n),
        scope_closes_at(line, n, close),
        close == line.len() || blank(line.subrange(n + 1, close)),
    ensures
        parsed_line(line) is None,
{
    assert forall|h: HeaderView| !is_header_of(h, line) by {
        if is_header_of(h, line) {
            lemma_scan_kind(h, line, n);
            lemma_scan_scope(h, line, n, close);
        }
    }
}

/// A line in which no colon and space follow the type, the scope and the
/// mark of a breaking change is no header line.
proof fn lemma_no_colon(line: Seq<char>, n: int, scoped: bool, close: int, pos: int)
    requires
        kind_ends_at(line, n),
        scope_read(line, n, scoped, close, pos),
        ({
            let colon = if pos < line.len() && line[pos] == '!' {
                pos + 1
            } else {
                pos
            };
            !(colon + 2 <= line.len() && line[colon] == ':' && line[colon + 1] == ' ')
        }),
    ensures
        parsed_line(line) is None,
{
    assert forall|h: HeaderView| !is_header_of(h, line) by {
        if is_header_of(h, line) {
            lemma_scan_kind(h, line, n);
            if scoped {
                lemma_scan_scope(h, line, n, close);
            } else {
                lemma_scan_no_scope(h, line, n);
            }
            lemma_scan_rest(h, line, pos);
        }
    }
}

/// A line that was read to its end is the header line of the parts found.
proof fn lemma_read(line: Seq<char>, h: HeaderView, n: int, scoped: bool, close: int, pos: int)
    requires
        kind_ends_at(line, n),
        scope_read(line, n, scoped, close, pos),
        free_of(line, '\n'),
        h.kind == line.take(n),
        h.scope == if scoped {
            Some(line.subrange(n + 1, close))
        } else {
            None
        },
        scoped ==> !blank(line.subrange(n + 1, close)),
        h.breaking == (pos < line.len() && line[pos] == '!'),
        ({
            let colon = if h.breaking {
                pos + 1
            } else {
                pos
            };
            &&& colon + 2 <= line.len()
            &&& line[colon] == ':'
            &&& line[colon + 1] == ' '
            &&& h.subject == line.skip(colon + 2)
        }),
    ensures
        parsed_line(line) == Some(h),
{
    assert(header_text(h) =~= line);
    assert(is_header_of(h, line));
    let c = choose|c: HeaderView| is_header_of(c, line);
    lemma_header_text_injective(c, h);
}

/// The header line of well-formed parts holds no line feed.
pub proof fn lemma_header_is_one_line(h: HeaderView)
    requires
        well_formed(h),
    ensures
        free_of(header_text(h), '\n'),
{
    let t = header_text(h);
    let k = h.kind.len() as int;
    lemma_layout(h);
    assert forall|i: int| 0 <= i < t.len() implies t[i] != '\n' by {
        if i < k {
            assert(t[i] == t.take(k)[i]);
        } else if h.scope is Some && k + 1 <= i < k + 1 + h.scope->0.len() {
            assert(t[i] == t.subrange(k + 1, k + 1 + h.scope->0.len())[i - k - 1]);
        } else if i >= t.len() - h.subject.len() {
            assert(t[i] == t.skip(t.len() - h.subject.len())[i - (t.len() - h.subject.len())]);
        }
    }
}

/// Reading is the inverse of writing: the header line of well-formed parts
/// is read back as those parts.
pub proof fn lemma_parse_inverts_header_text(h: HeaderView)
    requires
        well_formed(h),
    ensures
        parsed_line(header_text(h)) == Some(h),
        parsed_header(header_text(h)) == Some(h),
{
    let t = header_text(h);
    assert(is_header_of(h, t));
    let c = choose|c: HeaderView| is_header_of(c, t);
    lemma_header_text_injective(c, h);
    lemma_header_is_one_line(h);
    lemma_first_line(t, t.len() as int);
    assert(t.take(t.len() as int) =~= t);
}

/// How many characters that can stand in a type stand at the start of `v`,
/// counted up to `to`.
fn kind_prefix(v: &Vec<char>, to: usize) -> (n: usize)
    requires
        to <= v.len(),
    ensures
        n <= to,
        n < to ==> !kind_char(v[n as int]),
        forall|j: int| 0 <= j < n ==> kind_char(v[j]),
{
    let mut n: usize = 0;
    while n < to
        invariant
            n <= to <= v.len(),
            forall|j: int| 0 <= j < n ==> kind_char(v[j]),
        decreases to - n,
    {
        let c = v[n];
        if c == '(' || c == '!' || c == ':' || c == '\n' {
            return n;
        }
        n = n + 1;
    }
    n
}

/// Reads the header of a commit text, which is its first line, back into
/// its parts. Returns the well-formed parts that make this line, and `None`
/// where no well-formed parts make it.
pub fn parse_header(text: &str) -> (r: Option<Header>)
    ensures
        match r {
            Some(h) => parsed_header(text@) == Some(h@),
            None => parsed_header(text@) is None,
        },
{
    let chars = chars_of(text);
    let end = find_char(&chars, 0, chars.len(), '\n');
    let ghost line = text@.take(end as int);
    proof {
        lemma_first_line(text@, end as int);
    }
    let n = kind_prefix(&chars, end);
    assert(kind_ends_at(line, n as int));
    let mut pos = n;
    let mut scope: Option<String> = None;
    let mut close = n;
    let scoped = pos < end && chars[pos] == '(';
    if scoped {
        close = find_char(&chars, pos + 1, end, ')');
        assert(scope_closes_at(line, n as int, close as int));
        if close == end {
            proof {
                lemma_no_scope(line, n as int, close as int);
            }
            return None;
        }
        let inner = text.substring_char(pos + 1, close);
        assert(inner@ =~= line.subrange(n + 1, close as int));
        if is_blank(inner) {
            proof {
                lemma_no_scope(line, n as int, close as int);
            }
            return None;
        }
        scope = Some(inner.to_owned());
        pos = close + 1;
    }
    assert(scope_read(line, n as int, scoped, close as int, pos as int));
    let ghost after_scope = pos as int;
    let breaking = pos < end && chars[pos] == '!';
    if breaking {
        pos = pos + 1;
    }
    if !(end - pos >= 2 && chars[pos] == ':' && chars[pos + 1] == ' ') {
        proof {
            lemma_no_colon(line, n as int, scoped, close as int, after_scope);
        }
        return None;
    }
    let kind = text.substring_char(0, n);
    let subject = text.substring_char(pos + 2, end);
    assert(kind@ =~= line.take(n as int));
    assert(subject@ =~= line.skip(pos + 2));
    let h = Header { kind: kind.to_owned(), scope, breaking, subject: subject.to_owned() };
    proof {
        lemma_read(line, h@, n as int, scoped, close as int, after_scope);
    }
    Some(h)
}

/// Writes a header line from its parts.
pub fn write_header(kind: &str, scope: Option<&str>, breaking: bool, subject: &str) -> (r: String)
    ensures
        r@ == header_text(
            (HeaderView {
                kind: kind@,
                scope: match scope {
                    Some(s) => Some(s@),
                    None => None,
                },
                breaking,
                subject: subject@,
            }),
        ),
{
    proof {
        reveal_strlit("(");
        reveal_strlit(")");
        reveal_strlit("!");
        reveal_strlit(": ");
    }
    let mut out = kind.to_owned();
    match scope {
        Some(s) => {
            out.append("(");
            out.append(s);
            out.append(")");
            assert(out@ =~= kind@ + scope_text(Some(s@)));
        },
        None => {
            assert(out@ =~= kind@ + scope_text(None));
        },
    }
    if breaking {
        out.append("!");
    }
    assert(out@ =~= kind@ + scope_text(
        match scope {
            Some(s) => Some(s@),
            None => None,
        },
    ) + breaking_text(breaking));
    out.append(": ");
    out.append(subject);
    out
}

impl Header {
    /// The header line that these parts make.
    pub fn text(&self) -> (r: String)
        ensures
            r@ == header_text(self@),
    {
        let scope = match &self.scope {
            Some(s) => Some(s.as_str()),
            None => None,
        };
        write_header(self.kind.as_str(), scope, self.breaking, self.subject.as_str())
    }
}

} // verus!
