//! What the dialogue with the user computes: the summary of an answer, the
//! colour in which a chosen type is shown, and whether the work tree is
//! ready for a commit.

use crate::text::{occurs_in, str_contains};
use vstd::prelude::*;
use vstd::string::*;

verus! {

/// The longest answer that is shown in full.
pub const SUMMARY_LIMIT: usize = 50;

/// How many characters of a longer answer are shown.
pub const SUMMARY_KEPT: usize = 47;

/// The line of `git status` that tells of changes that are not staged.
pub const NOT_STAGED: &'static str = "Changes not staged for commit";

/// One of two texts, by a condition.
pub fn format_part(condition: bool, true_format: &str, false_format: &str) -> (r: String)
    ensures
        r@ == if condition {
            true_format@
        } else {
            false_format@
        },
{
    if condition {
        true_format.to_owned()
    } else {
        false_format.to_owned()
    }
}

/// The summary of an answer: `<empty>` for the empty answer, an answer of up
/// to `SUMMARY_LIMIT` characters as it is, and of a longer one its first
/// `SUMMARY_KEPT` characters and three dots.
pub open spec fn summary(submission: Seq<char>) -> Seq<char> {
    if submission.len() == 0 {
        "<empty>"@
    } else if submission.len() <= SUMMARY_LIMIT {
        submission
    } else {
        submission.take(SUMMARY_KEPT as int) + "..."@
    }
}

/// Sums an answer up for display.
pub fn summarize(submission: &str) -> (r: String)
    ensures
        r@ == summary(submission@),
{
    let count = submission.unicode_len();
    if count == 0 {
        "<empty>".to_owned()
    } else if count <= SUMMARY_LIMIT {
        submission.to_owned()
    } else {
        let mut out = submission.substring_char(0, SUMMARY_KEPT).to_owned();
        out.append("...");
        assert(submission@.subrange(0, SUMMARY_KEPT as int) =~= submission@.take(
            SUMMARY_KEPT as int,
        ));
        out
    }
}

/// The colours in which a chosen type is shown.
#[derive(Debug, Clone, Copy, PartialEq, Eq)]
pub enum KindColor {
    Blue,
    Magenta,
    Yellow,
    Cyan,
    Red,
    Green,
    BrightMagenta,
    White,
}

/// The colour at a place of the palette. What lies beyond the palette is
/// white.
pub open spec fn palette(place: int) -> KindColor {
    if place == 0 {
        KindColor::Blue
    } else if place == 1 {
        KindColor::Magenta
    } else if place == 2 {
        KindColor::Yellow
    } else if place == 3 {
        KindColor::Cyan
    } else if place == 4 {
        KindColor::Red
    } else if place == 5 {
        KindColor::Green
    } else if place == 6 {
        KindColor::BrightMagenta
    } else {
        KindColor::White
    }
}

/// The place of a type among the types on offer: that of its first
/// occurrence, or the first place where it is not among them.
pub open spec fn place_of(kinds: Seq<Seq<char>>, selection: Seq<char>) -> int {
    match kinds.index_of_first(selection) {
        Some(i) => i,
        None => 0,
    }
}

/// The place of `selection` among `kinds`.
fn find_place(kinds: &Vec<String>, selection: &String) -> (place: usize)
    ensures
        place == place_of(kinds.deep_view(), selection@),
{
    let ghost names = kinds.deep_view();
    let mut i: usize = 0;
    while i < kinds.len()
        invariant
            i <= kinds.len(),
            names == kinds.deep_view(),
            forall|j: int| 0 <= j < i ==> names[j] != selection@,
        decreases kinds.len() - i,
    {
        if kinds[i] == *selection {
            proof {
                assert(names[i as int] == selection@);
                names.index_of_first_ensures(selection@);
            }
            return i;
        }
        i = i + 1;
    }
    proof {
        names.index_of_first_ensures(selection@);
    }
    0
}

/// The colour in which the chosen type is shown: the one that the palette
/// has at the place of the type among the types on offer.
pub fn kind_color(kinds: &Vec<String>, selection: &String) -> (r: KindColor)
    ensures
        r == palette(place_of(kinds.deep_view(), selection@)),
{
    let place = find_place(kinds, selection);
    if place == 0 {
        KindColor::Blue
    } else if place == 1 {
        KindColor::Magenta
    } else if place == 2 {
        KindColor::Yellow
    } else if place == 3 {
        KindColor::Cyan
    } else if place == 4 {
        KindColor::Red
    } else if place == 5 {
        KindColor::Green
    } else if place == 6 {
        KindColor::BrightMagenta
    } else {
        KindColor::White
    }
}

/// Tells whether a commit can go ahead, from what `git status` gave: it ran
/// well, and its output does not speak of changes that are not staged.
pub fn is_staged(status_succeeded: bool, status_output: &str) -> (r: bool)
    ensures
        r == (status_succeeded && !occurs_in(NOT_STAGED@, status_output@)),
{
    status_succeeded && !str_contains(status_output, NOT_STAGED)
}

} // verus!
