use quickgc::prompt::{
    format_part, is_staged, kind_color, summarize, KindColor, NOT_STAGED, SUMMARY_KEPT,
    SUMMARY_LIMIT,
};

#[test]
fn format_part_picks_by_the_condition() {
    assert_eq!(format_part(true, "!", ""), "!");
    assert_eq!(format_part(false, "!", ""), "");
    assert_eq!(format_part(true, "(api)", "none"), "(api)");
    assert_eq!(format_part(false, "(api)", "none"), "none");
}

#[test]
fn summary_of_nothing_says_so() {
    assert_eq!(summarize(""), "<empty>");
}

#[test]
fn summary_of_a_short_answer_is_the_answer() {
    assert_eq!(summarize("a"), "a");
    assert_eq!(summarize("line one\nline two"), "line one\nline two");
    let fifty = "x".repeat(50);
    assert_eq!(SUMMARY_LIMIT, 50);
    assert_eq!(summarize(&fifty), fifty);
}

#[test]
fn summary_of_a_long_answer_is_cut() {
    assert_eq!(SUMMARY_KEPT, 47);
    let long = "abcdefghij".repeat(6);
    assert_eq!(summarize(&long), "abcdefghijabcdefghijabcdefghijabcdefghijabcdefg...");
    let fifty_one = "y".repeat(51);
    assert_eq!(summarize(&fifty_one), format!("{}...", "y".repeat(47)));
    assert_eq!(summarize(&fifty_one).chars().count(), 50);
}

#[test]
fn summary_counts_characters() {
    let fifty = "\u{e9}".repeat(50);
    assert_eq!(summarize(&fifty), fifty);
    let more = "\u{4e2d}".repeat(60);
    assert_eq!(summarize(&more), format!("{}...", "\u{4e2d}".repeat(47)));
}

fn kinds(names: &[&str]) -> Vec<String> {
    names.iter().map(|n| n.to_string()).collect()
}

#[test]
fn each_kind_has_the_colour_of_its_place() {
    let offered = kinds(&["build", "chore", "ci", "feat", "fix", "style", "refactor", "docs", "perf"]);
    let expected = [
        KindColor::Blue,
        KindColor::Magenta,
        KindColor::Yellow,
        KindColor::Cyan,
        KindColor::Red,
        KindColor::Green,
        KindColor::BrightMagenta,
        KindColor::White,
        KindColor::White,
    ];
    for (name, color) in offered.iter().zip(expected.iter()) {
        assert_eq!(kind_color(&offered, name), *color, "{}", name);
    }
}

#[test]
fn an_unknown_kind_has_the_first_colour() {
    let offered = kinds(&["build", "chore"]);
    assert_eq!(kind_color(&offered, &"feat".to_string()), KindColor::Blue);
    assert_eq!(kind_color(&Vec::new(), &"feat".to_string()), KindColor::Blue);
}

#[test]
fn a_kind_offered_twice_has_the_colour_of_its_first_place() {
    let offered = kinds(&["a", "b", "c", "b"]);
    assert_eq!(kind_color(&offered, &"b".to_string()), KindColor::Magenta);
}

#[test]
fn staged_means_status_ran_and_names_nothing_unstaged() {
    assert_eq!(NOT_STAGED, "Changes not staged for commit");
    let clean = "On branch main\nChanges to be committed:\n\tnew file: a\n";
    let dirty = "On branch main\nChanges not staged for commit:\n\tmodified: a\n";
    assert!(is_staged(true, clean));
    assert!(is_staged(true, ""));
    assert!(!is_staged(true, dirty));
    assert!(!is_staged(false, clean));
    assert!(!is_staged(false, dirty));
}
