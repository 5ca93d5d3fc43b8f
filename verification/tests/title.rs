use iced_m3::{fit_graphemes, fit_title};
use unicode_segmentation::UnicodeSegmentation;

/// A stand-in for text measurement: every character is 11 units wide.
fn width(text: &str) -> f32 {
    text.chars().count() as f32 * 11.0
}

#[test]
fn titles_fit_without_splitting_graphemes_and_expand_again() {
    for original in ["Workspace release planning", "Cafe\u{301} 👩🏽‍💻 family 👨‍👩‍👧‍👦"] {
        for limit in [0.0, 8.0, 25.0, 60.0, 120.0, 240.0] {
            let fits = |text: &str| width(text) <= limit;
            let fitted = fit_title(original, &fits);
            assert!(width(&fitted) <= limit);
            if let Some(prefix) = fitted.strip_suffix('…') {
                assert!(original.grapheme_indices(true).any(|(i, _)| i == prefix.len()));
            }
        }
        assert_eq!(fit_title(original, &|text: &str| width(text) <= 2000.0), original);
    }
}

#[test]
fn titles_are_cut_to_the_longest_fitting_start() {
    let fits = |text: &str| width(text) <= 110.0;
    assert_eq!(fit_title("Workspace release planning", &fits), "Workspace…");
    assert_eq!(fit_title("Short", &fits), "Short");
    assert_eq!(fit_title("Two\nlines", &|text: &str| width(text) <= 200.0), "Two lines");
    assert_eq!(fit_title("Anything", &|text: &str| width(text) <= 5.0), "");
    assert_eq!(fit_title("Anything", &|text: &str| width(text) <= 11.0), "…");
    // a family emoji is one cluster of several characters: it stays whole or goes
    let family = "ab👨‍👩‍👧‍👦";
    assert_eq!(fit_title(family, &|text: &str| width(text) <= 44.0), "ab…");
}

#[test]
fn fitting_uses_the_given_clusters() {
    let parts: Vec<String> = ["ab", "cd", "ef"].iter().map(|s| s.to_string()).collect();
    assert_eq!(fit_graphemes("abcdef", &parts, &|text: &str| width(text) <= 33.0), "ab…");
    assert_eq!(fit_graphemes("abcdef", &parts, &|text: &str| width(text) <= 55.0), "abcd…");
    assert_eq!(fit_graphemes("abcdef", &parts, &|text: &str| width(text) <= 66.0), "abcdef");
}
