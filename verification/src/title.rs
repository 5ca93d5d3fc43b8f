//! Single-line titles cut to the width they are given, at grapheme boundaries.
use vstd::prelude::*;
use crate::text::{chars_of, push_char};
use unicode_segmentation::UnicodeSegmentation;

verus! {

/// The title on one line: line breaks read as spaces.
pub open spec fn one_line(text: Seq<char>) -> Seq<char> {
    text.map_values(|c: char| if c == '\n' || c == '\r' { ' ' } else { c })
}

/// The first `k` pieces, joined.
pub open spec fn joined(parts: Seq<Seq<char>>, k: int) -> Seq<char>
    decreases k,
{
    if k <= 0 {
        Seq::empty()
    } else {
        joined(parts, k - 1) + parts[k - 1]
    }
}

pub open spec fn ellipsis() -> Seq<char> {
    seq!['\u{2026}']
}

/// A shortened title: the first `k` graphemes and an ellipsis.
pub open spec fn shortened(parts: Seq<Seq<char>>, k: int) -> Seq<char> {
    joined(parts, k) + ellipsis()
}

pub open spec fn part_views(parts: Seq<String>) -> Seq<Seq<char>> {
    parts.map_values(|p: String| p@)
}

/// The width test answered `result` for this text.
pub open spec fn measured<F: Fn(&str) -> bool>(fits: F, text: Seq<char>, result: bool) -> bool {
    exists|s: &str| s@ == text && call_ensures(fits, (s,), result)
}

/// The title as shown: whole when it fits; nothing when not even an
/// ellipsis fits; otherwise the longest run of leading graphemes, short of
/// the whole title, that fits with an ellipsis after it. The search for it
/// settles on a `cut` such that the first `cut - 1` graphemes fit with the
/// ellipsis (or `cut` is zero) and the first `cut` do not (or `cut` counts
/// them all).
pub open spec fn fitted_title<F: Fn(&str) -> bool>(fits: F, text: Seq<char>, parts: Seq<Seq<char>>, fitted: Seq<char>) -> bool {
    let line = one_line(text);
    ||| fitted == line && measured(fits, line, true)
    ||| fitted.len() == 0 && measured(fits, line, false) && measured(fits, ellipsis(), false)
    ||| measured(fits, line, false) && measured(fits, ellipsis(), true) && exists|cut: int| {
        &&& 0 <= cut <= parts.len()
        &&& fitted == shortened(parts, if cut == 0 { 0 } else { cut - 1 })
        &&& (cut == 0 || measured(fits, fitted, true))
        &&& (cut == parts.len() || measured(fits, #[trigger] shortened(parts, cut), false))
    }
}

proof fn lemma_cut_fits<F: Fn(&str) -> bool>(fits: F, text: Seq<char>, parts: Seq<Seq<char>>, fitted: Seq<char>, cut: int)
    requires
        measured(fits, one_line(text), false),
        measured(fits, ellipsis(), true),
        0 <= cut <= parts.len(),
        fitted == shortened(parts, if cut == 0 { 0 } else { cut - 1 }),
        cut == 0 || measured(fits, fitted, true),
        cut == parts.len() || measured(fits, shortened(parts, cut), false),
    ensures
        fitted_title(fits, text, parts, fitted),
{
    assert(cut == parts.len() || measured(fits, shortened(parts, cut), false));
}

/// The text with line breaks replaced by spaces.
fn single_line(text: &str) -> (line: String)
    ensures
        line@ == one_line(text@),
{
    let chars = chars_of(text);
    let mut line = String::new();
    let mut i: usize = 0;
    while i < chars.len()
        invariant
            0 <= i <= chars@.len(),
            chars@ == text@,
            line@ == one_line(text@).take(i as int),
        decreases chars@.len() - i,
    {
        let c = chars[i];
        push_char(&mut line, if c == '\n' || c == '\r' { ' ' } else { c });
        i = i + 1;
        assert(line@ =~= one_line(text@).take(i as int));
    }
    assert(line@ =~= one_line(text@));
    line
}

/// The first `k` graphemes and an ellipsis.
fn shorten(parts: &Vec<String>, k: usize) -> (text: String)
    requires
        k <= parts@.len(),
    ensures
        text@ == shortened(part_views(parts@), k as int),
{
    let ghost views = part_views(parts@);
    let mut text = String::new();
    let mut i: usize = 0;
    while i < k
        invariant
            0 <= i <= k <= parts@.len(),
            views == part_views(parts@),
            text@ == joined(views, i as int),
        decreases k - i,
    {
        text.append(parts[i].as_str());
        assert(views[i as int] == parts@[i as int]@);
        i = i + 1;
    }
    text.append("\u{2026}");
    proof {
        reveal_strlit("\u{2026}");
        assert(text@ =~= shortened(views, k as int));
    }
    text
}

/// Fit a title given its graphemes, asking `fits` whether a text fits.
pub fn fit_graphemes<F: Fn(&str) -> bool>(text: &str, graphemes: &Vec<String>, fits: &F) -> (fitted: String)
    requires
        forall|s: &str| call_requires(*fits, (s,)),
    ensures
        fitted_title(*fits, text@, part_views(graphemes@), fitted@),
{
    let line = single_line(text);
    let whole = fits(line.as_str());
    assert(measured(*fits, line@, whole));
    if whole {
        return line;
    }
    let mark = String::from_str("\u{2026}");
    let room = fits(mark.as_str());
    proof {
        reveal_strlit("\u{2026}");
        assert(mark@ =~= ellipsis());
        assert(measured(*fits, ellipsis(), room));
    }
    if !room {
        let none = String::new();
        assert(none@.len() == 0);
        return none;
    }
    let ghost parts = part_views(graphemes@);
    let n = graphemes.len();
    let mut low: usize = 0;
    let mut high: usize = n;
    while low < high
        invariant
            0 <= low <= high <= n,
            n == graphemes@.len(),
            parts == part_views(graphemes@),
            forall|s: &str| call_requires(*fits, (s,)),
            low == 0 || measured(*fits, shortened(parts, low - 1), true),
            high == n || measured(*fits, shortened(parts, high as int), false),
        decreases high - low,
    {
        let mid = high - (high - low) / 2;
        let candidate = shorten(graphemes, mid - 1);
        let ok = fits(candidate.as_str());
        assert(measured(*fits, shortened(parts, mid - 1), ok));
        if ok {
            low = mid;
        } else {
            high = mid - 1;
        }
    }
    let fitted = shorten(graphemes, if low == 0 { 0 } else { low - 1 });
    proof {
        lemma_cut_fits(*fits, text@, parts, fitted@, low as int);
    }
    fitted
}

/// What `UnicodeSegmentation::graphemes` yields for a text, extended clusters.
pub uninterp spec fn graphemes_of(text: Seq<char>) -> Seq<Seq<char>>;

/// The extended grapheme clusters of a text (`UnicodeSegmentation::graphemes`
/// with `is_extended` true). Claimed: the result is the named segmentation of
/// the text, and its pieces, in order, make up the text (the iterator yields
/// consecutive slices from the start of the text to its end). Where the
/// boundaries fall (UAX #29) is not stated.
#[verifier::external_body]
fn graphemes(text: &str) -> (parts: Vec<String>)
    ensures
        part_views(parts@) == graphemes_of(text@),
        joined(part_views(parts@), parts@.len() as int) == text@,
{
    text.graphemes(true).map(|g| g.to_owned()).collect()
}

/// Fit a title to the width that `fits` accepts, cutting only between
/// grapheme clusters.
pub fn fit_title<F: Fn(&str) -> bool>(text: &str, fits: &F) -> (fitted: String)
    requires
        forall|s: &str| call_requires(*fits, (s,)),
    ensures
        fitted_title(*fits, text@, graphemes_of(one_line(text@)), fitted@),
        joined(graphemes_of(one_line(text@)), graphemes_of(one_line(text@)).len() as int) == one_line(text@),
{
    let line = single_line(text);
    let parts = graphemes(line.as_str());
    fit_graphemes(text, &parts, fits)
}

/// The first `k` pieces start the first `m`, for `k <= m`.
proof fn lemma_joined_prefix(parts: Seq<Seq<char>>, k: int, m: int)
    requires
        0 <= k <= m <= parts.len(),
    ensures
        joined(parts, k).len() <= joined(parts, m).len(),
        joined(parts, m).take(joined(parts, k).len() as int) == joined(parts, k),
    decreases m - k,
{
    if k < m {
        lemma_joined_prefix(parts, k, m - 1);
        let a = joined(parts, m - 1);
        assert(joined(parts, m) == a + parts[m - 1]);
        assert((a + parts[m - 1]).take(joined(parts, k).len() as int) =~= a.take(joined(parts, k).len() as int));
    } else {
        assert(joined(parts, m).take(joined(parts, m).len() as int) =~= joined(parts, m));
    }
}

/// A shortened title keeps the start of the title up to a grapheme boundary,
/// then the ellipsis.
pub proof fn law_cut_keeps_the_start(parts: Seq<Seq<char>>, line: Seq<char>, k: int)
    requires
        joined(parts, parts.len() as int) == line,
        0 <= k <= parts.len(),
    ensures
        shortened(parts, k) == line.take(joined(parts, k).len() as int) + ellipsis(),
{
    lemma_joined_prefix(parts, k, parts.len() as int);
}

} // verus!
