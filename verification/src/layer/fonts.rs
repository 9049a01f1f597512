//! Reading MapLibre `text-font` entries as font families, a weight and a style.
//!
//! MapLibre encodes weight and style as suffixes appended to the family name,
//! e.g. `"Roboto Bold Italic"` or `"Noto Sans Regular"`.
use vstd::prelude::*;

use crate::text::{
    chars_of, ends_with, ends_with_exec, is_trimmed, lemma_trim_is_trimmed, string_from_chars,
    sub_chars, trim, trim_chars,
};

verus! {

broadcast use vstd::string::group_string_axioms;

/// Font weight named by a `text-font` entry.
#[derive(Debug, Clone, Copy, PartialEq, Eq, Structural)]
pub enum FontWeight {
    /// `Thin`.
    Thin,
    /// `ExtraLight`.
    ExtraLight,
    /// `Light`.
    Light,
    /// `Regular`, and the weight when none is named.
    Normal,
    /// `Medium`.
    Medium,
    /// `SemiBold`.
    SemiBold,
    /// `Bold`.
    Bold,
    /// `ExtraBold`.
    ExtraBold,
    /// `Black` or `Heavy`.
    Black,
}

/// Font style named by a `text-font` entry.
#[derive(Debug, Clone, Copy, PartialEq, Eq, Structural)]
pub enum FontStyle {
    /// No style keyword.
    Normal,
    /// `Italic`.
    Italic,
    /// `Oblique`.
    Oblique,
}

/// The style keywords, in the order in which they are tried.
pub open spec fn style_keywords() -> Seq<Seq<char>> {
    seq!["Italic"@, "Oblique"@]
}

/// The style that the style keyword at `i` names.
pub open spec fn style_of_keyword(i: int) -> FontStyle {
    if i == 0 {
        FontStyle::Italic
    } else {
        FontStyle::Oblique
    }
}

/// The weight keywords, in the order in which they are tried: each keyword
/// comes before every shorter keyword that ends it (`ExtraLight` before
/// `Light`, `SemiBold` and `ExtraBold` before `Bold`), so that a keyword is
/// always taken off whole.
pub open spec fn weight_keywords() -> Seq<Seq<char>> {
    seq![
        "Thin"@,
        "ExtraLight"@,
        "Light"@,
        "Regular"@,
        "Medium"@,
        "SemiBold"@,
        "ExtraBold"@,
        "Bold"@,
        "Black"@,
        "Heavy"@,
    ]
}

/// The weight that the weight keyword at `i` names.
pub open spec fn weight_of_keyword(i: int) -> FontWeight {
    if i == 0 {
        FontWeight::Thin
    } else if i == 1 {
        FontWeight::ExtraLight
    } else if i == 2 {
        FontWeight::Light
    } else if i == 3 {
        FontWeight::Normal
    } else if i == 4 {
        FontWeight::Medium
    } else if i == 5 {
        FontWeight::SemiBold
    } else if i == 6 {
        FontWeight::ExtraBold
    } else if i == 7 {
        FontWeight::Bold
    } else {
        FontWeight::Black
    }
}

/// The first keyword of `kws`, from position `start` on, that `s` ends with.
pub open spec fn first_suffix(s: Seq<char>, kws: Seq<Seq<char>>, start: int) -> Option<int>
    decreases kws.len() - start,
{
    if start < 0 || start >= kws.len() {
        None
    } else if ends_with(s, kws[start]) {
        Some(start)
    } else {
        first_suffix(s, kws, start + 1)
    }
}

/// `s` with the first keyword of `kws` that ends it taken off and the rest
/// trimmed, and the position of that keyword; `s` itself when none ends it.
pub open spec fn strip_keyword(s: Seq<char>, kws: Seq<Seq<char>>) -> (Seq<char>, Option<int>) {
    match first_suffix(s, kws, 0) {
        Some(i) => (trim(s.subrange(0, s.len() - kws[i].len())), Some(i)),
        None => (s, None),
    }
}

/// The family name that a `text-font` entry names: the entry trimmed, then
/// without its style keyword, then without its weight keyword.
pub open spec fn family_name(entry: Seq<char>) -> Seq<char> {
    strip_keyword(strip_keyword(trim(entry), style_keywords()).0, weight_keywords()).0
}

/// The non-empty family names of `entries`, in order.
pub open spec fn families(entries: Seq<Seq<char>>) -> Seq<Seq<char>>
    decreases entries.len(),
{
    if entries.len() == 0 {
        seq![]
    } else {
        let f = family_name(entries.last());
        families(entries.drop_last()) + if f.len() > 0 {
            seq![f]
        } else {
            seq![]
        }
    }
}

/// The style keyword that ends entry `entry` (after trimming), if any.
pub open spec fn entry_style(entry: Seq<char>) -> Option<FontStyle> {
    match strip_keyword(trim(entry), style_keywords()).1 {
        Some(i) => Some(style_of_keyword(i)),
        None => None,
    }
}

/// The weight keyword that ends entry `entry` once trimmed and rid of its
/// style keyword, if any.
pub open spec fn entry_weight(entry: Seq<char>) -> Option<FontWeight> {
    match strip_keyword(strip_keyword(trim(entry), style_keywords()).0, weight_keywords()).1 {
        Some(i) => Some(weight_of_keyword(i)),
        None => None,
    }
}

/// The style named by the first of `entries` that names one.
pub open spec fn first_style(entries: Seq<Seq<char>>) -> Option<FontStyle>
    decreases entries.len(),
{
    if entries.len() == 0 {
        None
    } else {
        match first_style(entries.drop_last()) {
            Some(s) => Some(s),
            None => entry_style(entries.last()),
        }
    }
}

/// The weight named by the first of `entries` that names one.
pub open spec fn first_weight(entries: Seq<Seq<char>>) -> Option<FontWeight>
    decreases entries.len(),
{
    if entries.len() == 0 {
        None
    } else {
        match first_weight(entries.drop_last()) {
            Some(w) => Some(w),
            None => entry_weight(entries.last()),
        }
    }
}

/// The style of a font stack: that of the first entry that names one,
/// `Normal` when none does.
pub open spec fn font_style_of(entries: Seq<Seq<char>>) -> FontStyle {
    match first_style(entries) {
        Some(s) => s,
        None => FontStyle::Normal,
    }
}

/// The weight of a font stack: that of the first entry that names one,
/// `Normal` when none does.
pub open spec fn font_weight_of(entries: Seq<Seq<char>>) -> FontWeight {
    match first_weight(entries) {
        Some(w) => w,
        None => FontWeight::Normal,
    }
}

/// The characters of each string of `v`.
pub open spec fn strings_chars(v: Seq<String>) -> Seq<Seq<char>> {
    v.map_values(|s: String| s@)
}

/// An optional position as an integer.
pub open spec fn opt_index(o: Option<usize>) -> Option<int> {
    match o {
        Some(i) => Some(i as int),
        None => None,
    }
}

fn style_table() -> (t: Vec<Vec<char>>)
    ensures
        t@.len() == style_keywords().len(),
        forall|i: int| 0 <= i < t@.len() ==> (#[trigger] t@[i])@ == style_keywords()[i],
{
    let mut t: Vec<Vec<char>> = Vec::new();
    t.push(chars_of("Italic"));
    t.push(chars_of("Oblique"));
    t
}

fn weight_table() -> (t: Vec<Vec<char>>)
    ensures
        t@.len() == weight_keywords().len(),
        forall|i: int| 0 <= i < t@.len() ==> (#[trigger] t@[i])@ == weight_keywords()[i],
{
    let mut t: Vec<Vec<char>> = Vec::new();
    t.push(chars_of("Thin"));
    t.push(chars_of("ExtraLight"));
    t.push(chars_of("Light"));
    t.push(chars_of("Regular"));
    t.push(chars_of("Medium"));
    t.push(chars_of("SemiBold"));
    t.push(chars_of("ExtraBold"));
    t.push(chars_of("Bold"));
    t.push(chars_of("Black"));
    t.push(chars_of("Heavy"));
    t
}

fn style_at(i: usize) -> (s: FontStyle)
    requires
        i < 2,
    ensures
        s == style_of_keyword(i as int),
{
    if i == 0 {
        FontStyle::Italic
    } else {
        FontStyle::Oblique
    }
}

fn weight_at(i: usize) -> (w: FontWeight)
    requires
        i < 10,
    ensures
        w == weight_of_keyword(i as int),
{
    if i == 0 {
        FontWeight::Thin
    } else if i == 1 {
        FontWeight::ExtraLight
    } else if i == 2 {
        FontWeight::Light
    } else if i == 3 {
        FontWeight::Normal
    } else if i == 4 {
        FontWeight::Medium
    } else if i == 5 {
        FontWeight::SemiBold
    } else if i == 6 {
        FontWeight::ExtraBold
    } else if i == 7 {
        FontWeight::Bold
    } else {
        FontWeight::Black
    }
}

fn strip_keyword_exec(s: &Vec<char>, table: &Vec<Vec<char>>, Ghost(kws): Ghost<Seq<Seq<char>>>) -> (r: (
    Vec<char>,
    Option<usize>,
))
    requires
        table@.len() == kws.len(),
        forall|i: int| 0 <= i < kws.len() ==> (#[trigger] table@[i])@ == kws[i],
    ensures
        r.0@ == strip_keyword(s@, kws).0,
        opt_index(r.1) == strip_keyword(s@, kws).1,
        r.1 matches Some(i) ==> i < kws.len(),
{
    let mut i: usize = 0;
    while i < table.len()
        invariant
            0 <= i <= table@.len() == kws.len(),
            forall|k: int| 0 <= k < kws.len() ==> (#[trigger] table@[k])@ == kws[k],
            first_suffix(s@, kws, 0) == first_suffix(s@, kws, i as int),
        decreases table.len() - i,
    {
        if ends_with_exec(s, &table[i]) {
            let rest = sub_chars(s, 0, s.len() - table[i].len());
            return (trim_chars(&rest), Some(i));
        }
        i += 1;
    }
    (sub_chars(s, 0, s.len()), None)
}

proof fn lemma_take_step(entries: Seq<Seq<char>>, i: int)
    requires
        0 <= i < entries.len(),
    ensures
        families(entries.take(i + 1)) == families(entries.take(i)) + if family_name(
            entries[i],
        ).len() > 0 {
            seq![family_name(entries[i])]
        } else {
            seq![]
        },
        first_style(entries.take(i + 1)) == match first_style(entries.take(i)) {
            Some(s) => Some(s),
            None => entry_style(entries[i]),
        },
        first_weight(entries.take(i + 1)) == match first_weight(entries.take(i)) {
            Some(w) => Some(w),
            None => entry_weight(entries[i]),
        },
{
    assert(entries.take(i + 1).drop_last() =~= entries.take(i));
}

/// Parses MapLibre `text-font` entries into a font family list, a [`FontWeight`]
/// and a [`FontStyle`].
///
/// Each entry is trimmed, then loses the first style keyword (`Italic`,
/// `Oblique`) that ends it, then the first weight keyword (`Thin`, ...,
/// `Heavy`, each longer keyword tried before the shorter ones that end it)
/// that ends what is left, each time with the
/// rest trimmed again. The non-empty remainders are the families, in order, so
/// that the renderer can fall back through the list. The weight and the style
/// are those of the first entry that names one; `Normal` where none does.
pub fn parse_ml_fonts(text_font: &[String]) -> (r: (Vec<String>, FontWeight, FontStyle))
    ensures
        strings_chars(r.0@) == families(strings_chars(text_font@)),
        r.1 == font_weight_of(strings_chars(text_font@)),
        r.2 == font_style_of(strings_chars(text_font@)),
{
    let ghost entries = strings_chars(text_font@);
    let styles = style_table();
    let weights = weight_table();
    let mut families_out: Vec<String> = Vec::new();
    let mut resolved_weight: Option<FontWeight> = None;
    let mut resolved_style: Option<FontStyle> = None;
    let mut i: usize = 0;
    while i < text_font.len()
        invariant
            0 <= i <= text_font@.len() == entries.len(),
            entries == strings_chars(text_font@),
            styles@.len() == style_keywords().len(),
            forall|k: int|
                0 <= k < styles@.len() ==> (#[trigger] styles@[k])@ == style_keywords()[k],
            weights@.len() == weight_keywords().len(),
            forall|k: int|
                0 <= k < weights@.len() ==> (#[trigger] weights@[k])@ == weight_keywords()[k],
            strings_chars(families_out@) == families(entries.take(i as int)),
            resolved_weight == first_weight(entries.take(i as int)),
            resolved_style == first_style(entries.take(i as int)),
        decreases text_font.len() - i,
    {
        let entry = chars_of(text_font[i].as_str());
        assert(entry@ == entries[i as int]);
        let trimmed = trim_chars(&entry);
        let (after_style, style) = strip_keyword_exec(&trimmed, &styles, Ghost(style_keywords()));
        let (rest, weight) = strip_keyword_exec(&after_style, &weights, Ghost(weight_keywords()));
        proof {
            lemma_take_step(entries, i as int);
        }
        if resolved_style.is_none() {
            if let Some(k) = style {
                resolved_style = Some(style_at(k));
            }
        }
        if resolved_weight.is_none() {
            if let Some(k) = weight {
                resolved_weight = Some(weight_at(k));
            }
        }
        assert(rest@ == family_name(entries[i as int]));
        if rest.len() > 0 {
            let ghost before = families_out@;
            families_out.push(string_from_chars(rest.as_slice()));
            assert(strings_chars(families_out@) =~= strings_chars(before).push(rest@));
        }
        i += 1;
    }
    assert(entries.take(text_font.len() as int) =~= entries);
    let weight = match resolved_weight {
        Some(w) => w,
        None => FontWeight::Normal,
    };
    let style = match resolved_style {
        Some(s) => s,
        None => FontStyle::Normal,
    };
    (families_out, weight, style)
}

/// The family list of a font stack is the family lists of its parts, one
/// after the other: every entry contributes its family on its own, so that the
/// renderer can fall back through the list in order.
pub proof fn lemma_families_append(a: Seq<Seq<char>>, b: Seq<Seq<char>>)
    ensures
        families(a + b) == families(a) + families(b),
    decreases b.len(),
{
    if b.len() == 0 {
        assert(a + b =~= a);
        assert(families(a) + families(b) =~= families(a));
    } else {
        assert((a + b).drop_last() =~= a + b.drop_last());
        assert((a + b).last() == b.last());
        lemma_families_append(a, b.drop_last());
        let f = family_name(b.last());
        let tail: Seq<Seq<char>> = if f.len() > 0 {
            seq![f]
        } else {
            seq![]
        };
        assert(families(a) + families(b.drop_last()) + tail =~= families(a) + (families(
            b.drop_last(),
        ) + tail));
    }
}

proof fn lemma_strip_keeps_trimmed(s: Seq<char>, kws: Seq<Seq<char>>)
    requires
        is_trimmed(s),
    ensures
        is_trimmed(strip_keyword(s, kws).0),
{
    if let Some(i) = first_suffix(s, kws, 0) {
        lemma_trim_is_trimmed(s.subrange(0, s.len() - kws[i].len()));
    }
}

proof fn lemma_family_name_trimmed(entry: Seq<char>)
    ensures
        is_trimmed(family_name(entry)),
{
    lemma_trim_is_trimmed(entry);
    lemma_strip_keeps_trimmed(trim(entry), style_keywords());
    lemma_strip_keeps_trimmed(strip_keyword(trim(entry), style_keywords()).0, weight_keywords());
}

/// Every family of a font stack is a non-empty name with no whitespace at
/// either end, and a stack has at most as many families as entries.
pub proof fn lemma_families_clean(entries: Seq<Seq<char>>)
    ensures
        families(entries).len() <= entries.len(),
        forall|k: int|
            0 <= k < families(entries).len() ==> (#[trigger] families(entries)[k]).len() > 0
                && is_trimmed(families(entries)[k]),
    decreases entries.len(),
{
    if entries.len() > 0 {
        lemma_families_clean(entries.drop_last());
        lemma_family_name_trimmed(entries.last());
    }
}

proof fn lemma_no_style_named(entries: Seq<Seq<char>>)
    requires
        forall|k: int| 0 <= k < entries.len() ==> (#[trigger] entry_style(entries[k])) is None,
    ensures
        first_style(entries) is None,
    decreases entries.len(),
{
    if entries.len() > 0 {
        lemma_no_style_named(entries.drop_last());
        assert(entry_style(entries[entries.len() - 1]) is None);
    }
}

proof fn lemma_no_weight_named(entries: Seq<Seq<char>>)
    requires
        forall|k: int| 0 <= k < entries.len() ==> (#[trigger] entry_weight(entries[k])) is None,
    ensures
        first_weight(entries) is None,
    decreases entries.len(),
{
    if entries.len() > 0 {
        lemma_no_weight_named(entries.drop_last());
        assert(entry_weight(entries[entries.len() - 1]) is None);
    }
}

/// The style of a font stack is the one named by the first entry that names a
/// style, whatever the entries after it name; `Normal` when no entry names one.
pub proof fn lemma_style_from_first_naming_entry(entries: Seq<Seq<char>>, j: int)
    requires
        0 <= j <= entries.len(),
        forall|k: int| 0 <= k < j ==> (#[trigger] entry_style(entries[k])) is None,
    ensures
        j == entries.len() ==> first_style(entries) is None && font_style_of(entries)
            == FontStyle::Normal,
        j < entries.len() && entry_style(entries[j]) is Some ==> first_style(entries)
            == entry_style(entries[j]) && font_style_of(entries) == entry_style(entries[j])->0,
    decreases entries.len(),
{
    if j == entries.len() {
        lemma_no_style_named(entries);
    } else if j == entries.len() - 1 {
        let front = entries.drop_last();
        assert forall|k: int| 0 <= k < front.len() implies (#[trigger] entry_style(
            front[k],
        )) is None by {
            assert(front[k] == entries[k]);
        }
        lemma_no_style_named(front);
        assert(entries.last() == entries[j]);
        assert(first_style(entries) == entry_style(entries[j]));
    } else {
        let front = entries.drop_last();
        assert forall|k: int| 0 <= k < j implies (#[trigger] entry_style(front[k])) is None by {
            assert(front[k] == entries[k]);
        }
        lemma_style_from_first_naming_entry(front, j);
        assert(front[j] == entries[j]);
        if entry_style(entries[j]) is Some {
            assert(first_style(front) is Some);
            assert(first_style(entries) == first_style(front));
        }
    }
}

/// The weight of a font stack is the one named by the first entry that names a
/// weight, whatever the entries after it name; `Normal` when no entry names one.
pub proof fn lemma_weight_from_first_naming_entry(entries: Seq<Seq<char>>, j: int)
    requires
        0 <= j <= entries.len(),
        forall|k: int| 0 <= k < j ==> (#[trigger] entry_weight(entries[k])) is None,
    ensures
        j == entries.len() ==> first_weight(entries) is None && font_weight_of(entries)
            == FontWeight::Normal,
        j < entries.len() && entry_weight(entries[j]) is Some ==> first_weight(entries)
            == entry_weight(entries[j]) && font_weight_of(entries) == entry_weight(entries[j])->0,
    decreases entries.len(),
{
    if j == entries.len() {
        lemma_no_weight_named(entries);
    } else if j == entries.len() - 1 {
        let front = entries.drop_last();
        assert forall|k: int| 0 <= k < front.len() implies (#[trigger] entry_weight(
            front[k],
        )) is None by {
            assert(front[k] == entries[k]);
        }
        lemma_no_weight_named(front);
        assert(entries.last() == entries[j]);
        assert(first_weight(entries) == entry_weight(entries[j]));
    } else {
        let front = entries.drop_last();
        assert forall|k: int| 0 <= k < j implies (#[trigger] entry_weight(front[k])) is None by {
            assert(front[k] == entries[k]);
        }
        lemma_weight_from_first_naming_entry(front, j);
        assert(front[j] == entries[j]);
        if entry_weight(entries[j]) is Some {
            assert(first_weight(front) is Some);
            assert(first_weight(entries) == first_weight(front));
        }
    }
}

/// No weight keyword ends with one tried before it, nor any style keyword:
/// where an entry ends with a keyword, the keyword taken off is the longest
/// one that ends the entry, so that e.g. `ExtraBold` is taken off whole.
pub proof fn lemma_keywords_longest_first()
    ensures
        forall|i: int, j: int|
            0 <= i < j < weight_keywords().len() ==> !ends_with(
                #[trigger] weight_keywords()[j],
                #[trigger] weight_keywords()[i],
            ),
        forall|i: int, j: int|
            0 <= i < j < style_keywords().len() ==> !ends_with(
                #[trigger] style_keywords()[j],
                #[trigger] style_keywords()[i],
            ),
{
    reveal_strlit("Thin");
    reveal_strlit("ExtraLight");
    reveal_strlit("Light");
    reveal_strlit("Regular");
    reveal_strlit("Medium");
    reveal_strlit("SemiBold");
    reveal_strlit("ExtraBold");
    reveal_strlit("Bold");
    reveal_strlit("Black");
    reveal_strlit("Heavy");
    reveal_strlit("Italic");
    reveal_strlit("Oblique");
    let w = weight_keywords();
    assert forall|i: int, j: int| 0 <= i < j < w.len() implies !ends_with(
        #[trigger] w[j],
        #[trigger] w[i],
    ) by {
        if ends_with(w[j], w[i]) {
            let a = w[j];
            let b = w[i];
            assert(a.subrange(a.len() - b.len(), a.len() as int)[b.len() - 1] == b[b.len() - 1]);
            if b.len() >= 2 {
                assert(a.subrange(a.len() - b.len(), a.len() as int)[b.len() - 2] == b[b.len()
                    - 2]);
            }
            if b.len() >= 3 {
                assert(a.subrange(a.len() - b.len(), a.len() as int)[0] == b[0]);
            }
        }
    }
    let st = style_keywords();
    assert(!ends_with(st[1], st[0])) by {
        if ends_with(st[1], st[0]) {
            assert(st[1].subrange(1, 7)[5] == st[0][5]);
        }
    }
}

} // verus!
