//! The score's SVG pages: which files of a build are pages and their page numbers, and the
//! size attributes read from an SVG's text. Turning the numbers into lengths is left to the
//! caller.

use vstd::prelude::*;

use crate::midi::{eq_ignore_ascii_case, str_eq_ignore_ascii_case};
use crate::paths::{path_extension, spec_path_extension};
use crate::text::{
    chars_equal, chars_from, chars_of, chars_range, has_prefix, owned, parse_u32_chars,
    spec_parse_u32, spec_trim, starts_with_chars, string_from_chars, trim_chars,
};

verus! {

/// Whether `needle` stands in `s` from position `i`.
pub open spec fn occurs_at(s: Seq<char>, needle: Seq<char>, i: int) -> bool {
    0 <= i && i + needle.len() <= s.len() && s.subrange(i, i + needle.len()) == needle
}

/// The first position where `needle` stands in `s` (`str::find`).
#[verifier::opaque]
pub open spec fn spec_find(s: Seq<char>, needle: Seq<char>) -> Option<int> {
    if exists|i: int| occurs_at(s, needle, i) {
        Some(
            choose|i: int|
                occurs_at(s, needle, i) && forall|j: int| 0 <= j < i ==> !occurs_at(s, needle, j),
        )
    } else {
        None
    }
}

proof fn lemma_first_occurrence(s: Seq<char>, needle: Seq<char>, i: int)
    requires
        occurs_at(s, needle, i),
        forall|j: int| 0 <= j < i ==> !occurs_at(s, needle, j),
    ensures
        spec_find(s, needle) == Some(i),
{
    reveal(spec_find);
    let c = choose|c: int|
        occurs_at(s, needle, c) && forall|j: int| 0 <= j < c ==> !occurs_at(s, needle, j);
    assert(occurs_at(s, needle, c) && forall|j: int| 0 <= j < c ==> !occurs_at(s, needle, j));
    if c < i {
        assert(!occurs_at(s, needle, c));
    } else if c > i {
        assert(!occurs_at(s, needle, i));
    }
}

/// The first position where `needle` stands in `s`.
pub fn find_chars(s: &[char], needle: &[char]) -> (r: Option<usize>)
    ensures
        match r {
            Some(i) => spec_find(s@, needle@) == Some(i as int) && occurs_at(s@, needle@, i as int),
            None => spec_find(s@, needle@) is None && forall|j: int| !occurs_at(s@, needle@, j),
        },
{
    if needle.len() == 0 {
        proof {
            assert(s@.subrange(0, 0) =~= needle@);
            lemma_first_occurrence(s@, needle@, 0);
        }
        return Some(0);
    }
    if needle.len() > s.len() {
        proof {
            reveal(spec_find);
        }
        return None;
    }
    let s_len = s.len();
    let n = needle.len();
    let last = s_len - n;
    let mut i: usize = 0;
    while i <= last
        invariant
            s_len == s@.len(),
            n == needle@.len(),
            last == s@.len() - needle@.len(),
            1 <= needle@.len() <= s@.len(),
            i <= last + 1,
            forall|j: int| 0 <= j < i ==> !occurs_at(s@, needle@, j),
        decreases last + 1 - i,
    {
        let mut k: usize = 0;
        let mut same = true;
        while k < needle.len()
            invariant
                i <= last,
                s_len == s@.len(),
                n == needle@.len(),
                last == s@.len() - needle@.len(),
                1 <= needle@.len() <= s@.len(),
                k <= needle@.len(),
                same == forall|m: int| 0 <= m < k ==> s@[i + m] == needle@[m],
            decreases needle.len() - k,
        {
            if s[i + k] != needle[k] {
                same = false;
            }
            k += 1;
        }
        if same {
            proof {
                assert(s@.subrange(i as int, i + needle@.len()) =~= needle@);
                lemma_first_occurrence(s@, needle@, i as int);
            }
            return Some(i);
        }
        proof {
            if occurs_at(s@, needle@, i as int) {
                let m = choose|m: int| 0 <= m < needle@.len() && s@[i + m] != needle@[m];
                assert(s@.subrange(i as int, i + needle@.len())[m] == s@[i + m]);
            }
        }
        i += 1;
    }
    proof {
        reveal(spec_find);
    }
    None
}

/// The value of attribute `name` quoted with `quote`: what follows the first `name=` and the
/// quote, up to the next such quote.
pub open spec fn spec_quoted_attribute(source: Seq<char>, name: Seq<char>, quote: char) -> Option<Seq<char>> {
    let needle = name + seq!['=', quote];
    match spec_find(source, needle) {
        None => None,
        Some(start) => {
            let tail = source.subrange(start + needle.len(), source.len() as int);
            match spec_find(tail, seq![quote]) {
                None => None,
                Some(end) => Some(tail.subrange(0, end)),
            }
        },
    }
}

/// The value of attribute `name` in an SVG's text: first as written in double quotes, else
/// in single quotes.
pub open spec fn spec_svg_attribute_value(source: Seq<char>, name: Seq<char>) -> Option<Seq<char>> {
    match spec_quoted_attribute(source, name, '"') {
        Some(v) => Some(v),
        None => spec_quoted_attribute(source, name, '\''),
    }
}

fn quoted_attribute(source: &Vec<char>, name: &Vec<char>, quote: char) -> (r: Option<Vec<char>>)
    ensures
        match r {
            Some(v) => spec_quoted_attribute(source@, name@, quote) == Some(v@),
            None => spec_quoted_attribute(source@, name@, quote) is None,
        },
{
    let mut needle = name.clone();
    needle.push('=');
    needle.push(quote);
    proof {
        assert(needle@ =~= name@ + seq!['=', quote]);
    }
    let start = match find_chars(source.as_slice(), needle.as_slice()) {
        Some(start) => start,
        None => return None,
    };
    let source_len = source.len();
    assert(start + needle@.len() <= source_len);
    let value_start = start + needle.len();
    let tail = chars_from(source.as_slice(), value_start);
    let closing = vec![quote];
    proof {
        assert(closing@ =~= seq![quote]);
    }
    let end = match find_chars(tail.as_slice(), closing.as_slice()) {
        Some(end) => end,
        None => return None,
    };
    Some(chars_range(tail.as_slice(), 0, end))
}

/// The value of attribute `name` in an SVG's text, in double quotes or else in single quotes.
pub fn svg_attribute_value(source: &str, name: &str) -> (r: Option<String>)
    ensures
        crate::paths::opt_view(r) == spec_svg_attribute_value(source@, name@),
{
    let s = chars_of(source);
    let n = chars_of(name);
    match quoted_attribute(&s, &n, '"') {
        Some(v) => Some(string_from_chars(&v)),
        None => match quoted_attribute(&s, &n, '\'') {
            Some(v) => Some(string_from_chars(&v)),
            None => None,
        },
    }
}

/// A path names an SVG file: its extension is `svg`, in any case.
pub open spec fn spec_is_svg_file(path: Seq<char>) -> bool {
    match spec_path_extension(path) {
        Some(ext) => eq_ignore_ascii_case(ext, seq!['s', 'v', 'g']),
        None => false,
    }
}

/// Whether the path names an SVG file.
pub fn is_svg_file(path: &str) -> (r: bool)
    ensures
        r == spec_is_svg_file(path@),
{
    match path_extension(path) {
        Some(ext) => {
            let svg = owned("svg");
            proof {
                reveal_strlit("svg");
                assert(svg@ =~= seq!['s', 'v', 'g']);
            }
            str_eq_ignore_ascii_case(ext.as_str(), svg.as_str())
        },
        None => false,
    }
}

/// The page number of an SVG file of the score: 1 for the score's stem itself; for
/// `stem-pageN` or `stem-N`, the number `N`; nothing otherwise.
pub open spec fn spec_svg_page_index(file_stem: Seq<char>, score_stem: Seq<char>) -> Option<u32> {
    if file_stem == score_stem {
        Some(1)
    } else if has_prefix(file_stem, score_stem.push('-')) {
        let suffix = file_stem.subrange(score_stem.len() + 1int, file_stem.len() as int);
        if has_prefix(suffix, "page"@) {
            spec_parse_u32(suffix.subrange(4, suffix.len() as int))
        } else {
            spec_parse_u32(suffix)
        }
    } else {
        None
    }
}

/// The page number of an SVG file of the score, if it is one of its pages.
pub fn svg_page_index(file_stem: &str, score_stem: &str) -> (r: Option<u32>)
    ensures
        r == spec_svg_page_index(file_stem@, score_stem@),
{
    let file = chars_of(file_stem);
    let score = chars_of(score_stem);
    if chars_equal(file.as_slice(), score.as_slice()) {
        return Some(1);
    }
    let mut prefix = score.clone();
    prefix.push('-');
    proof {
        assert(prefix@ =~= score@.push('-'));
    }
    if !starts_with_chars(file.as_slice(), prefix.as_slice()) {
        return None;
    }
    let suffix = chars_from(file.as_slice(), prefix.len());
    let page = chars_of("page");
    proof {
        reveal_strlit("page");
    }
    if starts_with_chars(suffix.as_slice(), page.as_slice()) {
        let rest = chars_from(suffix.as_slice(), 4);
        parse_u32_chars(rest.as_slice())
    } else {
        parse_u32_chars(suffix.as_slice())
    }
}

/// The unit of an SVG length.
#[derive(Debug, Clone, Copy, PartialEq, Eq, Structural)]
pub enum SvgUnit {
    /// None, `px` or `pt`: the number is taken as points.
    Points,
    Millimeters,
    Centimeters,
    Inches,
    Picas,
    /// Any other unit: the number is taken as it is.
    Unknown,
}

/// Whether a character may stand in the number of an SVG length.
pub open spec fn is_number_char(c: char) -> bool {
    ('0' <= c <= '9') || c == '.' || c == '-' || c == '+'
}

/// How many characters of `s` from the start may stand in a number.
pub open spec fn number_prefix_len(s: Seq<char>) -> int
    decreases s.len(),
{
    if s.len() > 0 && is_number_char(s[0]) {
        1 + number_prefix_len(s.drop_first())
    } else {
        0
    }
}

/// The unit written after an SVG length's number, ignoring ASCII case.
pub open spec fn spec_svg_unit(unit: Seq<char>) -> SvgUnit {
    if unit.len() == 0 || eq_ignore_ascii_case(unit, "px"@) || eq_ignore_ascii_case(unit, "pt"@) {
        SvgUnit::Points
    } else if eq_ignore_ascii_case(unit, "mm"@) {
        SvgUnit::Millimeters
    } else if eq_ignore_ascii_case(unit, "cm"@) {
        SvgUnit::Centimeters
    } else if eq_ignore_ascii_case(unit, "in"@) {
        SvgUnit::Inches
    } else if eq_ignore_ascii_case(unit, "pc"@) {
        SvgUnit::Picas
    } else {
        SvgUnit::Unknown
    }
}

proof fn lemma_number_prefix(s: Seq<char>)
    ensures
        0 <= number_prefix_len(s) <= s.len(),
        forall|j: int| 0 <= j < number_prefix_len(s) ==> is_number_char(#[trigger] s[j]),
        number_prefix_len(s) < s.len() ==> !is_number_char(s[number_prefix_len(s)]),
    decreases s.len(),
{
    if s.len() > 0 && is_number_char(s[0]) {
        lemma_number_prefix(s.drop_first());
        assert forall|j: int| 0 <= j < number_prefix_len(s) implies is_number_char(#[trigger] s[j]) by {
            if j > 0 {
                assert(s[j] == s.drop_first()[j - 1]);
            }
        }
    }
}

/// An SVG length split into its number and its unit: the value is trimmed, its number is
/// the leading run of digits, dots and signs (none: no length), and its unit the rest,
/// trimmed.
pub open spec fn spec_split_svg_dimension(raw: Seq<char>) -> Option<(Seq<char>, SvgUnit)> {
    let t = spec_trim(raw);
    let n = number_prefix_len(t);
    if n == 0 {
        None
    } else {
        Some((t.subrange(0, n), spec_svg_unit(spec_trim(t.subrange(n, t.len() as int)))))
    }
}

fn unit_of(unit: &str) -> (r: SvgUnit)
    ensures
        r == spec_svg_unit(unit@),
{
    proof {
        reveal_strlit("px");
        reveal_strlit("pt");
        reveal_strlit("mm");
        reveal_strlit("cm");
        reveal_strlit("in");
        reveal_strlit("pc");
    }
    if unit.unicode_len() == 0 || str_eq_ignore_ascii_case(unit, "px") || str_eq_ignore_ascii_case(
        unit,
        "pt",
    ) {
        SvgUnit::Points
    } else if str_eq_ignore_ascii_case(unit, "mm") {
        SvgUnit::Millimeters
    } else if str_eq_ignore_ascii_case(unit, "cm") {
        SvgUnit::Centimeters
    } else if str_eq_ignore_ascii_case(unit, "in") {
        SvgUnit::Inches
    } else if str_eq_ignore_ascii_case(unit, "pc") {
        SvgUnit::Picas
    } else {
        SvgUnit::Unknown
    }
}

/// Splits an SVG length into its number and its unit.
pub fn split_svg_dimension(raw: &str) -> (r: Option<(String, SvgUnit)>)
    ensures
        match r {
            Some((number, unit)) => spec_split_svg_dimension(raw@) == Some((number@, unit)),
            None => spec_split_svg_dimension(raw@) is None,
        },
{
    let chars = chars_of(raw);
    let t = trim_chars(chars.as_slice());
    proof {
        lemma_number_prefix(t@);
    }
    let mut n: usize = 0;
    while n < t.len() && (('0' <= t[n] && t[n] <= '9') || t[n] == '.' || t[n] == '-' || t[n] == '+')
        invariant
            n <= t@.len(),
            n <= number_prefix_len(t@),
            0 <= number_prefix_len(t@) <= t@.len(),
            forall|j: int| 0 <= j < number_prefix_len(t@) ==> is_number_char(#[trigger] t@[j]),
            number_prefix_len(t@) < t@.len() ==> !is_number_char(t@[number_prefix_len(t@)]),
        decreases t.len() - n,
    {
        n += 1;
    }
    if n == 0 {
        return None;
    }
    let number = chars_range(t.as_slice(), 0, n);
    let rest = chars_from(t.as_slice(), n);
    let unit_chars = trim_chars(rest.as_slice());
    let unit_text = string_from_chars(&unit_chars);
    let unit = unit_of(unit_text.as_str());
    Some((string_from_chars(&number), unit))
}

/// Whether a character separates the numbers of a `viewBox`.
pub open spec fn is_view_box_separator(c: char) -> bool {
    c == ' ' || c == '\t' || c == '\n' || c == '\u{c}' || c == '\r' || c == ','
}

/// The runs of non-separator characters of `s`, in order (what splitting on ASCII white
/// space and commas keeps, empty pieces dropped).
pub open spec fn spec_view_box_tokens(s: Seq<char>) -> Seq<Seq<char>>
    decreases s.len(),
{
    if s.len() == 0 {
        Seq::empty()
    } else {
        let rest = spec_view_box_tokens(s.drop_last());
        if is_view_box_separator(s.last()) {
            rest
        } else if s.len() > 1 && !is_view_box_separator(s[s.len() - 2]) {
            rest.update(rest.len() - 1, rest.last().push(s.last()))
        } else {
            rest.push(seq![s.last()])
        }
    }
}

proof fn lemma_tokens_nonempty_after_word(s: Seq<char>)
    requires
        s.len() > 0,
        !is_view_box_separator(s.last()),
    ensures
        spec_view_box_tokens(s).len() > 0,
    decreases s.len(),
{
    if s.len() > 1 && !is_view_box_separator(s[s.len() - 2]) {
        assert(s.drop_last().last() == s[s.len() - 2]);
        lemma_tokens_nonempty_after_word(s.drop_last());
    }
}

/// Splits a `viewBox` value into its numbers as text.
pub fn view_box_tokens(value: &str) -> (r: Vec<String>)
    ensures
        r@.len() == spec_view_box_tokens(value@).len(),
        forall|k: int| 0 <= k < r@.len() ==> #[trigger] r@[k]@ == spec_view_box_tokens(value@)[k],
{
    let s = chars_of(value);
    let mut tokens: Vec<String> = Vec::new();
    let mut current: Vec<char> = Vec::new();
    let mut i: usize = 0;
    while i < s.len()
        invariant
            i <= s@.len(),
            ({
                let spec = spec_view_box_tokens(s@.subrange(0, i as int));
                &&& current@.len() > 0 <==> (i > 0 && !is_view_box_separator(s@[i - 1]))
                &&& spec.len() == tokens@.len() + (if current@.len() > 0 { 1int } else { 0 })
                &&& forall|k: int| 0 <= k < tokens@.len() ==> #[trigger] tokens@[k]@ == spec[k]
                &&& current@.len() > 0 ==> spec.last() == current@
            }),
        decreases s.len() - i,
    {
        let c = s[i];
        let ghost prefix = s@.subrange(0, i as int);
        let ghost next = s@.subrange(0, i + 1);
        proof {
            assert(next.drop_last() =~= prefix);
            assert(next.last() == c);
            if i > 0 {
                assert(next[next.len() - 2] == s@[i - 1]);
            }
        }
        if c == ' ' || c == '\t' || c == '\n' || c == '\u{c}' || c == '\r' || c == ',' {
            if current.len() > 0 {
                let word = string_from_chars(&current);
                let ghost before = tokens@;
                tokens.push(word);
                current = Vec::new();
                proof {
                    let spec = spec_view_box_tokens(prefix);
                    assert forall|k: int| 0 <= k < tokens@.len() implies #[trigger] tokens@[k]@
                        == spec_view_box_tokens(next)[k] by {
                        if k < before.len() {
                            assert(tokens@[k] == before[k]);
                        }
                    }
                }
            }
        } else {
            proof {
                if i > 0 && !is_view_box_separator(s@[i - 1]) {
                    lemma_tokens_nonempty_after_word(prefix);
                    assert(prefix.last() == s@[i - 1]);
                }
            }
            current.push(c);
            proof {
                let spec = spec_view_box_tokens(prefix);
                let spec_next = spec_view_box_tokens(next);
                assert forall|k: int| 0 <= k < tokens@.len() implies #[trigger] tokens@[k]@
                    == spec_next[k] by {
                    assert(spec_next[k] == spec[k]);
                }
            }
        }
        i += 1;
    }
    if current.len() > 0 {
        let word = string_from_chars(&current);
        let ghost before = tokens@;
        tokens.push(word);
        proof {
            assert forall|k: int| 0 <= k < tokens@.len() implies #[trigger] tokens@[k]@
                == spec_view_box_tokens(s@.subrange(0, i as int))[k] by {
                if k < before.len() {
                    assert(tokens@[k] == before[k]);
                }
            }
        }
    }
    proof {
        assert(s@.subrange(0, i as int) =~= value@);
    }
    tokens
}

} // verus!
