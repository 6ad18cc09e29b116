//! Mapping of system locales to the embedded translation catalogs.

use vstd::prelude::*;

verus! {

/// Whether `c` ends the language part of a POSIX locale name (an encoding
/// or a modifier follows it, as in `zh_CN.UTF-8` or `zh_CN@calendar`).
pub open spec fn is_locale_suffix_start(c: char) -> bool {
    c == '.' || c == '@'
}

/// Whether the locale's language part ends at index `k`: no suffix marker
/// before it, and a marker (or the end) at it.
pub open spec fn language_part_ends_at(l: Seq<char>, k: int) -> bool {
    &&& 0 <= k <= l.len()
    &&& forall|i: int| 0 <= i < k ==> !is_locale_suffix_start(#[trigger] l[i])
    &&& (k == l.len() || is_locale_suffix_start(l[k]))
}

/// The character after normalization: `_` becomes `-`, and ASCII
/// upper-case letters become lower-case.
pub open spec fn normalized_char(c: char) -> char {
    if c == '_' {
        '-'
    } else if 'A' <= c <= 'Z' {
        ((c as u32) + 32) as char
    } else {
        c
    }
}

/// The normalized language part of a locale: what precedes the first `.`
/// or `@`, with `_` replaced by `-` and ASCII letters lower-cased.
pub open spec fn normalized_locale(l: Seq<char>) -> Seq<char> {
    let k = choose|k: int| language_part_ends_at(l, k);
    Seq::new(k as nat, |i: int| normalized_char(l[i]))
}

/// Whether the first `-`-separated component of `n` is `zh`.
pub open spec fn language_is_zh(n: Seq<char>) -> bool {
    n.len() >= 2 && n[0] == 'z' && n[1] == 'h' && (n.len() == 2 || n[2] == '-')
}

/// Whether `w` names a region or script written in simplified Chinese.
pub open spec fn is_simplified_word(w: Seq<char>) -> bool {
    w == seq!['c', 'n'] || w == seq!['h', 'a', 'n', 's'] || w == seq!['s', 'g'] || w == seq![
        'm',
        'y',
    ]
}

/// Whether `n[i..j]` is a `-`-separated component after the first one.
pub open spec fn later_component(n: Seq<char>, i: int, j: int) -> bool {
    &&& 1 <= i <= j <= n.len()
    &&& n[i - 1] == '-'
    &&& (j == n.len() || n[j] == '-')
    &&& forall|k: int| i <= k < j ==> #[trigger] n[k] != '-'
}

/// Whether a component after the first names simplified Chinese.
pub open spec fn has_simplified_component(n: Seq<char>) -> bool {
    exists|i: int, j: int| later_component(n, i, j) && #[trigger] is_simplified_word(n.subrange(i, j))
}

/// Whether a locale selects the simplified Chinese catalog.
pub open spec fn selects_simplified_chinese(l: Seq<char>) -> bool {
    let n = normalized_locale(l);
    language_is_zh(n) && has_simplified_component(n)
}

/// The language part of a locale ends at exactly one index.
proof fn lemma_language_part_end_unique(l: Seq<char>, a: int, b: int)
    requires
        language_part_ends_at(l, a),
        language_part_ends_at(l, b),
    ensures
        a == b,
{
    if a < b {
        assert(!is_locale_suffix_start(l[a]));
    } else if b < a {
        assert(!is_locale_suffix_start(l[b]));
    }
}

/// Returns whether `n[start..end]` equals `word`.
fn segment_equals(n: &Vec<char>, start: usize, end: usize, word: &[char]) -> (r: bool)
    requires
        start <= end <= n@.len(),
    ensures
        r == (n@.subrange(start as int, end as int) == word@),
{
    if end - start != word.len() {
        return false;
    }
    let mut k: usize = 0;
    while k < word.len()
        invariant
            end - start == word@.len(),
            start <= end <= n@.len(),
            k <= word@.len(),
            forall|m: int| 0 <= m < k ==> n@[start + m] == word@[m],
        decreases word@.len() - k,
    {
        if n[start + k] != word[k] {
            assert(n@.subrange(start as int, end as int)[k as int] != word@[k as int]);
            return false;
        }
        k = k + 1;
    }
    assert(n@.subrange(start as int, end as int) =~= word@);
    true
}

/// Returns whether `w` names simplified Chinese.
fn simplified_word(n: &Vec<char>, start: usize, end: usize) -> (r: bool)
    requires
        start <= end <= n@.len(),
    ensures
        r == is_simplified_word(n@.subrange(start as int, end as int)),
{
    let cn = ['c', 'n'];
    let hans = ['h', 'a', 'n', 's'];
    let sg = ['s', 'g'];
    let my = ['m', 'y'];
    assert(cn@ =~= seq!['c', 'n']);
    assert(hans@ =~= seq!['h', 'a', 'n', 's']);
    assert(sg@ =~= seq!['s', 'g']);
    assert(my@ =~= seq!['m', 'y']);
    segment_equals(n, start, end, &cn) || segment_equals(n, start, end, &hans)
        || segment_equals(n, start, end, &sg) || segment_equals(n, start, end, &my)
}

/// Normalizes one character of a locale name.
fn normalize_char(c: char) -> (r: char)
    ensures
        r == normalized_char(c),
{
    if c == '_' {
        '-'
    } else if 'A' <= c && c <= 'Z' {
        let lower = (c as u8) + 32;
        assert(lower == (c as u32) + 32);
        lower as char
    } else {
        c
    }
}

/// Maps a system BCP 47/POSIX locale to one of the embedded catalogs:
/// `zh-CN` for simplified Chinese, and `en` for every other locale.
///
/// POSIX locale names may append an encoding or modifier, for example
/// `zh_CN.UTF-8` or `zh_CN@calendar`; these are not locale components.
pub fn catalog_for_locale(locale: &str) -> (r: &'static str)
    ensures
        r@ == (if selects_simplified_chinese(locale@) {
            "zh-CN"@
        } else {
            "en"@
        }),
{
    let len = locale.unicode_len();
    let mut end: usize = 0;
    while end < len
        invariant
            len == locale@.len(),
            end <= len,
            forall|i: int| 0 <= i < end ==> !is_locale_suffix_start(#[trigger] locale@[i]),
        ensures
            end <= len,
            end == len || is_locale_suffix_start(locale@[end as int]),
            forall|i: int| 0 <= i < end ==> !is_locale_suffix_start(#[trigger] locale@[i]),
        decreases len - end,
    {
        let c = locale.get_char(end);
        if c == '.' || c == '@' {
            break;
        }
        end = end + 1;
    }
    proof {
        assert(language_part_ends_at(locale@, end as int));
        let k = choose|k: int| language_part_ends_at(locale@, k);
        lemma_language_part_end_unique(locale@, k, end as int);
    }
    let ghost target = normalized_locale(locale@);
    let mut normalized: Vec<char> = Vec::new();
    let mut i: usize = 0;
    while i < end
        invariant
            len == locale@.len(),
            end <= len,
            i <= end,
            target.len() == end,
            forall|m: int| 0 <= m < end ==> target[m] == normalized_char(locale@[m]),
            normalized@ == target.take(i as int),
        decreases end - i,
    {
        let c = normalize_char(locale.get_char(i));
        normalized.push(c);
        assert(normalized@ =~= target.take(i + 1));
        i = i + 1;
    }
    assert(normalized@ =~= target);
    let n = normalized.len();
    let is_zh = n >= 2 && normalized[0] == 'z' && normalized[1] == 'h' && (n == 2 || normalized[2]
        == '-');
    if !is_zh {
        return "en";
    }
    assert(language_is_zh(target));
    // Look at every component after the first.
    let mut start: usize = 1;
    while start < n
        invariant
            n == normalized@.len(),
            normalized@ == target,
            language_is_zh(target),
            target == normalized_locale(locale@),
            1 <= start <= n,
            forall|a: int, b: int|
                1 <= a < start && later_component(target, a, b) ==> !#[trigger] is_simplified_word(
                    target.subrange(a, b),
                ),
        decreases n + 1 - start,
    {
        if normalized[start - 1] == '-' {
            let mut stop: usize = start;
            while stop < n && normalized[stop] != '-'
                invariant
                    n == normalized@.len(),
                    normalized@ == target,
                    start <= stop <= n,
                    forall|k: int| start <= k < stop ==> #[trigger] target[k] != '-',
                decreases n - stop,
            {
                stop = stop + 1;
            }
            assert(later_component(target, start as int, stop as int));
            if simplified_word(&normalized, start, stop) {
                assert(is_simplified_word(target.subrange(start as int, stop as int)));
                assert(has_simplified_component(target));
                return "zh-CN";
            }
            assert forall|b: int| later_component(target, start as int, b) implies !#[trigger] is_simplified_word(
                target.subrange(start as int, b),
            ) by {
                if b < stop {
                    assert(target[b] == '-');
                } else if b > stop {
                    assert(target[stop as int] == '-');
                }
            }
        }
        start = start + 1;
    }
    assert forall|a: int, b: int| later_component(target, a, b) implies !#[trigger] is_simplified_word(
        target.subrange(a, b),
    ) by {
        if a == n {
            assert(target.subrange(a, b).len() == 0);
        }
    }
    "en"
}

/// The catalog for the operating system's locale, when it reports one, and
/// `en` otherwise.
pub fn catalog_for_system_locale(locale: Option<String>) -> (r: &'static str)
    ensures
        r@ == match locale {
            Some(l) => if selects_simplified_chinese(l@) {
                "zh-CN"@
            } else {
                "en"@
            },
            None => "en"@,
        },
{
    match locale {
        Some(l) => catalog_for_locale(l.as_str()),
        None => "en",
    }
}

/// Only the components `cn`, `hans`, `sg` and `my` select the simplified
/// Chinese catalog: a locale selects it exactly when its language is `zh`
/// and one of its later components is one of these four.
pub proof fn law_only_simplified_components_select(l: Seq<char>)
    ensures
        selects_simplified_chinese(l) <==> language_is_zh(normalized_locale(l)) && exists|
            i: int,
            j: int,
        |
            later_component(normalized_locale(l), i, j) && {
                let w = #[trigger] normalized_locale(l).subrange(i, j);
                w == seq!['c', 'n'] || w == seq!['h', 'a', 'n', 's'] || w == seq!['s', 'g'] || w
                    == seq!['m', 'y']
            },
{
    let n = normalized_locale(l);
    if selects_simplified_chinese(l) {
        let (i, j) = choose|i: int, j: int|
            later_component(n, i, j) && #[trigger] is_simplified_word(n.subrange(i, j));
        assert(later_component(n, i, j));
        assert(is_simplified_word(n.subrange(i, j)));
    }
    if language_is_zh(n) && exists|i: int, j: int|
        later_component(n, i, j) && {
            let w = #[trigger] n.subrange(i, j);
            w == seq!['c', 'n'] || w == seq!['h', 'a', 'n', 's'] || w == seq!['s', 'g'] || w
                == seq!['m', 'y']
        } {
        let (i, j) = choose|i: int, j: int|
            later_component(n, i, j) && {
                let w = #[trigger] n.subrange(i, j);
                w == seq!['c', 'n'] || w == seq!['h', 'a', 'n', 's'] || w == seq!['s', 'g'] || w
                    == seq!['m', 'y']
            };
        assert(is_simplified_word(n.subrange(i, j)));
        assert(has_simplified_component(n));
    }
}

/// Whether `w` names a region or script written in traditional Chinese:
/// Hong Kong, Taiwan, Macau, or the `Hant` script.
pub open spec fn is_traditional_word(w: Seq<char>) -> bool {
    w == seq!['h', 'k'] || w == seq!['t', 'w'] || w == seq!['m', 'o'] || w == seq![
        'h',
        'a',
        'n',
        't',
    ]
}

/// A locale whose later components all name traditional Chinese (such as
/// `zh_HK.UTF-8`, `zh-TW` or `zh-Hant-TW`) does not select the simplified
/// Chinese catalog: it maps to `en`.
pub proof fn law_traditional_chinese_maps_to_en(l: Seq<char>)
    requires
        forall|i: int, j: int|
            later_component(normalized_locale(l), i, j) ==> is_traditional_word(
                #[trigger] normalized_locale(l).subrange(i, j),
            ),
    ensures
        !selects_simplified_chinese(l),
{
    let n = normalized_locale(l);
    if selects_simplified_chinese(l) {
        let (i, j) = choose|i: int, j: int|
            later_component(n, i, j) && #[trigger] is_simplified_word(n.subrange(i, j));
        let w = n.subrange(i, j);
        assert(is_traditional_word(w));
        assert(is_simplified_word(w));
        if w.len() == 2 {
            assert(w[0] == 'c' || w[0] == 's' || w[0] == 'm');
            assert(w[0] == 'h' || w[0] == 't' || w[0] == 'm');
            assert(w[1] == 'y');
            assert(w[1] == 'o');
        } else {
            assert(w[3] == 's');
            assert(w[3] == 't');
        }
    }
}

} // verus!
