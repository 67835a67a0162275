use vstd::prelude::*;

use crate::text::{decimal, string_push, u64_to_decimal};

verus! {

/// ASCII letters and digits.
pub open spec fn is_ascii_alnum(c: char) -> bool {
    ('0' <= c <= '9') || ('A' <= c <= 'Z') || ('a' <= c <= 'z')
}

/// ASCII upper-case letters mapped to lower case; everything else unchanged.
pub open spec fn ascii_lower(c: char) -> char {
    if 'A' <= c <= 'Z' {
        ((c as u32) + 32) as char
    } else {
        c
    }
}

/// Characters kept (lower-cased), every run of other characters replaced by
/// a single `-`.
pub open spec fn collapse_separators(s: Seq<char>) -> Seq<char>
    decreases s.len(),
{
    if s.len() == 0 {
        Seq::empty()
    } else {
        let p = collapse_separators(s.drop_last());
        let c = s.last();
        if is_ascii_alnum(c) {
            p.push(ascii_lower(c))
        } else if p.len() > 0 && p.last() == '-' {
            p
        } else {
            p.push('-')
        }
    }
}

/// `s` without any `-` at its start.
pub open spec fn strip_leading_dashes(s: Seq<char>) -> Seq<char>
    decreases s.len(),
{
    if s.len() > 0 && s[0] == '-' {
        strip_leading_dashes(s.drop_first())
    } else {
        s
    }
}

/// `s` without any `-` at its end.
pub open spec fn strip_trailing_dashes(s: Seq<char>) -> Seq<char>
    decreases s.len(),
{
    if s.len() > 0 && s.last() == '-' {
        strip_trailing_dashes(s.drop_last())
    } else {
        s
    }
}

/// The file-name part derived from a configuration title.
pub open spec fn spec_sanitize_title(title: Seq<char>) -> Seq<char> {
    let t = strip_trailing_dashes(strip_leading_dashes(collapse_separators(title)));
    if t.len() == 0 {
        "config"@
    } else {
        t
    }
}

/// Lower-case ASCII letters, digits and `-`.
pub open spec fn is_name_char(c: char) -> bool {
    ('0' <= c <= '9') || ('a' <= c <= 'z') || c == '-'
}

/// A well-formed file-name part: not empty, made of lower-case letters, digits
/// and single dashes that neither start nor end it.
pub open spec fn is_clean_name(s: Seq<char>) -> bool {
    &&& s.len() > 0
    &&& forall|k: int| 0 <= k < s.len() ==> is_name_char(#[trigger] s[k])
    &&& s[0] != '-'
    &&& s.last() != '-'
    &&& forall|k: int| 0 <= k < s.len() - 1 ==> !(#[trigger] s[k] == '-' && s[k + 1] == '-')
}

/// Made of name characters with no two dashes in a row (ends unconstrained).
pub open spec fn is_collapsed(s: Seq<char>) -> bool {
    &&& forall|k: int| 0 <= k < s.len() ==> is_name_char(#[trigger] s[k])
    &&& forall|k: int| 0 <= k < s.len() - 1 ==> !(#[trigger] s[k] == '-' && s[k + 1] == '-')
}

proof fn lemma_collapse_is_collapsed(s: Seq<char>)
    ensures
        is_collapsed(collapse_separators(s)),
    decreases s.len(),
{
    if s.len() > 0 {
        lemma_collapse_is_collapsed(s.drop_last());
        let p = collapse_separators(s.drop_last());
        let r = collapse_separators(s);
        let c = s.last();
        if is_ascii_alnum(c) {
            assert(is_name_char(ascii_lower(c))) by {
                if 'A' <= c <= 'Z' {
                    assert('a' <= ((c as u32) + 32) as char <= 'z');
                }
            }
            assert(r == p.push(ascii_lower(c)));
            assert forall|k: int| 0 <= k < r.len() implies is_name_char(#[trigger] r[k]) by {
                if k < p.len() {
                    assert(r[k] == p[k]);
                }
            }
            assert forall|k: int| 0 <= k < r.len() - 1 implies !(#[trigger] r[k] == '-' && r[k
                + 1] == '-') by {
                if k < p.len() - 1 {
                    assert(r[k] == p[k] && r[k + 1] == p[k + 1]);
                }
            }
        } else if !(p.len() > 0 && p.last() == '-') {
            assert(r == p.push('-'));
            assert forall|k: int| 0 <= k < r.len() implies is_name_char(#[trigger] r[k]) by {
                if k < p.len() {
                    assert(r[k] == p[k]);
                }
            }
            assert forall|k: int| 0 <= k < r.len() - 1 implies !(#[trigger] r[k] == '-' && r[k
                + 1] == '-') by {
                if k < p.len() - 1 {
                    assert(r[k] == p[k] && r[k + 1] == p[k + 1]);
                }
            }
        }
    }
}

proof fn lemma_strip_leading(s: Seq<char>)
    ensures
        ({
            let t = strip_leading_dashes(s);
            &&& t.len() <= s.len()
            &&& t == s.skip(s.len() - t.len())
            &&& t.len() > 0 ==> t[0] != '-'
        }),
    decreases s.len(),
{
    if s.len() > 0 && s[0] == '-' {
        lemma_strip_leading(s.drop_first());
        let t = strip_leading_dashes(s);
        assert(s.drop_first().skip(s.drop_first().len() - t.len()) =~= s.skip(s.len() - t.len()));
    } else {
        assert(s.skip(0) =~= s);
    }
}

proof fn lemma_strip_trailing(s: Seq<char>)
    ensures
        ({
            let t = strip_trailing_dashes(s);
            &&& t.len() <= s.len()
            &&& t == s.take(t.len() as int)
            &&& t.len() > 0 ==> t.last() != '-'
        }),
    decreases s.len(),
{
    if s.len() > 0 && s.last() == '-' {
        lemma_strip_trailing(s.drop_last());
        let t = strip_trailing_dashes(s);
        assert(s.drop_last().take(t.len() as int) =~= s.take(t.len() as int));
    } else {
        assert(s.take(s.len() as int) =~= s);
    }
}

proof fn lemma_collapsed_subrange(s: Seq<char>, i: int, j: int)
    requires
        is_collapsed(s),
        0 <= i <= j <= s.len(),
    ensures
        is_collapsed(s.subrange(i, j)),
{
    let t = s.subrange(i, j);
    assert forall|k: int| 0 <= k < t.len() implies is_name_char(#[trigger] t[k]) by {
        assert(t[k] == s[k + i]);
    }
    assert forall|k: int| 0 <= k < t.len() - 1 implies !(#[trigger] t[k] == '-' && t[k + 1]
        == '-') by {
        assert(t[k] == s[k + i] && t[k + 1] == s[k + 1 + i]);
    }
}

/// Every title gives a clean file-name part: non-empty, lower-case letters,
/// digits and single inner dashes only.
pub proof fn lemma_sanitized_title_is_clean(title: Seq<char>)
    ensures
        is_clean_name(spec_sanitize_title(title)),
{
    let c = collapse_separators(title);
    lemma_collapse_is_collapsed(title);
    let a = strip_leading_dashes(c);
    lemma_strip_leading(c);
    lemma_collapsed_subrange(c, c.len() - a.len(), c.len() as int);
    assert(a =~= c.subrange(c.len() - a.len(), c.len() as int));
    let b = strip_trailing_dashes(a);
    lemma_strip_trailing(a);
    lemma_collapsed_subrange(a, 0, b.len() as int);
    assert(b =~= a.subrange(0, b.len() as int));
    if b.len() == 0 {
        reveal_strlit("config");
        let cfg = "config"@;
        assert(cfg.len() == 6);
        assert forall|k: int| 0 <= k < cfg.len() implies is_name_char(#[trigger] cfg[k]) by {
            assert(cfg[0] == 'c' && cfg[1] == 'o' && cfg[2] == 'n' && cfg[3] == 'f' && cfg[4]
                == 'i' && cfg[5] == 'g');
        }
    } else {
        assert(b[0] == a[0]);
    }
}

proof fn lemma_collapse_of_collapsed(s: Seq<char>)
    requires
        is_collapsed(s),
    ensures
        collapse_separators(s) == s,
    decreases s.len(),
{
    if s.len() > 0 {
        let d = s.drop_last();
        lemma_collapsed_subrange(s, 0, s.len() - 1);
        assert(d =~= s.subrange(0, s.len() - 1));
        lemma_collapse_of_collapsed(d);
        let c = s.last();
        assert(is_name_char(c));
        if c == '-' {
            if d.len() > 0 {
                assert(!(s[s.len() - 2] == '-' && s[s.len() - 1] == '-'));
            }
        }
        assert(d.push(c) =~= s);
    }
}

/// Sanitising is idempotent: a sanitised title is its own file-name part.
pub proof fn lemma_sanitize_title_idempotent(title: Seq<char>)
    ensures
        spec_sanitize_title(spec_sanitize_title(title)) == spec_sanitize_title(title),
{
    let t = spec_sanitize_title(title);
    lemma_sanitized_title_is_clean(title);
    assert(is_collapsed(t));
    lemma_collapse_of_collapsed(t);
    assert(strip_leading_dashes(t) == t);
    assert(strip_trailing_dashes(t) == t);
}

/// Lower-case of an ASCII letter by its code (`A`..`Z` move up by 32), any
/// other character unchanged.
pub open spec fn lower_by_code(c: char) -> char {
    if 'A' <= c <= 'Z' {
        ((c as u32) + 32) as char
    } else {
        c
    }
}

/// A character in one of the ranges `0`-`9`, `A`-`Z`, `a`-`z`.
pub open spec fn in_alnum_ranges(c: char) -> bool {
    ||| '0' <= c <= '9'
    ||| 'A' <= c <= 'Z'
    ||| 'a' <= c <= 'z'
}

proof fn lemma_collapse_of_alnum(s: Seq<char>)
    requires
        forall|k: int| 0 <= k < s.len() ==> in_alnum_ranges(#[trigger] s[k]),
    ensures
        collapse_separators(s) == Seq::new(s.len(), |k: int| lower_by_code(s[k])),
    decreases s.len(),
{
    if s.len() > 0 {
        let d = s.drop_last();
        assert forall|k: int| 0 <= k < d.len() implies in_alnum_ranges(#[trigger] d[k]) by {
            assert(d[k] == s[k]);
        }
        lemma_collapse_of_alnum(d);
        assert(in_alnum_ranges(s.last()));
        assert(Seq::new(d.len(), |k: int| lower_by_code(d[k])).push(lower_by_code(s.last()))
            =~= Seq::new(s.len(), |k: int| lower_by_code(s[k])));
    }
}

/// A title made only of ASCII letters and digits is its own file-name part,
/// lower-cased: every letter `A`-`Z` and `a`-`z` and every digit is kept, in
/// place, upper-case letters becoming lower-case.
pub proof fn lemma_alnum_title_lowercased(title: Seq<char>)
    requires
        title.len() > 0,
        forall|k: int| 0 <= k < title.len() ==> in_alnum_ranges(#[trigger] title[k]),
    ensures
        spec_sanitize_title(title).len() == title.len(),
        forall|k: int|
            0 <= k < title.len() ==> #[trigger] spec_sanitize_title(title)[k] == lower_by_code(
                title[k],
            ),
{
    lemma_collapse_of_alnum(title);
    let c = collapse_separators(title);
    let t = title[0];
    assert(c[0] == lower_by_code(t));
    assert(c[0] != '-') by {
        if 'A' <= t <= 'Z' {
            assert('a' <= ((t as u32) + 32) as char <= 'z');
        }
    }
    let l = title[title.len() - 1];
    assert(c.last() == lower_by_code(l));
    assert(c.last() != '-') by {
        if 'A' <= l <= 'Z' {
            assert('a' <= ((l as u32) + 32) as char <= 'z');
        }
    }
    assert(strip_leading_dashes(c) == c);
    assert(strip_trailing_dashes(c) == c);
}

/// The ASCII letters and digits of `s`, in order, lower-cased.
pub open spec fn kept_letters(s: Seq<char>) -> Seq<char>
    decreases s.len(),
{
    if s.len() == 0 {
        Seq::empty()
    } else if in_alnum_ranges(s.last()) {
        kept_letters(s.drop_last()).push(lower_by_code(s.last()))
    } else {
        kept_letters(s.drop_last())
    }
}

/// `s` without its dashes.
pub open spec fn without_dashes(s: Seq<char>) -> Seq<char>
    decreases s.len(),
{
    if s.len() == 0 {
        Seq::empty()
    } else if s.last() == '-' {
        without_dashes(s.drop_last())
    } else {
        without_dashes(s.drop_last()).push(s.last())
    }
}

proof fn lemma_lower_not_dash(c: char)
    requires
        in_alnum_ranges(c),
    ensures
        lower_by_code(c) != '-',
        lower_by_code(c) == ascii_lower(c),
{
    if 'A' <= c <= 'Z' {
        assert('a' <= ((c as u32) + 32) as char <= 'z');
    }
}

proof fn lemma_collapse_keeps_letters(s: Seq<char>)
    ensures
        without_dashes(collapse_separators(s)) == kept_letters(s),
    decreases s.len(),
{
    if s.len() > 0 {
        lemma_collapse_keeps_letters(s.drop_last());
        let p = collapse_separators(s.drop_last());
        let c = s.last();
        if in_alnum_ranges(c) {
            lemma_lower_not_dash(c);
            assert(p.push(ascii_lower(c)).drop_last() =~= p);
        } else if !(p.len() > 0 && p.last() == '-') {
            assert(p.push('-').drop_last() =~= p);
        }
    }
}

proof fn lemma_without_dashes_prepend(c: char, s: Seq<char>)
    ensures
        without_dashes(seq![c] + s) == if c == '-' {
            without_dashes(s)
        } else {
            seq![c] + without_dashes(s)
        },
    decreases s.len(),
{
    let t = seq![c] + s;
    if s.len() > 0 {
        lemma_without_dashes_prepend(c, s.drop_last());
        assert(t.drop_last() =~= seq![c] + s.drop_last());
        assert(t.last() == s.last());
        if s.last() == '-' {
            assert(without_dashes(t) == without_dashes(t.drop_last()));
            assert(without_dashes(s) == without_dashes(s.drop_last()));
        } else {
            assert(without_dashes(t) == without_dashes(t.drop_last()).push(s.last()));
            assert(without_dashes(s) == without_dashes(s.drop_last()).push(s.last()));
            if c != '-' {
                assert((seq![c] + without_dashes(s.drop_last())).push(s.last()) =~= seq![c]
                    + without_dashes(s.drop_last()).push(s.last()));
            }
        }
    } else {
        assert(t =~= seq![c]);
        assert(t.drop_last() =~= Seq::<char>::empty());
        assert(without_dashes(Seq::<char>::empty()) == Seq::<char>::empty());
        assert(without_dashes(s) == Seq::<char>::empty());
        if c == '-' {
            assert(without_dashes(t) == without_dashes(t.drop_last()));
        } else {
            assert(without_dashes(t) == without_dashes(t.drop_last()).push(c));
            assert(Seq::<char>::empty().push(c) =~= seq![c] + Seq::<char>::empty());
        }
    }
}

proof fn lemma_strip_keeps_letters(s: Seq<char>)
    ensures
        without_dashes(strip_leading_dashes(s)) == without_dashes(s),
        without_dashes(strip_trailing_dashes(s)) == without_dashes(s),
    decreases s.len(),
{
    if s.len() > 0 {
        lemma_strip_keeps_letters(s.drop_first());
        lemma_strip_keeps_letters(s.drop_last());
        if s[0] == '-' {
            assert(s =~= seq![s[0]] + s.drop_first());
            lemma_without_dashes_prepend(s[0], s.drop_first());
        }
    }
}

proof fn lemma_dash_free_start(s: Seq<char>)
    requires
        s.len() > 0,
        s[0] != '-',
    ensures
        without_dashes(s).len() > 0,
{
    assert(s =~= seq![s[0]] + s.drop_first());
    lemma_without_dashes_prepend(s[0], s.drop_first());
}

/// The letters and digits of the file-name part are those of the title, in
/// order, lower-cased (dashes stand only for the separators between them);
/// a title with no ASCII letter or digit gives `config`.
pub proof fn lemma_sanitize_keeps_letters(title: Seq<char>)
    ensures
        kept_letters(title).len() > 0 ==> without_dashes(spec_sanitize_title(title)) == kept_letters(
            title,
        ),
        kept_letters(title).len() == 0 ==> spec_sanitize_title(title) == "config"@,
{
    let c = collapse_separators(title);
    lemma_collapse_keeps_letters(title);
    let a = strip_leading_dashes(c);
    lemma_strip_keeps_letters(c);
    lemma_strip_keeps_letters(a);
    lemma_strip_leading(c);
    let b = strip_trailing_dashes(a);
    lemma_strip_trailing(a);
    assert(without_dashes(b) == kept_letters(title));
    if b.len() > 0 {
        assert(b[0] == a[0]);
        lemma_dash_free_start(b);
    } else {
        assert(without_dashes(b) =~= Seq::<char>::empty());
    }
}

/// Turns a configuration title into the part of a file name derived from it:
/// ASCII letters and digits kept in lower case, every run of other characters
/// a single `-`, dashes at the ends dropped, and `config` if nothing is left.
pub fn sanitize_title_for_filename(title: &str) -> (r: String)
    ensures
        r@ == spec_sanitize_title(title@),
{
    let n = title.unicode_len();
    let mut out = String::new();
    let mut last_was_sep = false;
    let mut i: usize = 0;
    while i < n
        invariant
            n == title@.len(),
            i <= n,
            out@ == collapse_separators(title@.take(i as int)),
            last_was_sep == (out@.len() > 0 && out@.last() == '-'),
        decreases n - i,
    {
        let ch = title.get_char(i);
        assert(title@.take(i + 1).drop_last() =~= title@.take(i as int));
        assert(title@.take(i + 1).last() == ch);
        if ('0' <= ch && ch <= '9') || ('A' <= ch && ch <= 'Z') || ('a' <= ch && ch <= 'z') {
            let lower = if 'A' <= ch && ch <= 'Z' {
                (((ch as u8) + 32u8) as char)
            } else {
                ch
            };
            assert(lower == ascii_lower(ch));
            string_push(&mut out, lower);
            last_was_sep = false;
            assert(lower != '-');
        } else if !last_was_sep {
            string_push(&mut out, '-');
            last_was_sep = true;
        }
        i = i + 1;
    }
    assert(title@.take(n as int) =~= title@);
    let s = out.as_str();
    let m = s.unicode_len();
    let mut start: usize = 0;
    assert(s@.skip(0) =~= s@);
    while start < m && s.get_char(start) == '-'
        invariant
            m == s@.len(),
            start <= m,
            strip_leading_dashes(s@) == strip_leading_dashes(s@.skip(start as int)),
        decreases m - start,
    {
        assert(s@.skip(start as int).drop_first() =~= s@.skip(start + 1));
        start = start + 1;
    }
    assert(strip_leading_dashes(s@) == s@.skip(start as int));
    let ghost a = s@.skip(start as int);
    let mut end: usize = m;
    while end > start && s.get_char(end - 1) == '-'
        invariant
            m == s@.len(),
            start <= end <= m,
            a == s@.skip(start as int),
            strip_trailing_dashes(a) == strip_trailing_dashes(s@.subrange(start as int, end as int)),
        decreases end - start,
    {
        assert(s@.subrange(start as int, end as int).drop_last() =~= s@.subrange(
            start as int,
            end - 1,
        ));
        end = end - 1;
    }
    assert(a =~= s@.subrange(start as int, m as int));
    if start == end {
        assert(s@.subrange(start as int, end as int).len() == 0);
        String::from_str("config")
    } else {
        String::from_str(s.substring_char(start, end))
    }
}

/// The file name a configuration saved at `timestamp` is written under.
pub open spec fn spec_config_file_name(title: Seq<char>, timestamp: nat) -> Seq<char> {
    spec_sanitize_title(title) + "-"@ + decimal(timestamp) + ".xml"@
}

/// The file name for a configuration: `<sanitised title>-<timestamp>.xml`.
pub fn config_file_name(title: &str, timestamp: u64) -> (r: String)
    ensures
        r@ == spec_config_file_name(title@, timestamp as nat),
{
    let mut name = sanitize_title_for_filename(title);
    name.append("-");
    let stamp = u64_to_decimal(timestamp);
    name.append(stamp.as_str());
    name.append(".xml");
    name
}

} // verus!
