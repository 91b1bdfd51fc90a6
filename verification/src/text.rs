//! Text helpers shared by the configuration and device modules: Unicode
//! white space, trimming, decimal numerals, lowercasing and substring search.

use vstd::prelude::*;

verus! {

/// The Unicode `White_Space` property (PropList.txt): the code points that
/// `char::is_whitespace` and `str::trim` treat as white space.
pub open spec fn white_space(c: char) -> bool {
    let v = c as u32;
    ||| 0x9 <= v <= 0xd
    ||| v == 0x20
    ||| v == 0x85
    ||| v == 0xa0
    ||| v == 0x1680
    ||| 0x2000 <= v <= 0x200a
    ||| v == 0x2028
    ||| v == 0x2029
    ||| v == 0x202f
    ||| v == 0x205f
    ||| v == 0x3000
}

/// Whether `c` has the Unicode `White_Space` property.
pub fn is_white_space(c: char) -> (r: bool)
    ensures
        r == white_space(c),
{
    let v = c as u32;
    (0x9 <= v && v <= 0xd) || v == 0x20 || v == 0x85 || v == 0xa0 || v == 0x1680 || (0x2000 <= v
        && v <= 0x200a) || v == 0x2028 || v == 0x2029 || v == 0x202f || v == 0x205f || v == 0x3000
}

/// `s` without its leading white space.
pub open spec fn trim_start(s: Seq<char>) -> Seq<char>
    decreases s.len(),
{
    if s.len() > 0 && white_space(s[0]) {
        trim_start(s.drop_first())
    } else {
        s
    }
}

/// `s` without its trailing white space.
pub open spec fn trim_end(s: Seq<char>) -> Seq<char>
    decreases s.len(),
{
    if s.len() > 0 && white_space(s.last()) {
        trim_end(s.drop_last())
    } else {
        s
    }
}

/// `s` without its leading and trailing white space, as `str::trim` gives it.
pub open spec fn trimmed(s: Seq<char>) -> Seq<char> {
    trim_end(trim_start(s))
}

/// Every character of `s` is white space (the empty text included).
pub open spec fn blank(s: Seq<char>) -> bool {
    forall|i: int| 0 <= i < s.len() ==> white_space(#[trigger] s[i])
}

/// The text of `s` without leading and trailing white space.
pub fn trim_text(s: &str) -> (r: String)
    ensures
        r@ == trimmed(s@),
{
    let n = s.unicode_len();
    let mut start: usize = 0;
    assert(s@.subrange(0, n as int) =~= s@);
    while start < n && is_white_space(s.get_char(start))
        invariant
            n == s@.len(),
            start <= n,
            trim_start(s@) == trim_start(s@.subrange(start as int, n as int)),
        decreases n - start,
    {
        assert(s@.subrange(start as int, n as int).drop_first() =~= s@.subrange(
            start + 1,
            n as int,
        ));
        start = start + 1;
    }
    proof {
        assert(trim_start(s@) == s@.subrange(start as int, n as int));
    }
    let mut end: usize = n;
    while end > start && is_white_space(s.get_char(end - 1))
        invariant
            n == s@.len(),
            start <= end <= n,
            trimmed(s@) == trim_end(s@.subrange(start as int, end as int)),
        decreases end - start,
    {
        assert(s@.subrange(start as int, end as int).drop_last() =~= s@.subrange(
            start as int,
            end - 1,
        ));
        end = end - 1;
    }
    let piece = s.substring_char(start, end);
    piece.to_owned()
}

/// Whether `s` is empty once trimmed, that is whether it holds nothing but
/// white space.
pub fn is_blank(s: &str) -> (r: bool)
    ensures
        r == blank(s@),
        r == (trimmed(s@).len() == 0),
{
    let t = trim_text(s);
    proof {
        lemma_trimmed_empty_iff_blank(s@);
    }
    t.as_str().is_empty()
}

proof fn lemma_trim_start_blank(s: Seq<char>)
    ensures
        trim_start(s).len() == 0 <==> blank(s),
        trim_start(s).len() > 0 ==> !white_space(trim_start(s)[0]),
    decreases s.len(),
{
    if s.len() > 0 && white_space(s[0]) {
        lemma_trim_start_blank(s.drop_first());
        if blank(s.drop_first()) {
            assert forall|i: int| 0 <= i < s.len() implies white_space(#[trigger] s[i]) by {
                if i > 0 {
                    assert(s[i] == s.drop_first()[i - 1]);
                }
            }
        }
        if blank(s) {
            assert forall|i: int| 0 <= i < s.drop_first().len() implies white_space(
                #[trigger] s.drop_first()[i],
            ) by {
                assert(s.drop_first()[i] == s[i + 1]);
            }
        }
    } else if s.len() > 0 {
        assert(!white_space(s[0]));
    }
}

proof fn lemma_trim_end_keeps_nonempty(s: Seq<char>)
    requires
        s.len() > 0,
        !white_space(s[0]),
    ensures
        trim_end(s).len() > 0,
    decreases s.len(),
{
    if white_space(s.last()) {
        assert(s.len() > 1);
        assert(s.drop_last()[0] == s[0]);
        lemma_trim_end_keeps_nonempty(s.drop_last());
    }
}

/// A text is trimmed to nothing exactly when all of it is white space.
pub proof fn lemma_trimmed_empty_iff_blank(s: Seq<char>)
    ensures
        (trimmed(s).len() == 0) == blank(s),
{
    lemma_trim_start_blank(s);
    if trim_start(s).len() > 0 {
        lemma_trim_end_keeps_nonempty(trim_start(s));
    }
}

/// The character of the decimal digit `d`.
pub open spec fn digit_char(d: nat) -> char {
    (48 + d) as char
}

/// The decimal numeral of `n`, without sign or leading zeros, as `Display`
/// writes an unsigned integer.
pub open spec fn decimal(n: nat) -> Seq<char>
    decreases n,
{
    if n < 10 {
        seq![digit_char(n)]
    } else {
        decimal(n / 10).push(digit_char(n % 10))
    }
}

/// Appends `c` to `s`.
///
/// Trusted: calls `String::push`, which appends the given char to the end
/// of the string.
#[verifier::external_body]
pub(crate) fn push_char(s: &mut String, c: char)
    ensures
        final(s)@ == old(s)@.push(c),
{
    s.push(c)
}

fn digit(d: u64) -> (c: char)
    requires
        d < 10,
    ensures
        c == digit_char(d as nat),
{
    let v: u8 = 48 + (d as u8);
    v as char
}

/// The decimal numeral of `n`.
pub fn decimal_string(n: u64) -> (r: String)
    ensures
        r@ == decimal(n as nat),
    decreases n,
{
    if n < 10 {
        let mut s = String::new();
        push_char(&mut s, digit(n));
        s
    } else {
        let mut s = decimal_string(n / 10);
        push_char(&mut s, digit(n % 10));
        s
    }
}

/// The text `prefix` followed by the decimal numeral of `n`, as
/// `format!("{prefix}{n}")` writes it.
pub fn numbered(prefix: &str, n: u64) -> (r: String)
    ensures
        r@ == prefix@ + decimal(n as nat),
{
    let num = decimal_string(n);
    let mut s = prefix.to_owned();
    s.append(num.as_str());
    s
}

/// The lowercase form of `s`, as `str::to_lowercase` maps it.
pub uninterp spec fn lowercase(s: Seq<char>) -> Seq<char>;

/// The lowercase form of `s`.
///
/// Trusted: calls `str::to_lowercase`. The contract claims only that the
/// result depends on the text alone; the Unicode case mapping is not stated.
#[verifier::external_body]
pub(crate) fn to_lowercase(s: &str) -> (r: String)
    ensures
        r@ == lowercase(s@),
{
    s.to_lowercase()
}

/// `needle` occurs in `hay` as a run of consecutive characters.
pub open spec fn occurs_in(needle: Seq<char>, hay: Seq<char>) -> bool {
    exists|i: int|
        0 <= i && i + needle.len() <= hay.len() && #[trigger] hay.subrange(i, i + needle.len())
            == needle
}

/// Whether `needle` occurs in `hay`, as `str::contains` with a text pattern
/// answers.
pub fn contains_text(hay: &str, needle: &str) -> (r: bool)
    ensures
        r == occurs_in(needle@, hay@),
{
    let h = hay.unicode_len();
    let m = needle.unicode_len();
    if m > h {
        return false;
    }
    let mut i: usize = 0;
    while i <= h - m
        invariant
            h == hay@.len(),
            m == needle@.len(),
            m <= h,
            i <= h - m + 1,
            forall|k: int| 0 <= k < i ==> #[trigger] hay@.subrange(k, k + m) != needle@,
        decreases h - m + 1 - i,
    {
        let mut j: usize = 0;
        let mut same = true;
        while j < m && same
            invariant
                h == hay@.len(),
                m == needle@.len(),
                i + m <= h,
                j <= m,
                same == (forall|t: int| 0 <= t < j ==> hay@[i + t] == needle@[t]),
            decreases m - j,
        {
            if hay.get_char(i + j) != needle.get_char(j) {
                same = false;
            }
            j = j + 1;
        }
        if same {
            assert(hay@.subrange(i as int, i + m) =~= needle@);
            return true;
        }
        assert(hay@.subrange(i as int, i + m) != needle@) by {
            let t = choose|t: int| 0 <= t < j && hay@[i + t] != needle@[t];
            assert(hay@.subrange(i as int, i + m)[t] == hay@[i + t]);
        }
        i = i + 1;
    }
    false
}

/// A decimal numeral has at least one digit, and one digit exactly for the
/// numbers below ten.
pub proof fn lemma_decimal_len(n: nat)
    ensures
        decimal(n).len() >= 1,
        decimal(n).len() == 1 <==> n < 10,
    decreases n,
{
    if n >= 10 {
        lemma_decimal_len(n / 10);
    }
}

/// Different numbers have different decimal numerals, so numbered names
/// tell the numbers apart.
pub proof fn lemma_decimal_injective(n: nat, m: nat)
    requires
        decimal(n) == decimal(m),
    ensures
        n == m,
    decreases n,
{
    lemma_decimal_len(n);
    lemma_decimal_len(m);
    if n < 10 && m < 10 {
        assert(decimal(n)[0] == digit_char(n));
        assert(decimal(m)[0] == digit_char(m));
    } else if n >= 10 && m >= 10 {
        assert(decimal(n).last() == digit_char(n % 10));
        assert(decimal(m).last() == digit_char(m % 10));
        assert(decimal(n).drop_last() =~= decimal(n / 10));
        assert(decimal(m).drop_last() =~= decimal(m / 10));
        lemma_decimal_injective(n / 10, m / 10);
    }
}


/// Trimming the start drops a run of white space from the front and stops at
/// the first other character.
pub proof fn lemma_trim_start_shape(s: Seq<char>) -> (a: int)
    ensures
        0 <= a <= s.len(),
        trim_start(s) == s.subrange(a, s.len() as int),
        forall|i: int| 0 <= i < a ==> white_space(#[trigger] s[i]),
        trim_start(s).len() > 0 ==> !white_space(trim_start(s)[0]),
    decreases s.len(),
{
    if s.len() > 0 && white_space(s[0]) {
        let b = lemma_trim_start_shape(s.drop_first());
        assert(s.drop_first().subrange(b, s.drop_first().len() as int) =~= s.subrange(
            b + 1,
            s.len() as int,
        ));
        assert forall|i: int| 0 <= i < b + 1 implies white_space(#[trigger] s[i]) by {
            if i > 0 {
                assert(s[i] == s.drop_first()[i - 1]);
            }
        }
        b + 1
    } else {
        assert(s.subrange(0, s.len() as int) =~= s);
        0
    }
}

/// Trimming the end drops a run of white space from the back and stops at
/// the last other character.
pub proof fn lemma_trim_end_shape(s: Seq<char>) -> (b: int)
    ensures
        0 <= b <= s.len(),
        trim_end(s) == s.subrange(0, b),
        forall|i: int| b <= i < s.len() ==> white_space(#[trigger] s[i]),
        trim_end(s).len() > 0 ==> !white_space(trim_end(s).last()),
    decreases s.len(),
{
    if s.len() > 0 && white_space(s.last()) {
        let b = lemma_trim_end_shape(s.drop_last());
        assert(s.drop_last().subrange(0, b) =~= s.subrange(0, b));
        assert forall|i: int| b <= i < s.len() implies white_space(#[trigger] s[i]) by {
            if i < s.len() - 1 {
                assert(s[i] == s.drop_last()[i]);
            }
        }
        b
    } else {
        assert(s.subrange(0, s.len() as int) =~= s);
        s.len() as int
    }
}

/// A trimmed text neither starts nor ends with white space, and it is the
/// text itself, from the returned position on, with only white space cut
/// from both ends.
pub proof fn lemma_trimmed_shape(s: Seq<char>) -> (a: int)
    ensures
        trimmed(s).len() > 0 ==> !white_space(trimmed(s)[0]),
        trimmed(s).len() > 0 ==> !white_space(trimmed(s).last()),
        0 <= a,
        a + trimmed(s).len() <= s.len(),
        s.subrange(a, a + trimmed(s).len()) == trimmed(s),
        forall|i: int| 0 <= i < a ==> white_space(#[trigger] s[i]),
        forall|i: int| a + trimmed(s).len() <= i < s.len() ==> white_space(#[trigger] s[i]),
{
    let a = lemma_trim_start_shape(s);
    let t = trim_start(s);
    let b = lemma_trim_end_shape(t);
    let r = trimmed(s);
    assert(r == t.subrange(0, b));
    if r.len() > 0 {
        assert(r[0] == t[0]);
    }
    assert(s.subrange(a, a + b) =~= r);
    assert forall|i: int| a + r.len() <= i < s.len() implies white_space(#[trigger] s[i]) by {
        assert(s[i] == t[i - a]);
    }
    a
}

} // verus!
