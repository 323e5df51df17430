//! Reading what the user typed into a form: trimming, numbers and addresses.

use vstd::prelude::*;
use crate::text::{digits_value, is_digit};

verus! {

/// Whether the character has the Unicode property `White_Space`, as
/// `char::is_whitespace` decides it.
pub open spec fn is_whitespace(c: char) -> bool {
    ||| '\u{9}' <= c && c <= '\u{d}'
    ||| c == ' '
    ||| c == '\u{85}'
    ||| c == '\u{a0}'
    ||| c == '\u{1680}'
    ||| '\u{2000}' <= c && c <= '\u{200a}'
    ||| c == '\u{2028}'
    ||| c == '\u{2029}'
    ||| c == '\u{202f}'
    ||| c == '\u{205f}'
    ||| c == '\u{3000}'
}

/// The text without its leading whitespace.
pub open spec fn trim_start(s: Seq<char>) -> Seq<char>
    decreases s.len(),
{
    if s.len() > 0 && is_whitespace(s[0]) {
        trim_start(s.skip(1))
    } else {
        s
    }
}

/// The text without its trailing whitespace.
pub open spec fn trim_end(s: Seq<char>) -> Seq<char>
    decreases s.len(),
{
    if s.len() > 0 && is_whitespace(s.last()) {
        trim_end(s.drop_last())
    } else {
        s
    }
}

/// The text without leading and trailing whitespace, as `str::trim` gives it.
pub open spec fn trim(s: Seq<char>) -> Seq<char> {
    trim_end(trim_start(s))
}

/// Whether every character of the text is a decimal digit.
pub open spec fn all_digits(s: Seq<char>) -> bool {
    forall|i: int| 0 <= i < s.len() ==> is_digit(#[trigger] s[i])
}

/// The digits of an unsigned number: the text without a leading `+`.
pub open spec fn unsigned_digits(s: Seq<char>) -> Seq<char> {
    if s.len() > 0 && s[0] == '+' {
        s.skip(1)
    } else {
        s
    }
}

/// The number an unsigned integer type reads from the text, as `str::parse`
/// reads it: an optional `+`, then at least one decimal digit and nothing
/// else, with a value no larger than `max`.
pub open spec fn unsigned_value(s: Seq<char>, max: nat) -> Option<nat> {
    let digits = unsigned_digits(s);
    if digits.len() > 0 && all_digits(digits) && digits_value(digits) <= max {
        Some(digits_value(digits))
    } else {
        None
    }
}

/// Returns whether the character has the Unicode property `White_Space`.
pub fn whitespace(c: char) -> (ws: bool)
    ensures
        ws == is_whitespace(c),
{
    ('\u{9}' <= c && c <= '\u{d}') || c == ' ' || c == '\u{85}' || c == '\u{a0}' || c == '\u{1680}'
        || ('\u{2000}' <= c && c <= '\u{200a}') || c == '\u{2028}' || c == '\u{2029}' || c == '\u{202f}'
        || c == '\u{205f}' || c == '\u{3000}'
}

/// Returns the characters of the text.
pub fn chars_of(s: &str) -> (chars: Vec<char>)
    ensures
        chars@ == s@,
{
    let n = s.unicode_len();
    let mut chars: Vec<char> = Vec::new();
    let mut i: usize = 0;
    while i < n
        invariant
            n == s@.len(),
            i <= n,
            chars@ == s@.take(i as int),
        decreases n - i,
    {
        chars.push(s.get_char(i));
        proof {
            assert(s@.take(i + 1) =~= s@.take(i as int).push(s@[i as int]));
        }
        i += 1;
    }
    proof {
        assert(s@.take(n as int) =~= s@);
    }
    chars
}

/// Dropping leading whitespace from a suffix reaches the same text as
/// dropping it from the whole.
proof fn lemma_trim_start_skip(s: Seq<char>, k: int)
    requires
        0 <= k <= s.len(),
        forall|i: int| 0 <= i < k ==> is_whitespace(#[trigger] s[i]),
    ensures
        trim_start(s) == trim_start(s.skip(k)),
    decreases k,
{
    if k > 0 {
        assert(s.skip(1).skip(k - 1) =~= s.skip(k));
        assert forall|i: int| 0 <= i < k - 1 implies is_whitespace(#[trigger] s.skip(1)[i]) by {
            assert(s.skip(1)[i] == s[i + 1]);
        }
        lemma_trim_start_skip(s.skip(1), k - 1);
    } else {
        assert(s.skip(0) =~= s);
    }
}

/// Dropping trailing whitespace from a prefix reaches the same text as
/// dropping it from the whole.
proof fn lemma_trim_end_take(s: Seq<char>, k: int)
    requires
        0 <= k <= s.len(),
        forall|i: int| k <= i < s.len() ==> is_whitespace(#[trigger] s[i]),
    ensures
        trim_end(s) == trim_end(s.take(k)),
    decreases s.len() - k,
{
    if k < s.len() {
        assert(s.drop_last().take(k) =~= s.take(k));
        assert(is_whitespace(s[s.len() - 1]));
        assert forall|i: int| k <= i < s.drop_last().len() implies is_whitespace(#[trigger] s.drop_last()[i]) by {
            assert(s.drop_last()[i] == s[i]);
        }
        lemma_trim_end_take(s.drop_last(), k);
    } else {
        assert(s.take(k) =~= s);
    }
}

/// Returns the bounds of the text without leading and trailing whitespace.
pub fn trim_bounds(chars: &Vec<char>) -> (bounds: (usize, usize))
    ensures
        bounds.0 <= bounds.1 <= chars@.len(),
        chars@.subrange(bounds.0 as int, bounds.1 as int) == trim(chars@),
{
    let n = chars.len();
    let mut start: usize = 0;
    while start < n && whitespace(chars[start])
        invariant
            n == chars@.len(),
            start <= n,
            forall|i: int| 0 <= i < start ==> is_whitespace(#[trigger] chars@[i]),
        decreases n - start,
    {
        start += 1;
    }
    let mut end: usize = n;
    while end > start && whitespace(chars[end - 1])
        invariant
            n == chars@.len(),
            start <= end <= n,
            forall|i: int| end <= i < n ==> is_whitespace(#[trigger] chars@[i]),
        decreases end - start,
    {
        end -= 1;
    }
    proof {
        let s = chars@;
        lemma_trim_start_skip(s, start as int);
        let rest = s.skip(start as int);
        assert(rest.len() == 0 || !is_whitespace(rest[0]));
        assert(trim_start(rest) == rest);
        assert forall|i: int| end - start <= i < rest.len() implies is_whitespace(#[trigger] rest[i]) by {
            assert(rest[i] == s[i + start]);
        }
        lemma_trim_end_take(rest, end - start);
        let kept = rest.take(end - start);
        assert(kept =~= s.subrange(start as int, end as int));
        if kept.len() > 0 {
            assert(kept.last() == s[end - 1]);
        }
        assert(trim_end(kept) == kept);
    }
    (start, end)
}

/// Returns the text without leading and trailing whitespace.
pub fn trimmed(s: &str) -> (t: String)
    ensures
        t@ == trim(s@),
{
    let chars = chars_of(s);
    let (start, end) = trim_bounds(&chars);
    let mut t = String::new();
    let mut i = start;
    while i < end
        invariant
            start <= i <= end <= chars@.len(),
            t@ == chars@.subrange(start as int, i as int),
        decreases end - i,
    {
        crate::text::push_char(&mut t, chars[i]);
        proof {
            assert(chars@.subrange(start as int, i + 1) =~= chars@.subrange(start as int, i as int).push(chars@[i as int]));
        }
        i += 1;
    }
    t
}

/// Digits of a longer prefix denote at least as large a number.
pub proof fn lemma_digits_value_prefix(s: Seq<char>, k: int)
    requires
        0 <= k <= s.len(),
        forall|i: int| 0 <= i < s.len() ==> is_digit(#[trigger] s[i]),
    ensures
        digits_value(s.take(k)) <= digits_value(s),
    decreases s.len() - k,
{
    if k < s.len() {
        let t = s.take(k + 1);
        assert(t.drop_last() =~= s.take(k));
        assert(is_digit(s[k]));
        assert(t.last() == s[k]);
        lemma_digits_value_prefix(s, k + 1);
    } else {
        assert(s.take(k) =~= s);
    }
}

/// Once a prefix of the digits exceeds the bound, so does the whole.
proof fn lemma_too_large(digits: Seq<char>, k: int, max: nat)
    requires
        0 <= k <= digits.len(),
        digits_value(digits.take(k)) > max,
    ensures
        !all_digits(digits) || digits_value(digits) > max,
{
    if all_digits(digits) {
        lemma_digits_value_prefix(digits, k);
    }
}

/// Reads an unsigned number no larger than `max` from part of the text, as
/// `str::parse` of an unsigned integer type reads it.
pub fn parse_unsigned(chars: &Vec<char>, from: usize, to: usize, max: u64) -> (value: Option<u64>)
    requires
        from <= to <= chars@.len(),
    ensures
        match unsigned_value(chars@.subrange(from as int, to as int), max as nat) {
            Some(v) => value == Some(v as u64),
            None => value is None,
        },
{
    let ghost s = chars@.subrange(from as int, to as int);
    let mut start = from;
    if start < to && chars[start] == '+' {
        start += 1;
    }
    let ghost digits = chars@.subrange(start as int, to as int);
    proof {
        if s.len() > 0 && s[0] == '+' {
            assert(digits =~= s.skip(1));
        } else {
            assert(digits =~= s);
        }
    }
    if start == to {
        return None;
    }
    let mut value: u64 = 0;
    let mut i = start;
    while i < to
        invariant
            from <= start < to <= chars@.len(),
            s == chars@.subrange(from as int, to as int),
            digits == chars@.subrange(start as int, to as int),
            digits == unsigned_digits(s),
            start <= i <= to,
            forall|j: int| 0 <= j < i - start ==> is_digit(#[trigger] digits[j]),
            value == digits_value(digits.take(i - start)),
            value <= max,
        decreases to - i,
    {
        let c = chars[i];
        if !('0' <= c && c <= '9') {
            proof {
                assert(digits[i - start] == c);
                assert(!is_digit(digits[i - start]));
                assert(!all_digits(digits));
            }
            return None;
        }
        proof {
            assert(digits.take(i - start + 1).drop_last() =~= digits.take(i - start));
            assert(digits.take(i - start + 1).last() == c);
            assert(digits[i - start] == c);
        }
        let d = (c as u64) - 48;
        let next = match value.checked_mul(10) {
            Some(v) => v.checked_add(d),
            None => None,
        };
        let next = match next {
            Some(v) => {
                if v <= max {
                    v
                } else {
                    proof {
                        lemma_too_large(digits, i - start + 1, max as nat);
                    }
                    return None;
                }
            },
            None => {
                proof {
                    lemma_too_large(digits, i - start + 1, max as nat);
                }
                return None;
            },
        };
        proof {
            assert(digits_value(digits.take(i - start + 1)) == value * 10 + d);
        }
        value = next;
        i += 1;
    }
    proof {
        assert(digits.take(i - start) =~= digits);
    }
    Some(value)
}


/// The parts of the text between the separators `a` and `b`, as
/// `str::split` with the two characters gives them: one more part than
/// there are separators, empty parts included.
pub open spec fn split_parts(s: Seq<char>, a: char, b: char) -> Seq<Seq<char>>
    decreases s.len(),
{
    if s.len() == 0 {
        seq![Seq::<char>::empty()]
    } else {
        let parts = split_parts(s.drop_last(), a, b);
        if s.last() == a || s.last() == b {
            parts.push(Seq::<char>::empty())
        } else {
            parts.update(parts.len() - 1, parts.last().push(s.last()))
        }
    }
}

/// There is always at least one part.
pub proof fn lemma_split_parts_len(s: Seq<char>, a: char, b: char)
    ensures
        split_parts(s, a, b).len() >= 1,
    decreases s.len(),
{
    if s.len() > 0 {
        lemma_split_parts_len(s.drop_last(), a, b);
    }
}

/// A text without separators is a single part.
pub proof fn lemma_split_parts_single(s: Seq<char>, a: char, b: char)
    requires
        forall|i: int| 0 <= i < s.len() ==> #[trigger] s[i] != a && s[i] != b,
    ensures
        split_parts(s, a, b) == seq![s],
    decreases s.len(),
{
    if s.len() > 0 {
        let prefix = s.drop_last();
        assert forall|i: int| 0 <= i < prefix.len() implies #[trigger] prefix[i] != a && prefix[i] != b by {
            assert(prefix[i] == s[i]);
        }
        lemma_split_parts_single(prefix, a, b);
        assert(s.last() == s[s.len() - 1]);
        assert(prefix.push(s.last()) =~= s);
        assert(seq![prefix].update(0, prefix.push(s.last())) =~= seq![s]);
    } else {
        assert(s =~= Seq::<char>::empty());
    }
}

/// Splitting at a separator splits the parts before and after it apart.
pub proof fn lemma_split_parts_concat(x: Seq<char>, sep: char, y: Seq<char>, a: char, b: char)
    requires
        sep == a || sep == b,
    ensures
        split_parts(x + seq![sep] + y, a, b) == split_parts(x, a, b) + split_parts(y, a, b),
    decreases y.len(),
{
    lemma_split_parts_len(x, a, b);
    if y.len() == 0 {
        assert(x + seq![sep] + y =~= x.push(sep));
        assert((x.push(sep)).drop_last() =~= x);
        assert(split_parts(y, a, b) =~= seq![Seq::<char>::empty()]);
        assert(split_parts(x, a, b).push(Seq::<char>::empty()) =~= split_parts(x, a, b) + seq![Seq::<char>::empty()]);
    } else {
        let y0 = y.drop_last();
        let c = y.last();
        lemma_split_parts_concat(x, sep, y0, a, b);
        lemma_split_parts_len(y0, a, b);
        let whole = x + seq![sep] + y;
        assert(whole.drop_last() =~= x + seq![sep] + y0);
        assert(whole.last() == c);
        let px = split_parts(x, a, b);
        let py = split_parts(y0, a, b);
        if c == a || c == b {
            assert((px + py).push(Seq::<char>::empty()) =~= px + py.push(Seq::<char>::empty()));
        } else {
            assert((px + py).update((px + py).len() - 1, (px + py).last().push(c))
                =~= px + py.update(py.len() - 1, py.last().push(c)));
        }
    }
}

/// The parts of the text between bounds, as subranges of the characters.
pub open spec fn parts_at(chars: Seq<char>, bounds: Seq<(usize, usize)>) -> Seq<Seq<char>> {
    bounds.map_values(|r: (usize, usize)| chars.subrange(r.0 as int, r.1 as int))
}

/// Returns the bounds of the parts of `chars[from..to]` between the
/// separators `a` and `b`.
pub fn split_bounds(chars: &Vec<char>, from: usize, to: usize, a: char, b: char) -> (bounds: Vec<(usize, usize)>)
    requires
        from <= to <= chars@.len(),
    ensures
        forall|k: int| 0 <= k < bounds@.len() ==> (#[trigger] bounds@[k]).0 <= bounds@[k].1 <= chars@.len(),
        parts_at(chars@, bounds@) == split_parts(chars@.subrange(from as int, to as int), a, b),
{
    let ghost s = chars@.subrange(from as int, to as int);
    let mut bounds: Vec<(usize, usize)> = Vec::new();
    let mut start = from;
    let mut i = from;
    proof {
        assert(parts_at(chars@, bounds@) =~= Seq::<Seq<char>>::empty());
        assert(chars@.subrange(from as int, from as int) =~= Seq::<char>::empty());
        assert(s.take(0) =~= Seq::<char>::empty());
        assert(parts_at(chars@, bounds@).push(chars@.subrange(from as int, from as int)) =~= seq![Seq::<char>::empty()]);
    }
    while i < to
        invariant
            from <= start <= i <= to <= chars@.len(),
            s == chars@.subrange(from as int, to as int),
            forall|k: int| 0 <= k < bounds@.len() ==> (#[trigger] bounds@[k]).0 <= bounds@[k].1 <= chars@.len(),
            parts_at(chars@, bounds@).push(chars@.subrange(start as int, i as int)) == split_parts(s.take(i - from), a, b),
        decreases to - i,
    {
        let c = chars[i];
        let ghost prefix = s.take(i - from);
        proof {
            assert(s.take(i - from + 1).drop_last() =~= prefix);
            assert(s.take(i - from + 1).last() == c);
            lemma_split_parts_len(prefix, a, b);
        }
        if c == a || c == b {
            let ghost before = bounds@;
            bounds.push((start, i));
            proof {
                assert(parts_at(chars@, bounds@) =~= parts_at(chars@, before).push(chars@.subrange(start as int, i as int)));
                assert(chars@.subrange((i + 1) as int, (i + 1) as int) =~= Seq::<char>::empty());
            }
            start = i + 1;
        } else {
            proof {
                let parts = split_parts(prefix, a, b);
                assert(chars@.subrange(start as int, i + 1) =~= chars@.subrange(start as int, i as int).push(c));
                assert(parts_at(chars@, bounds@).push(chars@.subrange(start as int, i + 1))
                    =~= parts.update(parts.len() - 1, parts.last().push(c)));
            }
        }
        i += 1;
    }
    let ghost before = bounds@;
    bounds.push((start, to));
    proof {
        assert(s.take(to - from) =~= s);
        assert(parts_at(chars@, bounds@) =~= parts_at(chars@, before).push(chars@.subrange(start as int, to as int)));
    }
    bounds
}

/// The number of UTF-8 bytes that encode the character.
pub open spec fn utf8_width(c: char) -> nat {
    if (c as u32) < 0x80 {
        1
    } else if (c as u32) < 0x800 {
        2
    } else if (c as u32) < 0x10000 {
        3
    } else {
        4
    }
}

/// The number of UTF-8 bytes that encode the text, as `str::len` counts them.
pub open spec fn utf8_len(s: Seq<char>) -> nat
    decreases s.len(),
{
    if s.len() == 0 {
        0
    } else {
        utf8_len(s.drop_last()) + utf8_width(s.last())
    }
}

/// Returns the number of UTF-8 bytes that encode `chars[from..to]`, or
/// `limit + 1` when there are more than `limit`.
pub fn utf8_len_up_to(chars: &Vec<char>, from: usize, to: usize, limit: usize) -> (len: usize)
    requires
        from <= to <= chars@.len(),
        limit < usize::MAX - 4,
    ensures
        utf8_len(chars@.subrange(from as int, to as int)) <= limit ==> len == utf8_len(chars@.subrange(from as int, to as int)),
        utf8_len(chars@.subrange(from as int, to as int)) > limit ==> len > limit,
{
    let ghost s = chars@.subrange(from as int, to as int);
    let mut len: usize = 0;
    let mut i = from;
    while i < to
        invariant
            from <= i <= to <= chars@.len(),
            s == chars@.subrange(from as int, to as int),
            len == utf8_len(s.take(i - from)),
            len <= limit,
            limit < usize::MAX - 4,
        decreases to - i,
    {
        let c = chars[i];
        let code = c as u32;
        let width: usize = if code < 0x80 {
            1
        } else if code < 0x800 {
            2
        } else if code < 0x10000 {
            3
        } else {
            4
        };
        proof {
            assert(s.take(i - from + 1).drop_last() =~= s.take(i - from));
            assert(s.take(i - from + 1).last() == c);
        }
        len = len + width;
        i += 1;
        if len > limit {
            proof {
                lemma_utf8_len_prefix(s, i - from);
            }
            return len;
        }
    }
    proof {
        assert(s.take(i - from) =~= s);
    }
    len
}

/// Every character takes at least one byte.
pub proof fn lemma_utf8_len_at_least(s: Seq<char>)
    ensures
        utf8_len(s) >= s.len(),
    decreases s.len(),
{
    if s.len() > 0 {
        lemma_utf8_len_at_least(s.drop_last());
    }
}

/// A prefix takes no more bytes than the whole text.
proof fn lemma_utf8_len_prefix(s: Seq<char>, k: int)
    requires
        0 <= k <= s.len(),
    ensures
        utf8_len(s.take(k)) <= utf8_len(s),
    decreases s.len() - k,
{
    if k < s.len() {
        assert(s.take(k + 1).drop_last() =~= s.take(k));
        lemma_utf8_len_prefix(s, k + 1);
    } else {
        assert(s.take(k) =~= s);
    }
}

/// The value of a hexadecimal digit; any case.
pub open spec fn hex_digit_value(c: char) -> Option<nat> {
    if '0' <= c && c <= '9' {
        Some((c as nat - 48) as nat)
    } else if 'a' <= c && c <= 'f' {
        Some((c as nat - 87) as nat)
    } else if 'A' <= c && c <= 'F' {
        Some((c as nat - 55) as nat)
    } else {
        None
    }
}

/// Whether every character of the text is a hexadecimal digit.
pub open spec fn all_hex_digits(s: Seq<char>) -> bool {
    forall|i: int| 0 <= i < s.len() ==> (#[trigger] hex_digit_value(s[i])) is Some
}

/// The number that a string of hexadecimal digits denotes.
pub open spec fn hex_value(s: Seq<char>) -> nat
    decreases s.len(),
{
    if s.len() == 0 {
        0
    } else {
        hex_value(s.drop_last()) * 16 + hex_digit_value(s.last())->0
    }
}

/// The byte that `u8::from_str_radix(text, 16)` reads: an optional `+`, then
/// at least one hexadecimal digit and nothing else, with a value below 256.
pub open spec fn hex_byte_value(s: Seq<char>) -> Option<u8> {
    let digits = unsigned_digits(s);
    if digits.len() > 0 && all_hex_digits(digits) && hex_value(digits) <= 255 {
        Some(hex_value(digits) as u8)
    } else {
        None
    }
}

/// Returns the value of a hexadecimal digit.
fn hex_digit(c: char) -> (value: Option<u8>)
    ensures
        match hex_digit_value(c) {
            Some(v) => value == Some(v as u8),
            None => value is None,
        },
{
    if '0' <= c && c <= '9' {
        Some((c as u8) - 48)
    } else if 'a' <= c && c <= 'f' {
        Some((c as u8) - 87)
    } else if 'A' <= c && c <= 'F' {
        Some((c as u8) - 55)
    } else {
        None
    }
}

/// Reads a byte of at most two hexadecimal digits, as `u8::from_str_radix`
/// does with radix 16, from a part of at most two characters.
pub fn parse_hex_byte(chars: &Vec<char>, from: usize, to: usize) -> (value: Option<u8>)
    requires
        from <= to <= chars@.len(),
        to - from <= 2,
    ensures
        value == hex_byte_value(chars@.subrange(from as int, to as int)),
{
    let ghost s = chars@.subrange(from as int, to as int);
    let mut start = from;
    if start < to && chars[start] == '+' {
        start += 1;
    }
    let ghost digits = chars@.subrange(start as int, to as int);
    proof {
        assert(digits =~= unsigned_digits(s));
    }
    if start == to {
        return None;
    }
    let first = match hex_digit(chars[start]) {
        Some(v) => v,
        None => {
            proof {
                assert(digits[0] == chars@[start as int]);
                assert(!all_hex_digits(digits));
            }
            return None;
        },
    };
    proof {
        assert(digits.take(1).drop_last() =~= Seq::<char>::empty());
        assert(digits.take(1).last() == digits[0]);
        assert(digits[0] == chars@[start as int]);
        assert(hex_value(Seq::<char>::empty()) == 0);
        assert(hex_value(digits.take(1)) == first);
    }
    if start + 1 == to {
        proof {
            assert(digits.take(1) =~= digits);
            assert(all_hex_digits(digits));
        }
        return Some(first);
    }
    let second = match hex_digit(chars[start + 1]) {
        Some(v) => v,
        None => {
            proof {
                assert(digits[1] == chars@[start + 1]);
                assert(!all_hex_digits(digits));
            }
            return None;
        },
    };
    proof {
        assert(digits.len() == 2);
        assert(digits.drop_last() =~= digits.take(1));
        assert(digits.last() == chars@[start + 1]);
        assert(hex_value(digits) == first * 16 + second);
        assert(all_hex_digits(digits)) by {
            assert forall|i: int| 0 <= i < digits.len() implies (#[trigger] hex_digit_value(digits[i])) is Some by {
                if i == 0 {
                    assert(digits[0] == chars@[start as int]);
                } else {
                    assert(digits[1] == chars@[start + 1]);
                }
            }
        }
    }
    Some(first * 16 + second)
}

} // verus!
