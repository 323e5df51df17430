//! Text helpers shared by the model: decimal digits and ASCII case.

use vstd::prelude::*;

verus! {

/// The character of a decimal digit `d < 10`.
pub open spec fn digit_char(d: nat) -> char {
    (d + 48) as char
}

/// Decimal representation of `n`, without leading zeros.
pub open spec fn decimal(n: nat) -> Seq<char>
    decreases n,
{
    if n < 10 {
        seq![digit_char(n)]
    } else {
        decimal(n / 10) + seq![digit_char(n % 10)]
    }
}

/// Unfolds `decimal` for numbers below one hundred.
pub proof fn lemma_decimal_small(n: nat)
    requires
        n < 100,
    ensures
        n < 10 ==> decimal(n) == seq![digit_char(n)],
        n >= 10 ==> decimal(n) == seq![digit_char(n / 10), digit_char(n % 10)],
{
    if n >= 10 {
        assert(decimal(n / 10) == seq![digit_char(n / 10)]);
        assert(decimal(n) =~= seq![digit_char(n / 10), digit_char(n % 10)]);
    }
}

/// Views of a sequence of string slices.
pub open spec fn strs_view(s: Seq<&str>) -> Seq<Seq<char>> {
    s.map_values(|x: &str| x@)
}

/// Views of a sequence of strings.
pub open spec fn strings_view(s: Seq<String>) -> Seq<Seq<char>> {
    s.map_values(|x: String| x@)
}

/// The lower-case form of an ASCII upper-case letter; other characters stay.
pub open spec fn ascii_lower_char(c: char) -> char {
    if 'A' <= c && c <= 'Z' {
        ((c as int) + 32) as char
    } else {
        c
    }
}

/// The upper-case form of an ASCII lower-case letter; other characters stay.
pub open spec fn ascii_upper_char(c: char) -> char {
    if 'a' <= c && c <= 'z' {
        ((c as int) - 32) as char
    } else {
        c
    }
}

/// The text with every ASCII upper-case letter in lower case.
pub open spec fn ascii_lower(s: Seq<char>) -> Seq<char> {
    s.map_values(|c: char| ascii_lower_char(c))
}

/// The words of a label joined into one identifier in Pascal case: each
/// space dropped and the letter after it in upper case (`Very high` gives
/// `VeryHigh`).
pub open spec fn pascal_case(s: Seq<char>) -> Seq<char>
    decreases s.len(),
{
    if s.len() == 0 {
        s
    } else if s[0] == ' ' && s.len() >= 2 {
        seq![ascii_upper_char(s[1])] + pascal_case(s.skip(2))
    } else {
        seq![s[0]] + pascal_case(s.skip(1))
    }
}

/// The words of a label joined into one identifier: ASCII letters in lower
/// case, each space replaced by `_` (`Pull down` gives `pull_down`).
pub open spec fn snake_case(s: Seq<char>) -> Seq<char> {
    s.map_values(|c: char| if c == ' ' { '_' } else { ascii_lower_char(c) })
}

/// Everything that `f` gives for the elements of `s`, in order.
pub open spec fn flat_map<A, B>(s: Seq<A>, f: spec_fn(A) -> Seq<B>) -> Seq<B>
    decreases s.len(),
{
    if s.len() == 0 {
        seq![]
    } else {
        flat_map(s.drop_last(), f) + f(s.last())
    }
}

/// An element occurs in a `flat_map` exactly when it occurs in the image of
/// one of the elements.
pub proof fn lemma_flat_map_contains<A, B>(s: Seq<A>, f: spec_fn(A) -> Seq<B>, x: B)
    ensures
        flat_map(s, f).contains(x) <==> exists|i: int| 0 <= i < s.len() && #[trigger] f(s[i]).contains(x),
    decreases s.len(),
{
    if s.len() > 0 {
        lemma_flat_map_contains(s.drop_last(), f, x);
        let prefix = flat_map(s.drop_last(), f);
        let tail = f(s.last());
        if flat_map(s, f).contains(x) {
            let k = choose|k: int| 0 <= k < flat_map(s, f).len() && flat_map(s, f)[k] == x;
            if k < prefix.len() {
                assert(prefix[k] == x);
                let i = choose|i: int| 0 <= i < s.drop_last().len() && #[trigger] f(s.drop_last()[i]).contains(x);
                assert(s.drop_last()[i] == s[i]);
            } else {
                assert(tail[k - prefix.len()] == x);
                assert(f(s[s.len() - 1]).contains(x));
            }
        }
        if exists|i: int| 0 <= i < s.len() && #[trigger] f(s[i]).contains(x) {
            let i = choose|i: int| 0 <= i < s.len() && #[trigger] f(s[i]).contains(x);
            if i < s.len() - 1 {
                assert(s.drop_last()[i] == s[i]);
                assert(prefix.contains(x));
                let k = choose|k: int| 0 <= k < prefix.len() && prefix[k] == x;
                assert(flat_map(s, f)[k] == x);
            } else {
                let k = choose|k: int| 0 <= k < tail.len() && tail[k] == x;
                assert(flat_map(s, f)[prefix.len() + k] == x);
            }
        }
    }
}

/// Appending an element appends its image.
pub proof fn lemma_flat_map_push<A, B>(s: Seq<A>, f: spec_fn(A) -> Seq<B>, a: A)
    ensures
        flat_map(s.push(a), f) == flat_map(s, f) + f(a),
{
    assert(s.push(a).drop_last() =~= s);
}

/// The images of distinct elements, each without duplicates and no two
/// sharing an element, flatten to a sequence without duplicates.
pub proof fn lemma_flat_map_no_duplicates<A, B>(s: Seq<A>, f: spec_fn(A) -> Seq<B>)
    requires
        forall|i: int| 0 <= i < s.len() ==> (#[trigger] f(s[i])).no_duplicates(),
        forall|i: int, j: int| 0 <= i < s.len() && 0 <= j < s.len() && i != j
            ==> crate::seqs::disjoint(#[trigger] f(s[i]), #[trigger] f(s[j])),
    ensures
        flat_map(s, f).no_duplicates(),
    decreases s.len(),
{
    if s.len() > 0 {
        let prefix = s.drop_last();
        assert forall|i: int| 0 <= i < prefix.len() implies #[trigger] prefix[i] == s[i] by {}
        assert forall|i: int, j: int| 0 <= i < prefix.len() && 0 <= j < prefix.len() && i != j implies
            crate::seqs::disjoint(#[trigger] f(prefix[i]), #[trigger] f(prefix[j])) by {
            assert(prefix[i] == s[i] && prefix[j] == s[j]);
        }
        assert forall|i: int| 0 <= i < prefix.len() implies (#[trigger] f(prefix[i])).no_duplicates() by {
            assert(prefix[i] == s[i]);
        }
        lemma_flat_map_no_duplicates(prefix, f);
        let head = flat_map(prefix, f);
        let tail = f(s.last());
        assert(tail == f(s[s.len() - 1]));
        assert forall|a: int, b: int| 0 <= a < head.len() && 0 <= b < tail.len() implies head[a] != tail[b] by {
            lemma_flat_map_contains(prefix, f, head[a]);
            assert(head.contains(head[a]));
            let i = choose|i: int| 0 <= i < prefix.len() && #[trigger] f(prefix[i]).contains(head[a]);
            assert(prefix[i] == s[i]);
            assert(crate::seqs::disjoint(f(s[i]), f(s[s.len() - 1])));
        }
        crate::seqs::lemma_concat_no_duplicates(head, tail);
    }
}

/// Whether the character is a decimal digit.
pub open spec fn is_digit(c: char) -> bool {
    '0' <= c && c <= '9'
}

/// The number that a string of decimal digits denotes.
pub open spec fn digits_value(s: Seq<char>) -> nat
    decreases s.len(),
{
    if s.len() == 0 {
        0
    } else {
        digits_value(s.drop_last()) * 10 + ((s.last() as int) - 48) as nat
    }
}

/// The decimal representation of a number below one hundred consists of
/// digits and denotes the number.
pub proof fn lemma_decimal_digits(n: nat)
    requires
        n < 100,
    ensures
        1 <= decimal(n).len() <= 2,
        forall|i: int| 0 <= i < decimal(n).len() ==> is_digit(#[trigger] decimal(n)[i]),
        digits_value(decimal(n)) == n,
{
    lemma_decimal_small(n);
    assert(digit_char(n % 10) as int == n % 10 + 48);
    assert(digit_char(n / 10) as int == n / 10 + 48);
    assert(digit_char(n) as int == n + 48);
    assert(Seq::<char>::empty().len() == 0);
    assert(digits_value(Seq::<char>::empty()) == 0);
    if n >= 10 {
        let d = decimal(n);
        let one = seq![digit_char(n / 10)];
        assert(d.drop_last() =~= one);
        assert(one.drop_last() =~= Seq::<char>::empty());
        assert(one.last() == digit_char(n / 10));
        assert(digits_value(one) == n / 10);
        assert(d.last() == digit_char(n % 10));
        assert(digits_value(d) == (n / 10) * 10 + n % 10);
    } else {
        let d = decimal(n);
        assert(d.drop_last() =~= Seq::<char>::empty());
        assert(d.last() == digit_char(n));
    }
}

/// Returns the lower-case form of an ASCII upper-case letter; other
/// characters stay.
pub fn lower_char(c: char) -> (l: char)
    ensures
        l == ascii_lower_char(c),
{
    if 'A' <= c && c <= 'Z' {
        ((c as u8) + 32) as char
    } else {
        c
    }
}

/// Returns the upper-case form of an ASCII lower-case letter; other
/// characters stay.
pub fn upper_char(c: char) -> (u: char)
    ensures
        u == ascii_upper_char(c),
{
    if 'a' <= c && c <= 'z' {
        ((c as u8) - 32) as char
    } else {
        c
    }
}

/// Returns the text with every ASCII upper-case letter in lower case.
pub fn ascii_lowercase(s: &str) -> (lower: String)
    ensures
        lower@ == ascii_lower(s@),
{
    let mut lower = String::new();
    let n = s.unicode_len();
    let mut i: usize = 0;
    while i < n
        invariant
            n == s@.len(),
            i <= n,
            lower@ == ascii_lower(s@.take(i as int)),
        decreases n - i,
    {
        let c = s.get_char(i);
        push_char(&mut lower, lower_char(c));
        proof {
            assert(ascii_lower(s@.take(i + 1)) =~= ascii_lower(s@.take(i as int)).push(ascii_lower_char(c)));
        }
        i += 1;
    }
    proof {
        assert(s@.take(n as int) =~= s@);
    }
    lower
}

/// Appends the decimal representation of `n` to `s`.
pub fn push_number(s: &mut String, n: u64)
    ensures
        final(s)@ == old(s)@ + decimal(n as nat),
    decreases n,
{
    let ghost start = s@;
    if n >= 10 {
        push_number(s, n / 10);
    }
    let d = n % 10;
    push_char(s, ((d as u8) + 48) as char);
    proof {
        assert(digit_char((n % 10) as nat) == ((d as u8) + 48) as char);
        if n >= 10 {
            assert(s@ =~= start + decimal(n as nat));
        } else {
            assert(s@ =~= start + decimal(n as nat));
        }
    }
}

/// Appends one character to a string (`String::push`).
#[verifier::external_body]
pub(crate) fn push_char(s: &mut String, c: char)
    ensures
        final(s)@ == old(s)@.push(c),
{
    s.push(c);
}

} // verus!
