//! Text as sequences of characters: comparison, splitting, and decimal numbers.

use vstd::prelude::*;
use vstd::string::*;

verus! {

/// An ASCII letter.
pub open spec fn is_letter(c: char) -> bool {
    'A' <= c <= 'Z' || 'a' <= c <= 'z'
}

/// An ASCII decimal digit.
pub open spec fn is_digit(c: char) -> bool {
    '0' <= c <= '9'
}

/// The value of a decimal digit.
pub open spec fn digit_value(c: char) -> nat
    recommends
        is_digit(c),
{
    (c as int - '0' as int) as nat
}

/// The decimal digit with a given value.
pub open spec fn digit_char(d: nat) -> char
    recommends
        d < 10,
{
    ('0' as int + d) as char
}

/// The pieces of `s` between the occurrences of `sep`: always one more than there are separators.
pub open spec fn split(s: Seq<char>, sep: char) -> Seq<Seq<char>>
    decreases s.len(),
{
    if s.len() == 0 {
        seq![Seq::<char>::empty()]
    } else {
        let before = split(s.drop_last(), sep);
        if s.last() == sep {
            before.push(Seq::empty())
        } else {
            before.drop_last().push(before.last().push(s.last()))
        }
    }
}

/// The pieces put one after the other, with `sep` between neighbours.
pub open spec fn joined(pieces: Seq<Seq<char>>, sep: Seq<char>) -> Seq<char>
    decreases pieces.len(),
{
    if pieces.len() == 0 {
        Seq::empty()
    } else if pieces.len() == 1 {
        pieces[0]
    } else {
        joined(pieces.drop_last(), sep) + sep + pieces.last()
    }
}

/// The shortest decimal form of a natural number.
pub open spec fn decimal(n: nat) -> Seq<char>
    decreases n,
{
    if n < 10 {
        seq![digit_char(n)]
    } else {
        decimal(n / 10).push(digit_char(n % 10))
    }
}

/// The shortest decimal form of an integer, with a leading minus sign where it is negative.
pub open spec fn decimal_int(n: int) -> Seq<char> {
    if n < 0 {
        "-"@ + decimal((-n) as nat)
    } else {
        decimal(n as nat)
    }
}

/// The number that a run of decimal digits stands for.
pub open spec fn digits_value(digits: Seq<char>) -> nat
    decreases digits.len(),
{
    if digits.len() == 0 {
        0
    } else {
        digits_value(digits.drop_last()) * 10 + digit_value(digits.last())
    }
}

/// The longest prefix of `s` that is made of decimal digits.
pub open spec fn leading_digits(s: Seq<char>) -> Seq<char>
    decreases s.len(),
{
    if s.len() == 0 || !is_digit(s[0]) {
        Seq::empty()
    } else {
        seq![s[0]] + leading_digits(s.drop_first())
    }
}

/// What follows the first occurrence of `c` in `s`, where there is one.
pub open spec fn after_first(s: Seq<char>, c: char) -> Option<Seq<char>>
    decreases s.len(),
{
    if s.len() == 0 {
        None
    } else if s[0] == c {
        Some(s.drop_first())
    } else {
        after_first(s.drop_first(), c)
    }
}

/// The number at the front of `s`: zero where no digit stands there, or where the number that the
/// digits give is above the largest `i32`.
pub open spec fn leading_number(s: Seq<char>) -> int {
    let n = digits_value(leading_digits(s));
    if n <= i32::MAX {
        n as int
    } else {
        0
    }
}

/// Whether `c` is an ASCII letter.
pub fn letter(c: char) -> (r: bool)
    ensures
        r == is_letter(c),
{
    let n: u32 = c as u32;
    (65 <= n && n <= 90) || (97 <= n && n <= 122)
}

/// Whether `c` is an ASCII decimal digit.
pub fn digit(c: char) -> (r: bool)
    ensures
        r == is_digit(c),
{
    let n: u32 = c as u32;
    48 <= n && n <= 57
}

/// The characters of a string, in order.
pub fn to_chars(s: &str) -> (v: Vec<char>)
    ensures
        v@ == s@,
{
    let mut v: Vec<char> = Vec::new();
    for c in it: s.chars()
        invariant
            v@ == s@.take(it.index() as int),
            it.seq() == s@,
    {
        v.push(c);
        assert(s@.take(it.index() as int + 1) =~= s@.take(it.index() as int).push(c));
    }
    assert(s@.take(s@.len() as int) =~= s@);
    v
}

/// Whether two strings hold the same characters.
pub fn equal(a: &str, b: &str) -> (r: bool)
    ensures
        r == (a@ == b@),
{
    a.to_owned() == b.to_owned()
}

/// Whether `s` begins with `prefix`.
pub fn starts_with(s: &str, prefix: &str) -> (r: bool)
    ensures
        r == prefix@.is_prefix_of(s@),
{
    let n: usize = s.unicode_len();
    let m: usize = prefix.unicode_len();
    m <= n && equal(s.substring_char(0, m), prefix)
}

/// Whether `s` ends in `suffix`.
pub fn ends_with(s: &str, suffix: &str) -> (r: bool)
    ensures
        r == suffix@.is_suffix_of(s@),
{
    let n: usize = s.unicode_len();
    let m: usize = suffix.unicode_len();
    m <= n && equal(s.substring_char(n - m, n), suffix)
}

/// `s` without `suffix` at its end, where it has it.
pub fn strip_suffix<'a>(s: &'a str, suffix: &str) -> (r: Option<&'a str>)
    ensures
        r is Some <==> suffix@.is_suffix_of(s@),
        r matches Some(stem) ==> s@ == stem@ + suffix@,
{
    if ends_with(s, suffix) {
        let n: usize = s.unicode_len();
        let m: usize = suffix.unicode_len();
        let stem = s.substring_char(0, n - m);
        assert(s@ =~= stem@ + suffix@);
        Some(stem)
    } else {
        None
    }
}

/// The pieces of `s` between the occurrences of `sep`.
pub fn split_on(s: &str, sep: char) -> (pieces: Vec<String>)
    ensures
        pieces.deep_view() == split(s@, sep),
{
    let chars = to_chars(s);
    let n: usize = chars.len();
    let mut pieces: Vec<String> = Vec::new();
    let mut start: usize = 0;
    let mut i: usize = 0;
    assert(s@.take(0) =~= Seq::<char>::empty());
    assert(pieces.deep_view() =~= Seq::<Seq<char>>::empty());
    while i < n
        invariant
            n == chars@.len(),
            chars@ == s@,
            start <= i <= n,
            split(s@.take(i as int), sep) == pieces.deep_view().push(
                s@.subrange(start as int, i as int),
            ),
        decreases n - i,
    {
        let ghost before = pieces.deep_view();
        let ghost prefix = s@.take(i as int);
        let ghost longer = s@.take(i as int + 1);
        assert(longer.drop_last() =~= prefix);
        assert(longer.last() == s@[i as int]);
        if chars[i] == sep {
            let piece = s.substring_char(start, i).to_owned();
            pieces.push(piece);
            assert(pieces.deep_view() =~= before.push(s@.subrange(start as int, i as int)));
            start = i + 1;
            assert(s@.subrange(start as int, i as int + 1) =~= Seq::<char>::empty());
        } else {
            assert(s@.subrange(start as int, i as int + 1) =~= s@.subrange(
                start as int,
                i as int,
            ).push(s@[i as int]));
            assert(split(prefix, sep).drop_last() =~= before);
        }
        i += 1;
    }
    assert(s@.take(n as int) =~= s@);
    let ghost before = pieces.deep_view();
    let piece = s.substring_char(start, n).to_owned();
    pieces.push(piece);
    assert(pieces.deep_view() =~= before.push(s@.subrange(start as int, n as int)));
    pieces
}

/// The pieces put one after the other, with `sep` between neighbours.
pub fn join(pieces: &Vec<String>, sep: &str) -> (r: String)
    ensures
        r@ == joined(pieces.deep_view(), sep@),
{
    let mut r = String::new();
    let mut i: usize = 0;
    let ghost all = pieces.deep_view();
    assert(all.take(0) =~= Seq::<Seq<char>>::empty());
    while i < pieces.len()
        invariant
            i <= pieces@.len(),
            all == pieces.deep_view(),
            r@ == joined(all.take(i as int), sep@),
        decreases pieces@.len() - i,
    {
        assert(all.take(i as int + 1).drop_last() =~= all.take(i as int));
        assert(all.take(i as int + 1).last() == pieces@[i as int]@);
        if i > 0 {
            r.append(sep);
        }
        r.append(pieces[i].as_str());
        proof {
            if i == 0 {
                assert(r@ =~= pieces@[0]@);
            }
        }
        i += 1;
    }
    assert(all.take(all.len() as int) =~= all);
    r
}

/// The decimal digit with a given value.
fn digit_text(d: u32) -> (r: &'static str)
    requires
        d < 10,
    ensures
        r@ == seq![digit_char(d as nat)],
{
    proof {
        reveal_strlit("0");
        reveal_strlit("1");
        reveal_strlit("2");
        reveal_strlit("3");
        reveal_strlit("4");
        reveal_strlit("5");
        reveal_strlit("6");
        reveal_strlit("7");
        reveal_strlit("8");
        reveal_strlit("9");
    }
    if d == 0 {
        "0"
    } else if d == 1 {
        "1"
    } else if d == 2 {
        "2"
    } else if d == 3 {
        "3"
    } else if d == 4 {
        "4"
    } else if d == 5 {
        "5"
    } else if d == 6 {
        "6"
    } else if d == 7 {
        "7"
    } else if d == 8 {
        "8"
    } else {
        "9"
    }
}

/// The decimal form of an unsigned number.
pub fn decimal_text(n: u32) -> (r: String)
    ensures
        r@ == decimal(n as nat),
    decreases n,
{
    if n < 10 {
        digit_text(n).to_owned()
    } else {
        let mut r = decimal_text(n / 10);
        let ghost high = r@;
        r.append(digit_text(n % 10));
        assert(r@ =~= high.push(digit_char((n % 10) as nat)));
        r
    }
}

/// The decimal form of a signed number.
pub fn decimal_int_text(n: i32) -> (r: String)
    ensures
        r@ == decimal_int(n as int),
{
    if n < 0 {
        let magnitude: u32 = (-(n as i64)) as u32;
        "-".to_owned().concat(decimal_text(magnitude).as_str())
    } else {
        decimal_text(n as u32)
    }
}

/// What follows the first occurrence of `c` in `s`.
pub fn text_after<'a>(s: &'a str, c: char) -> (r: Option<&'a str>)
    ensures
        match r {
            Some(rest) => after_first(s@, c) == Some(rest@),
            None => after_first(s@, c) is None,
        },
{
    let chars = to_chars(s);
    let n: usize = chars.len();
    let mut i: usize = 0;
    assert(s@.skip(0) =~= s@);
    while i < n
        invariant
            n == chars@.len(),
            chars@ == s@,
            i <= n,
            after_first(s@, c) == after_first(s@.skip(i as int), c),
        decreases n - i,
    {
        assert(s@.skip(i as int)[0] == s@[i as int]);
        assert(s@.skip(i as int).drop_first() =~= s@.skip(i as int + 1));
        if chars[i] == c {
            assert(s@.skip(i as int + 1) =~= s@.subrange(i as int + 1, n as int));
            return Some(s.substring_char(i + 1, n));
        }
        i += 1;
    }
    None
}

/// The number at the front of `s`.
pub fn number_at_front(s: &str) -> (r: i32)
    ensures
        r == leading_number(s@),
{
    let chars = to_chars(s);
    let n: usize = chars.len();
    let mut i: usize = 0;
    let mut value: u64 = 0;
    let ghost digits = leading_digits(s@);
    assert(s@.skip(0) =~= s@);
    assert(s@.take(0) =~= Seq::<char>::empty());
    assert(Seq::<char>::empty() + digits =~= digits);
    while i < n && digit(chars[i])
        invariant
            n == chars@.len(),
            chars@ == s@,
            i <= n,
            digits == s@.take(i as int) + leading_digits(s@.skip(i as int)),
            value <= i32::MAX ==> value == digits_value(s@.take(i as int)),
            value > i32::MAX ==> digits_value(s@.take(i as int)) > i32::MAX,
            value <= i32::MAX + 1,
        decreases n - i,
    {
        let d: u64 = (chars[i] as u32 - 48) as u64;
        let ghost rest = s@.skip(i as int);
        let ghost longer = s@.take(i as int + 1);
        assert(rest[0] == s@[i as int]);
        assert(rest.drop_first() =~= s@.skip(i as int + 1));
        assert(longer.drop_last() =~= s@.take(i as int));
        assert(longer.last() == s@[i as int]);
        assert(digits =~= longer + leading_digits(s@.skip(i as int + 1)));
        value = value * 10 + d;
        if value > 2147483647 {
            value = 2147483648;
        }
        i += 1;
    }
    assert(leading_digits(s@.skip(i as int)) =~= Seq::<char>::empty());
    assert(digits =~= s@.take(i as int));
    if value > 2147483647 {
        0
    } else {
        value as i32
    }
}

/// There is always at least one piece.
pub proof fn lemma_split_nonempty(s: Seq<char>, sep: char)
    ensures
        split(s, sep).len() >= 1,
    decreases s.len(),
{
    if s.len() > 0 {
        lemma_split_nonempty(s.drop_last(), sep);
    }
}

/// A string without separators is its only piece.
pub proof fn lemma_split_single(s: Seq<char>, sep: char)
    requires
        !s.contains(sep),
    ensures
        split(s, sep) == seq![s],
    decreases s.len(),
{
    if s.len() > 0 {
        let shorter = s.drop_last();
        assert forall|i: int| 0 <= i < shorter.len() implies shorter[i] != sep by {
            assert(s.contains(s[i]));
        }
        lemma_split_single(shorter, sep);
        assert(s.contains(s.last()));
        assert(shorter.push(s.last()) =~= s);
        assert(split(s, sep) =~= seq![s]);
    } else {
        assert(s =~= Seq::<char>::empty());
    }
}

/// A separator between two strings parts their pieces.
pub proof fn lemma_split_parts(a: Seq<char>, sep: char, b: Seq<char>)
    ensures
        split(a.push(sep) + b, sep) == split(a, sep) + split(b, sep),
    decreases b.len(),
{
    let whole = a.push(sep) + b;
    lemma_split_nonempty(b, sep);
    if b.len() == 0 {
        assert(whole =~= a.push(sep));
        assert(a.push(sep).drop_last() =~= a);
        assert(split(whole, sep) =~= split(a, sep) + split(b, sep));
    } else {
        let shorter = b.drop_last();
        lemma_split_parts(a, sep, shorter);
        lemma_split_nonempty(shorter, sep);
        assert(whole.drop_last() =~= a.push(sep) + shorter);
        assert(whole.last() == b.last());
        let before = split(a, sep) + split(shorter, sep);
        assert(before.drop_last() =~= split(a, sep) + split(shorter, sep).drop_last());
        assert(split(whole, sep) =~= split(a, sep) + split(b, sep));
    }
}

/// The decimal form of a number is made of digits, begins with one, and stands for the number.
pub proof fn lemma_decimal(n: nat)
    ensures
        decimal(n).len() >= 1,
        forall|i: int| 0 <= i < decimal(n).len() ==> is_digit(#[trigger] decimal(n)[i]),
        digits_value(decimal(n)) == n,
    decreases n,
{
    if n < 10 {
        assert(decimal(n).drop_last() =~= Seq::<char>::empty());
        assert(digits_value(decimal(n).drop_last()) == 0);
    } else {
        lemma_decimal(n / 10);
        assert(decimal(n).drop_last() =~= decimal(n / 10));
    }
}

/// A string of digits is its own run of leading digits.
pub proof fn lemma_leading_digits_all(s: Seq<char>)
    requires
        forall|i: int| 0 <= i < s.len() ==> is_digit(#[trigger] s[i]),
    ensures
        leading_digits(s) == s,
    decreases s.len(),
{
    if s.len() > 0 {
        lemma_leading_digits_all(s.drop_first());
        assert(seq![s[0]] + s.drop_first() =~= s);
    } else {
        assert(s =~= Seq::<char>::empty());
    }
}

/// Characters before the first `c` do not change what follows it.
pub proof fn lemma_after_first_skips(a: Seq<char>, c: char, b: Seq<char>)
    requires
        !a.contains(c),
    ensures
        after_first(a.push(c) + b, c) == Some(b),
    decreases a.len(),
{
    let whole = a.push(c) + b;
    if a.len() == 0 {
        assert(whole.drop_first() =~= b);
    } else {
        let shorter = a.drop_first();
        assert(a.contains(a[0]));
        assert forall|i: int| 0 <= i < shorter.len() implies shorter[i] != c by {
            assert(a.contains(a[i + 1]));
        }
        lemma_after_first_skips(shorter, c, b);
        assert(whole.drop_first() =~= shorter.push(c) + b);
    }
}

/// Letters and digits by their code points.
pub proof fn law_letters_and_digits(c: char)
    ensures
        is_letter(c) <==> 65 <= c as int <= 90 || 97 <= c as int <= 122,
        is_digit(c) <==> 48 <= c as int <= 57,
{
}

/// Splitting loses nothing: the pieces, none of which holds a separator, give back the string when
/// they are joined.
pub proof fn law_joining_undoes_splitting(s: Seq<char>, sep: char)
    ensures
        split(s, sep).len() >= 1,
        forall|i: int| 0 <= i < split(s, sep).len() ==> !(#[trigger] split(s, sep)[i]).contains(sep),
        joined(split(s, sep), seq![sep]) == s,
    decreases s.len(),
{
    let pieces = split(s, sep);
    if s.len() == 0 {
        assert(joined(pieces, seq![sep]) =~= s);
    } else {
        let shorter = s.drop_last();
        let before = split(shorter, sep);
        law_joining_undoes_splitting(shorter, sep);
        assert(s =~= shorter.push(s.last()));
        if s.last() == sep {
            assert(pieces.drop_last() =~= before);
            assert(joined(pieces, seq![sep]) =~= s);
            assert forall|i: int| 0 <= i < pieces.len() implies !(#[trigger] pieces[i]).contains(
                sep,
            ) by {
                if i < before.len() {
                    assert(pieces[i] == before[i]);
                }
            }
        } else {
            let last = before.last().push(s.last());
            assert(pieces.drop_last() =~= before.drop_last());
            assert(before.last() == before[before.len() - 1]);
            if before.len() == 1 {
                assert(joined(pieces, seq![sep]) =~= s);
            } else {
                assert(joined(pieces, seq![sep]) =~= s);
            }
            assert forall|i: int| 0 <= i < pieces.len() implies !(#[trigger] pieces[i]).contains(
                sep,
            ) by {
                if i < before.len() - 1 {
                    assert(pieces[i] == before[i]);
                } else {
                    assert(pieces[i] == last);
                    assert forall|k: int| 0 <= k < last.len() implies last[k] != sep by {
                        if k < before.last().len() {
                            assert(before.last().contains(before.last()[k]));
                        }
                    }
                }
            }
        }
    }
}

/// Joining adds one piece at a time, with a separator before every piece but the first.
pub proof fn law_joining_adds_pieces(pieces: Seq<Seq<char>>, piece: Seq<char>, sep: Seq<char>)
    ensures
        joined(Seq::empty(), sep) == Seq::<char>::empty(),
        joined(pieces.push(piece), sep) == if pieces.len() == 0 {
            piece
        } else {
            joined(pieces, sep) + sep + piece
        },
{
    assert(pieces.push(piece).drop_last() =~= pieces);
}

/// Joining loses nothing: pieces without separators are found again by splitting.
pub proof fn law_splitting_undoes_joining(pieces: Seq<Seq<char>>, sep: char)
    requires
        pieces.len() >= 1,
        forall|i: int| 0 <= i < pieces.len() ==> !(#[trigger] pieces[i]).contains(sep),
    ensures
        split(joined(pieces, seq![sep]), sep) == pieces,
    decreases pieces.len(),
{
    if pieces.len() == 1 {
        lemma_split_single(pieces[0], sep);
        assert(seq![pieces[0]] =~= pieces);
    } else {
        let shorter = pieces.drop_last();
        let front = joined(shorter, seq![sep]);
        assert forall|i: int| 0 <= i < shorter.len() implies !(#[trigger] shorter[i]).contains(
            sep,
        ) by {
            assert(shorter[i] == pieces[i]);
        }
        law_splitting_undoes_joining(shorter, sep);
        assert(pieces.last() == pieces[pieces.len() - 1]);
        lemma_split_single(pieces.last(), sep);
        assert(joined(pieces, seq![sep]) =~= front.push(sep) + pieces.last());
        lemma_split_parts(front, sep, pieces.last());
        assert(split(joined(pieces, seq![sep]), sep) =~= pieces);
    }
}

/// A number below ten is a single digit, and a further digit multiplies a number by ten.
pub proof fn law_decimal_digits(n: nat, d: nat)
    requires
        d < 10,
    ensures
        decimal(d) == seq![(48 + d) as char],
        n > 0 ==> decimal(10 * n + d) == decimal(n).push((48 + d) as char),
{
    if n > 0 {
        assert((10 * n + d) / 10 == n);
        assert((10 * n + d) % 10 == d);
    }
}

/// A negative number is written as its opposite behind a minus sign.
pub proof fn law_decimal_sign(n: nat)
    ensures
        decimal_int(n as int) == decimal(n),
        n > 0 ==> decimal_int(-n) == seq!['-'] + decimal(n),
{
    reveal_strlit("-");
    assert("-"@ =~= seq!['-']);
}

/// Digits before something that does not begin with a digit are the leading digits.
proof fn lemma_leading_digits_before(digits: Seq<char>, rest: Seq<char>)
    requires
        forall|i: int| 0 <= i < digits.len() ==> is_digit(#[trigger] digits[i]),
        rest.len() == 0 || !is_digit(rest[0]),
    ensures
        leading_digits(digits + rest) == digits,
    decreases digits.len(),
{
    let whole = digits + rest;
    if digits.len() == 0 {
        assert(whole =~= rest);
        assert(leading_digits(whole) =~= digits);
    } else {
        let shorter = digits.drop_first();
        assert(whole.drop_first() =~= shorter + rest);
        lemma_leading_digits_before(shorter, rest);
        assert(whole[0] == digits[0]);
        assert(seq![digits[0]] + shorter =~= digits);
    }
}

/// A number is read back from its decimal form, whatever follows that is no digit; one that is no
/// `i32` counts as zero, and so does a missing one.
pub proof fn law_number_is_read_back(n: nat, rest: Seq<char>)
    requires
        rest.len() == 0 || !(48 <= rest[0] as int <= 57),
    ensures
        leading_number(decimal(n) + rest) == if n <= 2147483647 {
            n as int
        } else {
            0
        },
        leading_number(rest) == 0,
{
    lemma_decimal(n);
    lemma_leading_digits_before(decimal(n), rest);
    assert(leading_digits(rest) =~= Seq::<char>::empty());
}

/// A leading zero changes no number.
pub proof fn law_leading_zero_does_not_count(s: Seq<char>)
    ensures
        leading_number(seq!['0'] + s) == leading_number(s),
{
    let whole = seq!['0'] + s;
    assert(whole.drop_first() =~= s);
    lemma_zero_in_front(leading_digits(s));
}

proof fn lemma_zero_in_front(digits: Seq<char>)
    ensures
        digits_value(seq!['0'] + digits) == digits_value(digits),
    decreases digits.len(),
{
    let whole = seq!['0'] + digits;
    if digits.len() == 0 {
        assert(whole.drop_last() =~= Seq::<char>::empty());
        assert(digits_value(whole.drop_last()) == 0);
    } else {
        assert(whole.drop_last() =~= seq!['0'] + digits.drop_last());
        lemma_zero_in_front(digits.drop_last());
    }
}

/// What follows the first occurrence of a character: the string is something without that character,
/// the character, and what follows it.
pub proof fn law_text_after_first(s: Seq<char>, c: char)
    ensures
        match after_first(s, c) {
            None => !s.contains(c),
            Some(rest) => {
                let k = s.len() - rest.len() - 1;
                &&& 0 <= k
                &&& s == s.take(k).push(c) + rest
                &&& !s.take(k).contains(c)
            },
        },
    decreases s.len(),
{
    if s.len() > 0 && s[0] != c {
        let shorter = s.drop_first();
        law_text_after_first(shorter, c);
        match after_first(s, c) {
            None => {
                assert forall|i: int| 0 <= i < s.len() implies s[i] != c by {
                    if i > 0 {
                        assert(shorter.contains(shorter[i - 1]));
                    }
                }
            },
            Some(rest) => {
                let k = s.len() - rest.len() - 1;
                assert(shorter =~= s.skip(1));
                assert forall|i: int| 0 <= i < s.len() implies s[i] == (s.take(k).push(c) + rest)[i] by {
                    if i > 0 {
                        assert(s[i] == shorter[i - 1]);
                    }
                }
                assert(s =~= s.take(k).push(c) + rest);
                assert forall|i: int| 0 <= i < k implies s.take(k)[i] != c by {
                    if i > 0 {
                        assert(shorter.take(k - 1).contains(shorter.take(k - 1)[i - 1]));
                    }
                }
            },
        }
    } else if s.len() > 0 {
        assert(s =~= s.take(0).push(c) + s.drop_first());
    }
}

} // verus!
