//! Laws of texts.

use crate::text::{
    all_digits, decimal, decimal_injective, decimal_round_trip, digit_value, digits_value, is_digit,
    joined, last_line_trimmed, parsed_u64, pieces, signed_decimal, split_once_at, trimmed,
    trimmed_end, trimmed_start, unsigned_digits, views, white_space,
};
use vstd::arithmetic::power::{lemma_pow0, pow};
use vstd::prelude::*;

verus! {

/// Whether a text begins with another.
pub open spec fn begins_with(whole: Seq<char>, start: Seq<char>) -> bool {
    start.len() <= whole.len() && whole.take(start.len() as int) == start
}

/// Whether a text ends with another.
pub open spec fn ends_with(whole: Seq<char>, end: Seq<char>) -> bool {
    end.len() <= whole.len() && whole.skip(whole.len() - end.len()) == end
}

/// Whether a sequence stands in another as it is.
pub open spec fn part_of<T>(part: Seq<T>, whole: Seq<T>) -> bool {
    exists|before: Seq<T>, after: Seq<T>| whole == #[trigger] (before + part + after)
}

/// What stands between two sequences is part of the whole.
pub proof fn part_between<T>(before: Seq<T>, part: Seq<T>, after: Seq<T>)
    ensures
        part_of(part, before + part + after),
{
}

/// A part of a part is part of the whole.
pub proof fn part_of_part<T>(part: Seq<T>, middle: Seq<T>, whole: Seq<T>)
    requires
        part_of(part, middle),
        part_of(middle, whole),
    ensures
        part_of(part, whole),
{
    let (a, b) = choose|a: Seq<T>, b: Seq<T>| middle == #[trigger] (a + part + b);
    let (c, d) = choose|c: Seq<T>, d: Seq<T>| whole == #[trigger] (c + middle + d);
    assert(whole == (c + a) + part + (b + d));
}

/// The views of strings are those of each string, all of them and in order.
pub proof fn views_one_by_one(parts: Seq<String>)
    ensures
        views(parts).len() == parts.len(),
        forall|i: int| 0 <= i < parts.len() ==> #[trigger] views(parts)[i] == parts[i]@,
{
}

/// Joining nothing gives nothing, and one text joined is that text.
pub proof fn joined_few(text: Seq<char>, sep: Seq<char>)
    ensures
        joined(Seq::empty(), sep) == Seq::<char>::empty(),
        joined(seq![text], sep) == text,
{
    reveal_with_fuel(joined, 2);
    assert(seq![text].drop_last() == Seq::<Seq<char>>::empty());
}

/// A text has one piece more than it has separators.
pub proof fn pieces_by_separators(s: Seq<char>, sep: char)
    ensures
        pieces(s, sep).len() == s.filter(|c: char| c == sep).len() + 1,
    decreases s.len(),
{
    reveal(Seq::filter);
    if s.len() > 0 {
        pieces_by_separators(s.drop_last(), sep);
    }
}

// ---------------------------------------------------------------------------
// Numbers
// ---------------------------------------------------------------------------

/// A decimal text has no zero in front, unless it is that of zero.
pub proof fn decimal_without_leading_zero(n: nat)
    ensures
        n > 0 ==> decimal(n)[0] != '0',
        n == 0 ==> decimal(n) == seq!['0'],
    decreases n,
{
    if n >= 10 {
        decimal_without_leading_zero(n / 10);
        decimal_round_trip(n / 10);
    }
}

/// Each digit stands for its place in the row of digits.
pub proof fn digits_stand_for_themselves()
    ensures
        digits_value(seq!['0']) == 0 && digits_value(seq!['1']) == 1 && digits_value(seq!['2']) == 2,
        digits_value(seq!['3']) == 3 && digits_value(seq!['4']) == 4 && digits_value(seq!['5']) == 5,
        digits_value(seq!['6']) == 6 && digits_value(seq!['7']) == 7 && digits_value(seq!['8']) == 8,
        digits_value(seq!['9']) == 9,
{
    assert forall|c: char| is_digit(c) implies #[trigger] digits_value(seq![c]) == digit_value(c) by {
        assert(seq![c].drop_last() == Seq::<char>::empty());
        reveal_with_fuel(digits_value, 2);
    }
    assert(is_digit('0') && is_digit('1') && is_digit('2') && is_digit('3') && is_digit('4'));
    assert(is_digit('5') && is_digit('6') && is_digit('7') && is_digit('8') && is_digit('9'));
}

/// Digits count by their place: those in front of others count ten times as
/// much for each that follows.
pub proof fn digits_count_by_place(a: Seq<char>, b: Seq<char>)
    ensures
        digits_value(a + b) == digits_value(a) * pow(10, b.len()) + digits_value(b),
    decreases b.len(),
{
    if b.len() == 0 {
        lemma_pow0(10);
        assert(a + b == a);
    } else {
        let front = b.drop_last();
        digits_count_by_place(a, front);
        assert((a + b).drop_last() == a + front);
        assert((a + b).last() == b.last());
        vstd::arithmetic::power::lemma_pow_adds(10, front.len(), 1);
        vstd::arithmetic::power::lemma_pow1(10);
        assert(pow(10, b.len()) == pow(10, front.len()) * 10);
        let (x, p, y) = (digits_value(a) as int, pow(10, front.len()), digits_value(front) as int);
        assert((x * p + y) * 10 == x * (p * 10) + y * 10) by (nonlinear_arith);
    }
}

/// What is read as a number is digits behind a plus sign at most, and any such
/// text of a number that fits is read as that number.
pub proof fn numbers_read(s: Seq<char>)
    ensures
        parsed_u64(s) is Some ==> s.len() > 0 && is_digit(s.last()) && forall|i: int|
            0 < i < s.len() ==> is_digit(#[trigger] s[i]),
        parsed_u64(s) is Some ==> is_digit(s[0]) || s[0] == '+',
        s.len() > 0 && all_digits(s) && digits_value(s) <= u64::MAX ==> parsed_u64(s) == Some(
            digits_value(s) as u64,
        ) && parsed_u64(seq!['+'] + s) == Some(digits_value(s) as u64),
        s.len() > 0 && all_digits(s) && digits_value(s) > u64::MAX ==> parsed_u64(s) is None,
{
    assert((seq!['+'] + s).skip(1) == s);
    if s.len() > 0 && all_digits(s) {
        assert(is_digit(s[0]));
    }
    if parsed_u64(s) is Some {
        let digits = unsigned_digits(s);
        assert(is_digit(digits[digits.len() - 1]));
        assert forall|i: int| 0 < i < s.len() implies is_digit(#[trigger] s[i]) by {
            if s[0] == '+' {
                assert(digits[i - 1] == s[i]);
            } else {
                assert(digits[i] == s[i]);
            }
        }
        if s[0] != '+' {
            assert(is_digit(digits[0]));
        }
    }
}

/// A negative number is written as its opposite behind a minus sign, which no
/// other number has; different numbers are written differently.
pub proof fn signed_numbers(i: int, j: int)
    ensures
        i > 0 ==> signed_decimal(-i) == seq!['-'] + signed_decimal(i),
        i >= 0 ==> signed_decimal(i) == decimal(i as nat) && signed_decimal(i)[0] != '-',
        signed_decimal(i) == signed_decimal(j) ==> i == j,
{
    if i >= 0 {
        decimal_round_trip(i as nat);
        assert(is_digit(decimal(i as nat)[0]));
    }
    if j >= 0 {
        decimal_round_trip(j as nat);
        assert(is_digit(decimal(j as nat)[0]));
    }
    if signed_decimal(i) == signed_decimal(j) {
        if i < 0 && j < 0 {
            assert(signed_decimal(i).skip(1) == decimal((-i) as nat));
            assert(signed_decimal(j).skip(1) == decimal((-j) as nat));
            decimal_injective((-i) as nat, (-j) as nat);
        } else if i >= 0 && j >= 0 {
            decimal_injective(i as nat, j as nat);
        } else if i < 0 {
            assert(signed_decimal(i)[0] == '-');
        } else {
            assert(signed_decimal(j)[0] == '-');
        }
    }
}

// ---------------------------------------------------------------------------
// Trimming
// ---------------------------------------------------------------------------

/// Whether a text is white space throughout.
pub open spec fn blank(s: Seq<char>) -> bool {
    forall|i: int| 0 <= i < s.len() ==> white_space(#[trigger] s[i])
}

proof fn start_trimmed(s: Seq<char>)
    ensures
        exists|a: Seq<char>| #[trigger] blank(a) && s == a + trimmed_start(s),
        trimmed_start(s).len() > 0 ==> !white_space(trimmed_start(s)[0]),
    decreases s.len(),
{
    if s.len() > 0 && white_space(s[0]) {
        start_trimmed(s.drop_first());
        let a = choose|a: Seq<char>| #[trigger] blank(a) && s.drop_first() == a + trimmed_start(
            s.drop_first(),
        );
        let longer = seq![s[0]] + a;
        assert(blank(longer)) by {
            assert forall|i: int| 0 <= i < longer.len() implies white_space(
                #[trigger] longer[i],
            ) by {
                if i > 0 {
                    assert(longer[i] == a[i - 1]);
                }
            }
        }
        assert(s == seq![s[0]] + s.drop_first());
        assert(seq![s[0]] + (a + trimmed_start(s)) == longer + trimmed_start(s));
    } else {
        let nothing = Seq::<char>::empty();
        assert(blank(nothing));
        assert(s == nothing + trimmed_start(s));
    }
}

proof fn end_trimmed(s: Seq<char>)
    ensures
        exists|b: Seq<char>| #[trigger] blank(b) && s == trimmed_end(s) + b,
        trimmed_end(s).len() > 0 ==> !white_space(trimmed_end(s).last()),
        trimmed_end(s).len() > 0 ==> trimmed_end(s)[0] == s[0],
    decreases s.len(),
{
    if s.len() > 0 && white_space(s.last()) {
        end_trimmed(s.drop_last());
        let b = choose|b: Seq<char>| #[trigger] blank(b) && s.drop_last() == trimmed_end(
            s.drop_last(),
        ) + b;
        let longer = b.push(s.last());
        assert(blank(longer)) by {
            assert forall|i: int| 0 <= i < longer.len() implies white_space(
                #[trigger] longer[i],
            ) by {
                if i < b.len() {
                    assert(longer[i] == b[i]);
                }
            }
        }
        assert(s == s.drop_last().push(s.last()));
        assert((trimmed_end(s) + b).push(s.last()) == trimmed_end(s) + longer);
    } else {
        let nothing = Seq::<char>::empty();
        assert(blank(nothing));
        assert(s == trimmed_end(s) + nothing);
    }
}

/// Trimming takes white space from either end, all of it and nothing else.
pub proof fn trimmed_of_white_space(s: Seq<char>)
    ensures
        exists|a: Seq<char>, b: Seq<char>| #[trigger]
            blank(a) && #[trigger] blank(b) && s == a + trimmed(s) + b,
        trimmed(s).len() > 0 ==> !white_space(trimmed(s)[0]) && !white_space(trimmed(s).last()),
        trimmed(s).len() == 0 <==> blank(s),
{
    start_trimmed(s);
    let rest = trimmed_start(s);
    end_trimmed(rest);
    let a = choose|a: Seq<char>| #[trigger] blank(a) && s == a + rest;
    let b = choose|b: Seq<char>| #[trigger] blank(b) && rest == trimmed_end(rest) + b;
    assert(s == a + trimmed(s) + b);
    assert(blank(a) && blank(b));
    if trimmed(s).len() == 0 {
        assert forall|i: int| 0 <= i < s.len() implies white_space(#[trigger] s[i]) by {
            if i < a.len() {
                assert(s[i] == a[i]);
            } else {
                assert(s[i] == b[i - a.len()]);
            }
        }
    } else {
        assert(s[a.len() as int] == trimmed(s)[0]);
    }
}

/// The last line that is not blank is found, trimmed: the lines after it are
/// blank, and where all are there is none.
pub proof fn last_line_that_is_not_blank(lines: Seq<Seq<char>>)
    ensures
        match last_line_trimmed(lines) {
            Some(found) => exists|i: int|
                0 <= i < lines.len() && !blank(#[trigger] lines[i]) && found == trimmed(lines[i])
                    && forall|j: int| i < j < lines.len() ==> blank(#[trigger] lines[j]),
            None => forall|j: int| 0 <= j < lines.len() ==> blank(#[trigger] lines[j]),
        },
    decreases lines.len(),
{
    if lines.len() > 0 {
        trimmed_of_white_space(lines.last());
        let front = lines.drop_last();
        let last = lines.len() - 1;
        if trimmed(lines.last()).len() > 0 {
            assert(!blank(lines[last]));
        } else {
            last_line_that_is_not_blank(front);
            assert(blank(lines[last]));
            match last_line_trimmed(front) {
                Some(found) => {
                    let i = choose|i: int|
                        0 <= i < front.len() && !blank(#[trigger] front[i]) && found == trimmed(
                            front[i],
                        ) && forall|j: int| i < j < front.len() ==> blank(#[trigger] front[j]);
                    assert(lines[i] == front[i]);
                    assert forall|j: int| i < j < lines.len() implies blank(
                        #[trigger] lines[j],
                    ) by {
                        if j < last {
                            assert(blank(front[j]));
                        }
                    }
                },
                None => {
                    assert forall|j: int| 0 <= j < lines.len() implies blank(
                        #[trigger] lines[j],
                    ) by {
                        if j < last {
                            assert(blank(front[j]));
                        }
                    }
                },
            }
        }
    }
}

/// A text is split at the first place of a pattern: the two sides with the
/// pattern between them are the text, and no earlier place has the pattern.
pub proof fn split_at_first_place(
    s: Seq<char>,
    pattern: Seq<char>,
    before: Seq<char>,
    after: Seq<char>,
)
    requires
        split_once_at(s, pattern, before, after),
    ensures
        s == before + pattern + after,
        forall|j: int|
            0 <= j < before.len() && j + pattern.len() <= s.len() ==> #[trigger] s.subrange(
                j,
                j + pattern.len(),
            ) != pattern,
{
    assert forall|j: int| 0 <= j < before.len() && j + pattern.len() <= s.len() implies #[trigger] s.subrange(
        j,
        j + pattern.len(),
    ) != pattern by {
        assert(!crate::text::occurs_at(s, pattern, j));
    }
}

} // verus!
