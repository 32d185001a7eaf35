//! Text as sequences of characters: decimal numbers, lines, trimming, joining
//! and splitting.

use vstd::prelude::*;

verus! {

/// `String::push` appends the character to the end of the string.
pub assume_specification[ String::push ](s: &mut String, c: char)
    ensures
        final(s)@ == old(s)@.push(c),
;

// ---------------------------------------------------------------------------
// Characters
// ---------------------------------------------------------------------------

/// The characters with the Unicode property `White_Space`.
pub open spec fn white_space(c: char) -> bool {
    ||| '\u{9}' <= c <= '\u{d}'
    ||| c == ' '
    ||| c == '\u{85}'
    ||| c == '\u{a0}'
    ||| c == '\u{1680}'
    ||| '\u{2000}' <= c <= '\u{200a}'
    ||| c == '\u{2028}'
    ||| c == '\u{2029}'
    ||| c == '\u{202f}'
    ||| c == '\u{205f}'
    ||| c == '\u{3000}'
}

/// The decimal digit of `d`.
pub open spec fn digit(d: nat) -> char
    recommends
        d < 10,
{
    (48 + d) as char
}

pub open spec fn is_digit(c: char) -> bool {
    '0' <= c <= '9'
}

/// What a decimal digit stands for.
pub open spec fn digit_value(c: char) -> nat
    recommends
        is_digit(c),
{
    (c as u32 - 48) as nat
}

/// Whether `c` has the Unicode property `White_Space`.
pub fn is_white_space(c: char) -> (r: bool)
    ensures
        r == white_space(c),
{
    ('\u{9}' <= c && c <= '\u{d}') || c == ' ' || c == '\u{85}' || c == '\u{a0}' || c == '\u{1680}'
        || ('\u{2000}' <= c && c <= '\u{200a}') || c == '\u{2028}' || c == '\u{2029}' || c
        == '\u{202f}' || c == '\u{205f}' || c == '\u{3000}'
}

/// The characters of a string, in order.
pub fn chars_of(s: &str) -> (r: Vec<char>)
    ensures
        r@ == s@,
{
    let mut r: Vec<char> = Vec::new();
    for c in it: s.chars()
        invariant
            it.seq() == s@,
            r@ == s@.take(it.index()),
    {
        r.push(c);
    }
    assert(s@.take(s@.len() as int) == s@);
    r
}

/// The string made of the characters `from` to `to` (excluded).
pub fn text_of(chars: &Vec<char>, from: usize, to: usize) -> (r: String)
    requires
        from <= to <= chars@.len(),
    ensures
        r@ == chars@.subrange(from as int, to as int),
{
    let mut r = String::new();
    for i in from..to
        invariant
            from <= i <= to <= chars@.len(),
            r@ == chars@.subrange(from as int, i as int),
    {
        r.push(chars[i]);
    }
    r
}

/// Whether two texts hold the same characters.
pub fn same_text(a: &str, b: &str) -> (r: bool)
    ensures
        r == (a@ == b@),
{
    a.to_owned() == b.to_owned()
}

/// A message followed by its cause.
pub fn with_cause(prefix: &str, cause: &str) -> (r: String)
    ensures
        r@ == prefix@ + cause@,
{
    let mut r = prefix.to_owned();
    r.append(cause);
    r
}

// ---------------------------------------------------------------------------
// Decimal numbers
// ---------------------------------------------------------------------------

/// `n` in decimal, without leading zeros.
pub open spec fn decimal(n: nat) -> Seq<char>
    decreases n,
{
    if n < 10 {
        seq![digit(n)]
    } else {
        decimal(n / 10).push(digit(n % 10))
    }
}

/// `i` in decimal, with a minus sign where it is negative.
pub open spec fn signed_decimal(i: int) -> Seq<char> {
    if i < 0 {
        seq!['-'] + decimal((-i) as nat)
    } else {
        decimal(i as nat)
    }
}

pub open spec fn all_digits(s: Seq<char>) -> bool {
    forall|i: int| 0 <= i < s.len() ==> is_digit(#[trigger] s[i])
}

/// The number that a sequence of decimal digits stands for.
pub open spec fn digits_value(s: Seq<char>) -> nat
    decreases s.len(),
{
    if s.len() == 0 {
        0
    } else {
        digits_value(s.drop_last()) * 10 + digit_value(s.last())
    }
}

/// The digits of an unsigned number that may carry a plus sign.
pub open spec fn unsigned_digits(s: Seq<char>) -> Seq<char> {
    if s.len() > 0 && s[0] == '+' {
        s.skip(1)
    } else {
        s
    }
}

/// The `u64` that a text stands for: an optional plus sign, then decimal
/// digits only, at least one, of a number that fits.
pub open spec fn parsed_u64(s: Seq<char>) -> Option<u64> {
    let digits = unsigned_digits(s);
    if digits.len() > 0 && all_digits(digits) && digits_value(digits) <= u64::MAX {
        Some(digits_value(digits) as u64)
    } else {
        None
    }
}

/// Reading back a number written in decimal gives the number.
pub proof fn decimal_round_trip(n: nat)
    ensures
        decimal(n).len() > 0,
        all_digits(decimal(n)),
        digits_value(decimal(n)) == n,
    decreases n,
{
    if n < 10 {
        assert(decimal(n).drop_last() == Seq::<char>::empty());
        reveal_with_fuel(digits_value, 2);
    } else {
        decimal_round_trip(n / 10);
        assert(decimal(n).drop_last() == decimal(n / 10));
        assert(decimal(n).last() == digit(n % 10));
    }
}

/// Two numbers with the same decimal text are the same number.
pub proof fn decimal_injective(a: nat, b: nat)
    requires
        decimal(a) == decimal(b),
    ensures
        a == b,
{
    decimal_round_trip(a);
    decimal_round_trip(b);
}

/// A number written in decimal is read back as that number.
pub proof fn decimal_parses(n: u64)
    ensures
        parsed_u64(decimal(n as nat)) == Some(n),
{
    decimal_round_trip(n as nat);
    assert(is_digit(decimal(n as nat)[0]));
}

/// The value of more digits is at least the value of a prefix.
proof fn digits_value_monotone(s: Seq<char>, i: int)
    requires
        0 <= i <= s.len(),
    ensures
        digits_value(s.take(i)) <= digits_value(s),
    decreases s.len(),
{
    if i == s.len() {
        assert(s.take(i) == s);
    } else {
        digits_value_monotone(s.drop_last(), i);
        assert(s.drop_last().take(i) == s.take(i));
    }
}

/// `n` in decimal.
pub fn decimal_text(n: u64) -> (r: String)
    ensures
        r@ == decimal(n as nat),
    decreases n,
{
    let mut r = if n < 10 {
        String::new()
    } else {
        decimal_text(n / 10)
    };
    let d: u8 = (n % 10) as u8;
    r.push((48 + d) as char);
    proof {
        let c = (48 + d) as char;
        assert(c == digit((n % 10) as nat));
        if n < 10 {
            assert(r@ == seq![digit(n as nat)]);
        }
    }
    r
}

/// `i` in decimal.
pub fn signed_decimal_text(i: i32) -> (r: String)
    ensures
        r@ == signed_decimal(i as int),
{
    let wide: i64 = i as i64;
    if wide < 0 {
        let mut r = String::new();
        r.push('-');
        let digits = decimal_text((-wide) as u64);
        r.append(digits.as_str());
        assert(r@ == seq!['-'] + decimal((-(i as int)) as nat));
        r
    } else {
        decimal_text(wide as u64)
    }
}

/// The `u64` that a text stands for, if it does.
pub fn parse_u64(s: &str) -> (r: Option<u64>)
    ensures
        r == parsed_u64(s@),
{
    let chars = chars_of(s);
    let start: usize = if chars.len() > 0 && chars[0] == '+' {
        1
    } else {
        0
    };
    let ghost digits = unsigned_digits(s@);
    assert(digits == s@.skip(start as int));
    if start == chars.len() {
        return None;
    }
    let mut value: u64 = 0;
    let mut i: usize = start;
    while i < chars.len()
        invariant
            start <= i <= chars@.len(),
            chars@ == s@,
            digits == unsigned_digits(s@),
            digits == s@.skip(start as int),
            all_digits(digits.take(i - start)),
            digits_value(digits.take(i - start)) == value,
        decreases chars@.len() - i,
    {
        let c = chars[i];
        let ghost k = i - start;
        assert(digits[k] == c);
        if c < '0' || c > '9' {
            assert(!is_digit(digits[k]));
            return None;
        }
        let d: u64 = c as u64 - 48;
        proof {
            assert(digits.take(k + 1).drop_last() == digits.take(k));
            assert(digits.take(k + 1).last() == c);
            assert forall|j: int| 0 <= j < k + 1 implies is_digit(#[trigger] digits.take(k + 1)[j]) by {
                if j < k {
                    assert(is_digit(digits.take(k)[j]));
                }
            }
            digits_value_monotone(digits, k + 1);
        }
        if value > (u64::MAX - d) / 10 {
            return None;
        }
        value = value * 10 + d;
        i = i + 1;
    }
    assert(digits.take(digits.len() as int) == digits);
    Some(value)
}

// ---------------------------------------------------------------------------
// Pieces and lines
// ---------------------------------------------------------------------------

/// The pieces of a text between the separators: always at least one, and a
/// separator at either end leaves an empty piece there.
pub open spec fn pieces(s: Seq<char>, sep: char) -> Seq<Seq<char>>
    decreases s.len(),
{
    if s.len() == 0 {
        seq![Seq::empty()]
    } else {
        let before = pieces(s.drop_last(), sep);
        if s.last() == sep {
            before.push(Seq::empty())
        } else {
            before.drop_last().push(before.last().push(s.last()))
        }
    }
}

/// The parts one after the other, with the separator between each two.
pub open spec fn joined(parts: Seq<Seq<char>>, sep: Seq<char>) -> Seq<char>
    decreases parts.len(),
{
    if parts.len() == 0 {
        Seq::empty()
    } else {
        let gap = if parts.len() == 1 {
            Seq::empty()
        } else {
            sep
        };
        joined(parts.drop_last(), sep) + gap + parts.last()
    }
}

/// The characters of each string.
pub open spec fn views(parts: Seq<String>) -> Seq<Seq<char>> {
    parts.map_values(|p: String| p@)
}

/// A text is split where the separators are and nowhere else: no piece holds a
/// separator, and the pieces joined by it are the text.
pub proof fn pieces_join(s: Seq<char>, sep: char)
    ensures
        pieces(s, sep).len() > 0,
        forall|i: int| 0 <= i < pieces(s, sep).len() ==> !#[trigger] pieces(s, sep)[i].contains(sep),
        joined(pieces(s, sep), seq![sep]) == s,
    decreases s.len(),
{
    let whole = pieces(s, sep);
    if s.len() == 0 {
        assert(whole.drop_last() == Seq::<Seq<char>>::empty());
        assert(joined(whole, seq![sep]) == s) by {
            reveal_with_fuel(joined, 2);
        }
    } else {
        let before = pieces(s.drop_last(), sep);
        pieces_join(s.drop_last(), sep);
        let last = s.last();
        assert(s == s.drop_last().push(last));
        if last == sep {
            assert(whole.drop_last() == before);
            assert(joined(whole, seq![sep]) == s.drop_last() + seq![sep] + Seq::<char>::empty());
        } else {
            assert(whole.drop_last() == before.drop_last());
            assert(whole.last() == before.last().push(last));
            assert(!whole.last().contains(sep)) by {
                if whole.last().contains(sep) {
                    let k = whole.last().index_of(sep);
                    assert(before.last()[k] == sep);
                    assert(before[before.len() - 1].contains(sep));
                }
            }
            assert forall|i: int| 0 <= i < whole.len() implies !#[trigger] whole[i].contains(sep) by {
                if i < before.len() - 1 {
                    assert(whole[i] == before[i]);
                }
            }
        }
    }
}

/// Two runs of parts joined are the parts joined, with the separator between
/// the runs.
pub proof fn joined_concat(a: Seq<Seq<char>>, b: Seq<Seq<char>>, sep: Seq<char>)
    requires
        a.len() > 0,
        b.len() > 0,
    ensures
        joined(a + b, sep) == joined(a, sep) + sep + joined(b, sep),
    decreases b.len(),
{
    let whole = a + b;
    assert(whole.drop_last() == a + b.drop_last());
    assert(whole.last() == b.last());
    if b.len() == 1 {
        assert(a + b.drop_last() == a);
        assert(joined(b.drop_last(), sep) == Seq::<char>::empty());
        assert(joined(b, sep) == b.last());
    } else {
        joined_concat(a, b.drop_last(), sep);
        assert(joined(whole, sep) == joined(a, sep) + sep + joined(b, sep));
    }
}

/// The pieces of a text with more text after it that holds no separator.
proof fn pieces_append(s: Seq<char>, more: Seq<char>, sep: char)
    requires
        !more.contains(sep),
    ensures
        pieces(s, sep).len() > 0,
        pieces(s + more, sep) == pieces(s, sep).drop_last().push(pieces(s, sep).last() + more),
    decreases more.len(),
{
    pieces_join(s, sep);
    let start = pieces(s, sep);
    if more.len() == 0 {
        assert(s + more == s);
        assert(start.last() + more == start.last());
        assert(start.drop_last().push(start.last()) == start);
    } else {
        let shorter = more.drop_last();
        assert(!shorter.contains(sep)) by {
            if shorter.contains(sep) {
                let k = shorter.index_of(sep);
                assert(more[k] == sep);
            }
        }
        pieces_append(s, shorter, sep);
        assert((s + more).drop_last() == s + shorter);
        assert((s + more).last() == more.last());
        assert(more[more.len() - 1] == more.last());
        let before = pieces(s + shorter, sep);
        assert(before.drop_last() == start.drop_last());
        assert(before.last().push(more.last()) == start.last() + more);
    }
}

/// More text after a text leaves all its pieces but the last as they are.
pub proof fn pieces_prefix(s: Seq<char>, more: Seq<char>, sep: char)
    ensures
        pieces(s + more, sep).len() >= pieces(s, sep).len(),
        forall|i: int|
            0 <= i < pieces(s, sep).len() - 1 ==> #[trigger] pieces(s + more, sep)[i] == pieces(
                s,
                sep,
            )[i],
    decreases more.len(),
{
    pieces_join(s, sep);
    if more.len() == 0 {
        assert(s + more == s);
    } else {
        let shorter = more.drop_last();
        pieces_prefix(s, shorter, sep);
        assert((s + more).drop_last() == s + shorter);
        let before = pieces(s + shorter, sep);
        let whole = pieces(s + more, sep);
        assert forall|i: int| 0 <= i < pieces(s, sep).len() - 1 implies #[trigger] whole[i]
            == pieces(s, sep)[i] by {
            assert(whole[i] == before[i]);
        }
    }
}

/// Parts that hold no separator are the pieces of what they are joined to.
pub proof fn pieces_of_joined(parts: Seq<Seq<char>>, sep: char)
    requires
        parts.len() > 0,
        forall|i: int| 0 <= i < parts.len() ==> !#[trigger] parts[i].contains(sep),
    ensures
        pieces(joined(parts, seq![sep]), sep) == parts,
    decreases parts.len(),
{
    let last = parts.last();
    assert(!parts[parts.len() - 1].contains(sep));
    if parts.len() == 1 {
        let nothing = Seq::<char>::empty();
        assert(joined(parts.drop_last(), seq![sep]) == nothing);
        assert(joined(parts, seq![sep]) == nothing + last);
        pieces_append(nothing, last, sep);
        assert(nothing + last == last);
        assert(pieces(nothing, sep) == seq![nothing]);
        assert(pieces(last, sep) == parts);
    } else {
        let front = parts.drop_last();
        assert forall|i: int| 0 <= i < front.len() implies !#[trigger] front[i].contains(sep) by {
            assert(front[i] == parts[i]);
        }
        pieces_of_joined(front, sep);
        let text = joined(front, seq![sep]) + seq![sep];
        assert(text.drop_last() == joined(front, seq![sep]));
        assert(pieces(text, sep) == front.push(Seq::empty()));
        pieces_append(text, last, sep);
        assert(front.push(Seq::empty()).drop_last() == front);
        assert(Seq::<char>::empty() + last == last);
        assert(front.push(last) == parts);
    }
}

/// The pieces of a text between the separators.
pub fn split_text(s: &str, sep: char) -> (r: Vec<String>)
    ensures
        views(r@) == pieces(s@, sep),
{
    let mut done: Vec<String> = Vec::new();
    let mut current = String::new();
    let ghost empty = s@.take(0);
    assert(empty == Seq::<char>::empty());
    assert(views(done@).push(current@) == pieces(s@.take(0), sep));
    for c in it: s.chars()
        invariant
            it.seq() == s@,
            views(done@).push(current@) == pieces(s@.take(it.index()), sep),
    {
        let ghost k = it.index();
        let ghost held = views(done@);
        proof {
            assert(s@.take(k + 1).drop_last() == s@.take(k));
            assert(s@.take(k + 1).last() == c);
            assert(held.push(current@).drop_last() == held);
        }
        if c == sep {
            let ghost text = current@;
            done.push(current);
            current = String::new();
            assert(views(done@) == held.push(text));
        } else {
            current.push(c);
        }
    }
    assert(s@.take(s@.len() as int) == s@);
    let ghost held = views(done@);
    let ghost text = current@;
    done.push(current);
    assert(views(done@) == held.push(text));
    done
}

/// The strings from `from` on, joined by the separator.
pub fn join_from(parts: &Vec<String>, from: usize, sep: &str) -> (r: String)
    requires
        from <= parts@.len(),
    ensures
        r@ == joined(views(parts@).skip(from as int), sep@),
{
    let mut r = String::new();
    let ghost all = views(parts@).skip(from as int);
    for i in from..parts.len()
        invariant
            from <= i <= parts@.len(),
            all == views(parts@).skip(from as int),
            r@ == joined(all.take(i - from), sep@),
    {
        let ghost k = i - from;
        if i > from {
            r.append(sep);
        }
        r.append(parts[i].as_str());
        proof {
            let grown = all.take(k + 1);
            assert(grown.drop_last() == all.take(k));
            assert(grown.last() == parts@[i as int]@);
            if k == 0 {
                assert(joined(all.take(0), sep@) == Seq::<char>::empty());
                assert(r@ == joined(grown, sep@));
            }
        }
    }
    assert(all.take(all.len() as int) == all);
    r
}

/// The strings joined by the separator.
pub fn join_text(parts: &Vec<String>, sep: &str) -> (r: String)
    ensures
        r@ == joined(views(parts@), sep@),
{
    assert(views(parts@).skip(0) == views(parts@));
    join_from(parts, 0, sep)
}

// ---------------------------------------------------------------------------
// Trimming
// ---------------------------------------------------------------------------

/// The text from its first character on that is not white space.
pub open spec fn trimmed_start(s: Seq<char>) -> Seq<char>
    decreases s.len(),
{
    if s.len() > 0 && white_space(s[0]) {
        trimmed_start(s.drop_first())
    } else {
        s
    }
}

/// The text up to its last character that is not white space.
pub open spec fn trimmed_end(s: Seq<char>) -> Seq<char>
    decreases s.len(),
{
    if s.len() > 0 && white_space(s.last()) {
        trimmed_end(s.drop_last())
    } else {
        s
    }
}

/// The text without the white space at either end.
pub open spec fn trimmed(s: Seq<char>) -> Seq<char> {
    trimmed_end(trimmed_start(s))
}

/// The last of the lines that holds more than white space, trimmed.
pub open spec fn last_line_trimmed(lines: Seq<Seq<char>>) -> Option<Seq<char>>
    decreases lines.len(),
{
    if lines.len() == 0 {
        None
    } else if trimmed(lines.last()).len() > 0 {
        Some(trimmed(lines.last()))
    } else {
        last_line_trimmed(lines.drop_last())
    }
}

/// The text without the white space at either end.
pub fn trim_text(s: &str) -> (r: String)
    ensures
        r@ == trimmed(s@),
{
    let chars = chars_of(s);
    let mut start: usize = 0;
    assert(s@.skip(0) == s@);
    while start < chars.len() && is_white_space(chars[start])
        invariant
            start <= chars@.len(),
            chars@ == s@,
            trimmed_start(s@) == trimmed_start(s@.skip(start as int)),
        decreases chars@.len() - start,
    {
        assert(s@.skip(start as int).drop_first() == s@.skip(start + 1));
        start = start + 1;
    }
    let ghost rest = s@.skip(start as int);
    assert(trimmed_start(s@) == rest);
    let mut end: usize = chars.len();
    assert(s@.subrange(start as int, end as int) == rest);
    while end > start && is_white_space(chars[end - 1])
        invariant
            start <= end <= chars@.len(),
            chars@ == s@,
            trimmed_end(rest) == trimmed_end(s@.subrange(start as int, end as int)),
        decreases end,
    {
        assert(s@.subrange(start as int, end as int).drop_last() == s@.subrange(
            start as int,
            end - 1,
        ));
        end = end - 1;
    }
    text_of(&chars, start, end)
}

/// The last line that holds more than white space, trimmed.
pub fn last_line(text: &str) -> (r: Option<String>)
    ensures
        r is Some <==> last_line_trimmed(pieces(text@, '\n')) is Some,
        r matches Some(line) ==> last_line_trimmed(pieces(text@, '\n')) == Some(line@),
{
    let lines = split_text(text, '\n');
    let ghost all = pieces(text@, '\n');
    let mut n: usize = lines.len();
    assert(all.take(n as int) == all);
    while n > 0
        invariant
            n <= lines@.len(),
            views(lines@) == all,
            all == pieces(text@, '\n'),
            last_line_trimmed(all) == last_line_trimmed(all.take(n as int)),
        decreases n,
    {
        let line = trim_text(lines[n - 1].as_str());
        assert(all.take(n as int).last() == lines@[n - 1]@);
        assert(all.take(n as int).drop_last() == all.take(n - 1));
        if !line.as_str().is_empty() {
            return Some(line);
        }
        n = n - 1;
    }
    None
}

// ---------------------------------------------------------------------------
// Splitting once
// ---------------------------------------------------------------------------

/// Whether the pattern stands in the text at `i`.
pub open spec fn occurs_at(s: Seq<char>, pattern: Seq<char>, i: int) -> bool {
    0 <= i && i + pattern.len() <= s.len() && s.subrange(i, i + pattern.len()) == pattern
}

/// Whether `i` is the first place where the pattern stands.
pub open spec fn first_at(s: Seq<char>, pattern: Seq<char>, i: int) -> bool {
    occurs_at(s, pattern, i) && forall|j: int| 0 <= j < i ==> !#[trigger] occurs_at(s, pattern, j)
}

/// Whether `before` and `after` are the text on either side of the first
/// occurrence of the pattern.
pub open spec fn split_once_at(
    s: Seq<char>,
    pattern: Seq<char>,
    before: Seq<char>,
    after: Seq<char>,
) -> bool {
    &&& s == before + pattern + after
    &&& first_at(s, pattern, before.len() as int)
}

/// Whether the pattern occurs in the text.
pub open spec fn occurs(s: Seq<char>, pattern: Seq<char>) -> bool {
    exists|i: int| occurs_at(s, pattern, i)
}

fn matches_at(chars: &Vec<char>, pattern: &Vec<char>, at: usize) -> (r: bool)
    requires
        at <= chars@.len(),
    ensures
        r == occurs_at(chars@, pattern@, at as int),
{
    if pattern.len() > chars.len() - at {
        return false;
    }
    for i in 0..pattern.len()
        invariant
            at + pattern.len() <= chars.len(),
            forall|j: int| 0 <= j < i ==> chars@[at + j] == #[trigger] pattern@[j],
    {
        if chars[at + i] != pattern[i] {
            assert(chars@.subrange(at as int, at + pattern@.len())[i as int] != pattern@[i as int]);
            return false;
        }
    }
    assert(chars@.subrange(at as int, at + pattern@.len()) == pattern@);
    true
}

/// The text on either side of the first occurrence of the pattern.
pub fn split_once_text(s: &str, pattern: &str) -> (r: Option<(String, String)>)
    ensures
        r is Some <==> occurs(s@, pattern@),
        r matches Some((before, after)) ==> split_once_at(s@, pattern@, before@, after@),
{
    let chars = chars_of(s);
    let wanted = chars_of(pattern);
    let mut i: usize = 0;
    while i < chars.len() && !matches_at(&chars, &wanted, i)
        invariant
            i <= chars@.len(),
            chars@ == s@,
            wanted@ == pattern@,
            forall|j: int| 0 <= j < i ==> !#[trigger] occurs_at(s@, pattern@, j),
        decreases chars@.len() - i,
    {
        i = i + 1;
    }
    if matches_at(&chars, &wanted, i) {
        let before = text_of(&chars, 0, i);
        let after = text_of(&chars, i + wanted.len(), chars.len());
        proof {
            let at = i as int;
            assert(s@.subrange(at, at + pattern@.len()) == pattern@);
            assert(s@ == before@ + s@.subrange(at, at + pattern@.len()) + after@);
        }
        return Some((before, after));
    }
    None
}

} // verus!
