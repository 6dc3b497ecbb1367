use crate::error::PlayerError;
use vstd::prelude::*;
use vstd::string::*;
use vstd::utf8::is_ascii_chars;

verus! {

/// Normal speed, the speed of a player that was told nothing else.
pub const DEFAULT_SPEED: i64 = 1_000;

/// The largest whole part that a speed can have: beyond it the thousandths
/// no longer fit the machine's integers.
pub const WHOLE_LIMIT: i64 = 9_223_372_036_854_775;

pub open spec fn is_digit(c: char) -> bool {
    '0' <= c && c <= '9'
}

pub open spec fn digit_value(c: char) -> int {
    c as int - '0' as int
}

pub open spec fn all_digits(s: Seq<char>) -> bool {
    forall|i: int| 0 <= i < s.len() ==> is_digit(#[trigger] s[i])
}

/// The number that a run of decimal digits writes.
pub open spec fn digits_value(s: Seq<char>) -> int
    decreases s.len(),
{
    if s.len() == 0 {
        0
    } else {
        digits_value(s.drop_last()) * 10 + digit_value(s.last())
    }
}

/// The digit at place `i` after the decimal point, zero where none is written.
pub open spec fn fraction_digit(fraction: Seq<char>, i: int) -> int {
    if 0 <= i < fraction.len() {
        digit_value(fraction[i])
    } else {
        0
    }
}

/// The thousandths that the digits after a decimal point stand for. Digits
/// past the third are cut off.
pub open spec fn fraction_thousandths(fraction: Seq<char>) -> int {
    fraction_digit(fraction, 0) * 100 + fraction_digit(fraction, 1) * 10 + fraction_digit(
        fraction,
        2,
    )
}

/// The text without a leading plus sign.
pub open spec fn unsigned_part(text: Seq<char>) -> Seq<char> {
    if text.len() > 0 && text[0] == '+' {
        text.drop_first()
    } else {
        text
    }
}

/// Where the whole part of an unsigned decimal ends: at a decimal point, or
/// at the end of the text when it has none.
pub open spec fn whole_end(body: Seq<char>) -> int {
    if body.contains('.') {
        body.index_of('.')
    } else {
        body.len() as int
    }
}

/// The thousandths that a decimal text stands for. A decimal text is an
/// optional plus sign, digits, and optionally a point and more digits, with
/// at least one digit before or after the point. Any other text stands for
/// nothing.
pub open spec fn decimal_thousandths(text: Seq<char>) -> Option<int> {
    let body = unsigned_part(text);
    let end = whole_end(body);
    let whole = body.subrange(0, end);
    let fraction = if end < body.len() {
        body.subrange(end + 1, body.len() as int)
    } else {
        Seq::<char>::empty()
    };
    if all_digits(whole) && all_digits(fraction) && whole.len() + fraction.len() > 0 {
        Some(digits_value(whole) * 1000 + fraction_thousandths(fraction))
    } else {
        None
    }
}

/// The speed that a text selects: its thousandths, when it is a decimal text
/// whose value is positive and fits the machine's integers.
pub open spec fn speed_of_text(text: Seq<char>) -> Option<int> {
    match decimal_thousandths(text) {
        Some(v) => if 0 < v <= i64::MAX {
            Some(v)
        } else {
            None
        },
        None => None,
    }
}

/// The speed to play at for a selector's text: what the text selects, and
/// normal speed when it selects nothing.
pub open spec fn speed_or_default(text: Seq<char>) -> int {
    match speed_of_text(text) {
        Some(v) => v,
        None => DEFAULT_SPEED as int,
    }
}

proof fn lemma_digits_value_bounds(s: Seq<char>)
    requires
        all_digits(s),
    ensures
        digits_value(s) >= 0,
    decreases s.len(),
{
    if s.len() > 0 {
        assert(is_digit(s[s.len() - 1]));
        lemma_digits_value_bounds(s.drop_last());
    }
}

proof fn lemma_digits_value_prefix(s: Seq<char>, k: int)
    requires
        all_digits(s),
        0 <= k <= s.len(),
    ensures
        0 <= digits_value(s.subrange(0, k)) <= digits_value(s),
    decreases s.len() - k,
{
    if k == s.len() {
        assert(s.subrange(0, k) =~= s);
        lemma_digits_value_bounds(s);
    } else {
        assert(is_digit(s[s.len() - 1]));
        assert(s.drop_last().subrange(0, k) =~= s.subrange(0, k));
        lemma_digits_value_prefix(s.drop_last(), k);
    }
}

/// A character that is neither a digit nor a point spoils a decimal text.
proof fn lemma_stray_character(text: Seq<char>, j: int)
    requires
        0 <= j < unsigned_part(text).len(),
        !is_digit(unsigned_part(text)[j]),
        unsigned_part(text)[j] != '.',
    ensures
        decimal_thousandths(text) is None,
{
    let body = unsigned_part(text);
    let end = whole_end(body);
    if body.contains('.') {
        if j < end {
            assert(body.subrange(0, end)[j] == body[j]);
        } else {
            assert(body.subrange(end + 1, body.len() as int)[j - end - 1] == body[j]);
        }
    } else {
        assert(body.subrange(0, end)[j] == body[j]);
    }
}

/// Two points spoil a decimal text.
proof fn lemma_second_point(text: Seq<char>, j: int, k: int)
    requires
        0 <= j < k < unsigned_part(text).len(),
        unsigned_part(text)[j] == '.',
        unsigned_part(text)[k] == '.',
    ensures
        decimal_thousandths(text) is None,
{
    let body = unsigned_part(text);
    let end = whole_end(body);
    assert(body.contains('.'));
    if end == j {
        assert(body.subrange(end + 1, body.len() as int)[k - end - 1] == body[k]);
    } else if j < end {
        assert(body.subrange(0, end)[j] == body[j]);
    } else {
        assert(body.subrange(end + 1, body.len() as int)[j - end - 1] == body[j]);
    }
}

/// With a point at `d` and digits everywhere else, the whole part ends at `d`.
proof fn lemma_whole_ends_at_point(body: Seq<char>, d: int)
    requires
        0 <= d < body.len(),
        body[d] == '.',
        all_digits(body.subrange(0, d)),
        all_digits(body.subrange(d + 1, body.len() as int)),
    ensures
        whole_end(body) == d,
{
    let end = whole_end(body);
    assert(body.contains('.'));
    if end < d {
        assert(body.subrange(0, d)[end] == body[end]);
    } else if end > d {
        assert(body.subrange(d + 1, body.len() as int)[end - d - 1] == body[end]);
    }
}

/// The whole part does not end inside a run of leading digits.
proof fn lemma_whole_end_after_digits(body: Seq<char>, k: int)
    requires
        0 <= k <= body.len(),
        all_digits(body.subrange(0, k)),
    ensures
        k <= whole_end(body) <= body.len(),
{
    let end = whole_end(body);
    if body.contains('.') {
        if end < k {
            assert(body.subrange(0, k)[end] == body[end]);
        }
    }
}

/// A text of digits alone has no fraction.
proof fn lemma_whole_only(body: Seq<char>)
    requires
        all_digits(body),
    ensures
        whole_end(body) == body.len(),
{
    if body.contains('.') {
        let end = body.index_of('.');
        assert(is_digit(body[end]));
    }
}

/// How a byte of an ASCII text relates to the character it encodes.
proof fn lemma_ascii_byte(c: char)
    requires
        c <= '\u{7f}',
    ensures
        (48 <= c as u8 <= 57) == is_digit(c),
        is_digit(c) ==> digit_value(c) == c as u8 - 48,
        (c as u8 == 46) == (c == '.'),
        (c as u8 == 43) == (c == '+'),
{
}

/// A text with a character outside ASCII is no decimal text.
proof fn lemma_not_ascii(text: Seq<char>)
    requires
        !is_ascii_chars(text),
    ensures
        decimal_thousandths(text) is None,
{
    let i = choose|i: int| 0 <= i < text.len() && !('\0' <= #[trigger] text[i] <= '\u{7f}');
    let body = unsigned_part(text);
    if text[0] == '+' {
        assert(i != 0);
        assert(body[i - 1] == text[i]);
        lemma_stray_character(text, i - 1);
    } else {
        lemma_stray_character(text, i);
    }
}

proof fn lemma_fraction_bounds(fraction: Seq<char>)
    requires
        all_digits(fraction),
    ensures
        0 <= fraction_thousandths(fraction) <= 999,
{
    if fraction.len() > 0 {
        assert(is_digit(fraction[0]));
    }
    if fraction.len() > 1 {
        assert(is_digit(fraction[1]));
    }
    if fraction.len() > 2 {
        assert(is_digit(fraction[2]));
    }
}

/// A whole part beyond the limit leaves no speed, whatever follows it.
proof fn lemma_whole_too_large(text: Seq<char>, k: int)
    requires
        0 <= k <= unsigned_part(text).len(),
        all_digits(unsigned_part(text).subrange(0, k)),
        digits_value(unsigned_part(text).subrange(0, k)) > WHOLE_LIMIT,
    ensures
        speed_of_text(text) is None,
{
    let body = unsigned_part(text);
    let end = whole_end(body);
    let whole = body.subrange(0, end);
    if decimal_thousandths(text) is Some {
        lemma_whole_end_after_digits(body, k);
        assert(whole.subrange(0, k) =~= body.subrange(0, k));
        lemma_digits_value_prefix(whole, k);
        if end < body.len() {
            lemma_fraction_bounds(body.subrange(end + 1, body.len() as int));
        }
    }
}

/// The bytes from `start` on are the characters of `body`, all of them ASCII.
spec fn spells(bytes: Seq<u8>, start: int, body: Seq<char>) -> bool {
    &&& 0 <= start
    &&& bytes.len() == start + body.len()
    &&& forall|j: int|
        0 <= j < body.len() ==> bytes[start + j] == (#[trigger] body[j]) as u8 && body[j]
            <= '\u{7f}'
}

fn is_digit_byte(b: u8) -> (r: bool)
    ensures
        r == (48 <= b <= 57),
{
    48 <= b && b <= 57
}

/// Reads the speed that a text selects, in thousandths of normal speed.
pub fn parse_speed(text: &str) -> (r: Result<i64, PlayerError>)
    ensures
        match speed_of_text(text@) {
            Some(v) => r == Ok::<i64, PlayerError>(v as i64),
            None => r == Err::<i64, PlayerError>(PlayerError::InvalidUserInput),
        },
{
    if !text.is_ascii() {
        proof {
            lemma_not_ascii(text@);
        }
        return Err(PlayerError::InvalidUserInput);
    }
    let bytes = text.as_bytes();
    let n: usize = bytes.len();
    proof {
        is_ascii_spec_bytes(text);
    }
    let start: usize = if n > 0 && bytes[0] == 43 {
        1
    } else {
        0
    };
    let ghost body = unsigned_part(text@);
    proof {
        if n > 0 {
            lemma_ascii_byte(text@[0]);
        }
        assert forall|j: int| 0 <= j < body.len() implies bytes@[start + j] == (
        #[trigger] body[j]) as u8 && body[j] <= '\u{7f}' by {
            assert(body[j] == text@[start + j]);
        }
        assert(spells(bytes@, start as int, body));
    }
    let mut i: usize = start;
    let mut whole: i64 = 0;
    while i < n && is_digit_byte(bytes[i])
        invariant
            start <= i <= n,
            n == bytes.len(),
            body == unsigned_part(text@),
            spells(bytes@, start as int, body),
            all_digits(body.subrange(0, i - start)),
            whole == digits_value(body.subrange(0, i - start)),
            0 <= whole <= WHOLE_LIMIT,
        decreases n - i,
    {
        let d: i64 = (bytes[i] - 48) as i64;
        let next: i64 = whole * 10 + d;
        proof {
            let c = body[i - start];
            lemma_ascii_byte(c);
            let longer = body.subrange(0, i + 1 - start);
            assert(longer.drop_last() =~= body.subrange(0, i - start));
            assert(longer.last() == c);
            assert forall|j: int| 0 <= j < longer.len() implies is_digit(#[trigger] longer[j]) by {
                if j < i - start {
                    assert(body.subrange(0, i - start)[j] == longer[j]);
                }
            }
        }
        if next > WHOLE_LIMIT {
            proof {
                lemma_whole_too_large(text@, i + 1 - start);
            }
            return Err(PlayerError::InvalidUserInput);
        }
        whole = next;
        i = i + 1;
    }
    let whole_digits: usize = i - start;
    let mut fraction: i64 = 0;
    let mut fraction_digits: usize = 0;
    if i < n {
        proof {
            lemma_ascii_byte(body[i - start]);
        }
        if bytes[i] != 46 {
            proof {
                lemma_stray_character(text@, i - start);
            }
            return Err(PlayerError::InvalidUserInput);
        }
        let point: usize = i;
        i = i + 1;
        while i < n && is_digit_byte(bytes[i])
            invariant
                start <= point < i <= n,
                n == bytes.len(),
                body == unsigned_part(text@),
                spells(bytes@, start as int, body),
                fraction_digits == i - point - 1,
                all_digits(body.subrange(point + 1 - start, i - start)),
                fraction == fraction_thousandths(body.subrange(point + 1 - start, i - start)),
                0 <= fraction <= 999,
            decreases n - i,
        {
            let d: i64 = (bytes[i] - 48) as i64;
            proof {
                let c = body[i - start];
                lemma_ascii_byte(c);
                let shorter = body.subrange(point + 1 - start, i - start);
                let longer = body.subrange(point + 1 - start, i + 1 - start);
                assert(longer =~= shorter.push(c));
                assert forall|j: int| 0 <= j < longer.len() implies is_digit(
                    #[trigger] longer[j],
                ) by {
                    if j < shorter.len() {
                        assert(shorter[j] == longer[j]);
                    }
                }
                lemma_fraction_bounds(longer);
            }
            if fraction_digits == 0 {
                fraction = d * 100;
            } else if fraction_digits == 1 {
                fraction = fraction + d * 10;
            } else if fraction_digits == 2 {
                fraction = fraction + d;
            }
            fraction_digits = fraction_digits + 1;
            i = i + 1;
        }
        if i < n {
            proof {
                lemma_ascii_byte(body[i - start]);
                if body[i - start] == '.' {
                    lemma_second_point(text@, point - start, i - start);
                } else {
                    lemma_stray_character(text@, i - start);
                }
            }
            return Err(PlayerError::InvalidUserInput);
        }
        proof {
            assert(body.subrange(point + 1 - start, i - start) =~= body.subrange(
                point + 1 - start,
                body.len() as int,
            ));
            lemma_whole_ends_at_point(body, point - start);
        }
    } else {
        proof {
            assert(body.subrange(0, i - start) =~= body);
            lemma_whole_only(body);
        }
    }
    if whole_digits + fraction_digits == 0 {
        return Err(PlayerError::InvalidUserInput);
    }
    if whole == WHOLE_LIMIT && fraction > 807 {
        return Err(PlayerError::InvalidUserInput);
    }
    let speed: i64 = whole * 1000 + fraction;
    if speed == 0 {
        return Err(PlayerError::InvalidUserInput);
    }
    Ok(speed)
}

/// The speed to play at for the text of the speed selector: the speed that
/// the text selects, or normal speed for a text that selects none.
pub fn selected_speed(text: &str) -> (speed: i64)
    ensures
        speed == speed_or_default(text@),
        speed > 0,
{
    match parse_speed(text) {
        Ok(speed) => speed,
        Err(_) => DEFAULT_SPEED,
    }
}

} // verus!
