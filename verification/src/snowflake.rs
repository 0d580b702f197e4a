//! Snowflakes, the platform's numeric ids, as they are written in
//! configuration: in decimal, several of them separated by commas.

use crate::text::{chars_of, decimal_digits, digit_char};
use vstd::prelude::*;

verus! {

/// Whether `c` is a decimal digit.
pub open spec fn is_digit(c: char) -> bool {
    '0' <= c <= '9'
}

/// The number that the digit `c` stands for.
pub open spec fn digit_value(c: char) -> nat {
    (c as u32 - '0' as u32) as nat
}

/// Whether `text` holds decimal digits only.
pub open spec fn all_digits(text: Seq<char>) -> bool {
    forall|i: int| 0 <= i < text.len() ==> is_digit(#[trigger] text[i])
}

/// The number that the digits `digits` write in decimal.
pub open spec fn digits_value(digits: Seq<char>) -> nat
    decreases digits.len(),
{
    if digits.len() == 0 {
        0
    } else {
        digits_value(digits.drop_last()) * 10 + digit_value(digits.last())
    }
}

/// The number that `digits` write, where they are one or more decimal
/// digits and the number fits in 64 bits.
pub open spec fn number_of(digits: Seq<char>) -> Option<u64> {
    if digits.len() > 0 && all_digits(digits) && digits_value(digits) <= u64::MAX {
        Some(digits_value(digits) as u64)
    } else {
        None
    }
}

/// The snowflake that `text` writes: one or more decimal digits, with an
/// optional `+` before them, whose number fits in 64 bits. Anything else
/// writes none.
pub open spec fn snowflake_of(text: Seq<char>) -> Option<u64> {
    if text.len() > 0 && text[0] == '+' {
        number_of(text.drop_first())
    } else {
        number_of(text)
    }
}

/// The parts of `text` between its commas, in order. A text without a
/// comma is its own single part, and so is the empty text.
pub open spec fn comma_parts(text: Seq<char>) -> Seq<Seq<char>>
    decreases text.len(),
{
    if text.len() == 0 {
        seq![text]
    } else {
        let rest = comma_parts(text.drop_first());
        if text[0] == ',' {
            seq![Seq::<char>::empty()] + rest
        } else {
            rest.update(0, seq![text[0]] + rest[0])
        }
    }
}

/// The snowflakes that `text` lists, separated by commas. Where one part
/// writes no snowflake, the whole text lists none.
pub open spec fn snowflakes_of(text: Seq<char>) -> Option<Seq<u64>> {
    let parts = comma_parts(text);
    if forall|i: int| 0 <= i < parts.len() ==> snowflake_of(#[trigger] parts[i]) is Some {
        Some(Seq::new(parts.len(), |i: int| snowflake_of(parts[i])->0))
    } else {
        None
    }
}

/// The parts of a text, put together again with commas between them.
pub open spec fn joined(parts: Seq<Seq<char>>) -> Seq<char>
    decreases parts.len(),
{
    if parts.len() == 0 {
        Seq::empty()
    } else if parts.len() == 1 {
        parts[0]
    } else {
        parts[0] + seq![','] + joined(parts.drop_first())
    }
}

/// Reads the snowflake that the characters of `chars` from `from` up to
/// `to` write.
pub fn parse_range(chars: &Vec<char>, from: usize, to: usize) -> (parsed: Option<u64>)
    requires
        from <= to <= chars@.len(),
    ensures
        parsed == snowflake_of(chars@.subrange(from as int, to as int)),
{
    let ghost text = chars@.subrange(from as int, to as int);
    let start = if from < to && chars[from] == '+' {
        from + 1
    } else {
        from
    };
    let ghost digits = chars@.subrange(start as int, to as int);
    proof {
        if start > from {
            assert(text[0] == '+');
            assert(text.drop_first() =~= digits);
        } else {
            assert(text =~= digits);
        }
    }
    assert(snowflake_of(text) == number_of(digits)) by {
        if start == from && text.len() > 0 && text[0] == '+' {
            assert(chars@[from as int] == '+');
        }
    }
    if start == to {
        return None;
    }
    let mut value: u64 = 0;
    let mut i = start;
    while i < to
        invariant
            from <= start <= i <= to <= chars@.len(),
            text == chars@.subrange(from as int, to as int),
            digits == chars@.subrange(start as int, to as int),
            snowflake_of(text) == number_of(digits),
            all_digits(digits.take(i - start)),
            value == digits_value(digits.take(i - start)),
        decreases to - i,
    {
        let c = chars[i];
        let ghost seen = digits.take(i - start + 1);
        proof {
            assert(seen.drop_last() =~= digits.take(i - start));
            assert(seen.last() == c);
            lemma_digits_value_grows(digits, i - start + 1);
        }
        if !(c >= '0' && c <= '9') {
            proof {
                assert(digits[i - start] == c);
            }
            return None;
        }
        let d = (c as u32 - '0' as u32) as u64;
        let shifted = match value.checked_mul(10) {
            Some(shifted) => shifted,
            None => {
                return None;
            },
        };
        value = match shifted.checked_add(d) {
            Some(sum) => sum,
            None => {
                return None;
            },
        };
        i += 1;
    }
    proof {
        assert(digits.take(to - start) =~= digits);
    }
    Some(value)
}

/// Reads the snowflake that `text` writes.
pub fn parse_snowflake(text: &str) -> (parsed: Option<u64>)
    ensures
        parsed == snowflake_of(text@),
{
    let chars = chars_of(text);
    proof {
        assert(chars@.subrange(0, chars@.len() as int) =~= chars@);
    }
    parse_range(&chars, 0, chars.len())
}

/// Reads the snowflake in `value`, the text of a configuration variable
/// where it is set, and hands it to `f`.
pub fn parse_snowflake_from_env<T, F: Fn(u64) -> T>(value: Option<&str>, f: F) -> (parsed: Option<
    T,
>)
    requires
        value is Some && snowflake_of(value->0@) is Some ==> call_requires(
            f,
            (snowflake_of(value->0@)->0,),
        ),
    ensures
        match parsed {
            Some(item) => value is Some && snowflake_of(value->0@) is Some && call_ensures(
                f,
                (snowflake_of(value->0@)->0,),
                item,
            ),
            None => value is None || snowflake_of(value->0@) is None,
        },
{
    match value {
        Some(text) => match parse_snowflake(text) {
            Some(id) => Some(f(id)),
            None => None,
        },
        None => None,
    }
}

/// Reads the snowflakes that `value` lists, the text of a configuration
/// variable where it is set, and hands each to `f`, in order.
pub fn parse_snowflakes_from_env<T, F: Fn(u64) -> T>(value: Option<&str>, f: F) -> (parsed:
    Option<Vec<T>>)
    requires
        value is Some ==> forall|i: int|
            0 <= i < comma_parts(value->0@).len() && snowflake_of(
                #[trigger] comma_parts(value->0@)[i],
            ) is Some ==> call_requires(f, (snowflake_of(comma_parts(value->0@)[i])->0,)),
    ensures
        match parsed {
            Some(items) => {
                &&& value is Some
                &&& snowflakes_of(value->0@) is Some
                &&& items@.len() == snowflakes_of(value->0@)->0.len()
                &&& forall|i: int|
                    0 <= i < items@.len() ==> call_ensures(
                        f,
                        (snowflakes_of(value->0@)->0[i],),
                        #[trigger] items@[i],
                    )
            },
            None => value is None || snowflakes_of(value->0@) is None,
        },
{
    let text = match value {
        Some(text) => text,
        None => {
            return None;
        },
    };
    let chars = chars_of(text);
    let ghost parts = comma_parts(chars@);
    let mut items: Vec<T> = Vec::new();
    let mut start: usize = 0;
    let mut i: usize = 0;
    proof {
        assert(chars@.skip(0) =~= chars@);
        assert(parts.skip(0) =~= parts);
        lemma_comma_parts_nonempty(chars@);
    }
    while i < chars.len()
        invariant
            start <= i <= chars@.len(),
            value == Some(text),
            chars@ == text@,
            parts == comma_parts(chars@),
            items@.len() < parts.len(),
            parts.skip(items@.len() as int) == comma_parts(chars@.skip(start as int)),
            forall|j: int| start <= j < i ==> chars@[j] != ',',
            forall|k: int|
                0 <= k < items@.len() ==> snowflake_of(#[trigger] parts[k]) is Some
                    && call_ensures(f, (snowflake_of(parts[k])->0,), items@[k]),
            forall|k: int|
                0 <= k < parts.len() && snowflake_of(#[trigger] parts[k]) is Some
                    ==> call_requires(f, (snowflake_of(parts[k])->0,)),
        decreases chars@.len() - i,
    {
        if chars[i] == ',' {
            let ghost rest = chars@.skip(start as int);
            proof {
                lemma_comma_parts_split(rest, i - start);
                lemma_comma_parts_nonempty(rest.skip(i - start + 1));
                assert(rest.take(i - start) =~= chars@.subrange(start as int, i as int));
                assert(rest.skip(i - start + 1) =~= chars@.skip(i + 1));
                assert(parts.skip(items@.len() as int)[0] == parts[items@.len() as int]);
                assert(parts.skip(items@.len() as int).skip(1) =~= parts.skip(items@.len() as int + 1));
                assert((seq![rest.take(i - start)] + comma_parts(rest.skip(i - start + 1))).skip(1)
                    =~= comma_parts(rest.skip(i - start + 1)));
            }
            match parse_range(&chars, start, i) {
                Some(id) => {
                    items.push(f(id));
                },
                None => {
                    return None;
                },
            }
            start = i + 1;
        }
        i += 1;
    }
    proof {
        let rest = chars@.skip(start as int);
        lemma_comma_parts_whole(rest);
        assert(rest =~= chars@.subrange(start as int, chars@.len() as int));
        assert(parts.skip(items@.len() as int)[0] == parts[items@.len() as int]);
        assert(parts.skip(items@.len() as int).len() == 1);
    }
    match parse_range(&chars, start, chars.len()) {
        Some(id) => {
            items.push(f(id));
        },
        None => {
            return None;
        },
    }
    Some(items)
}

/// What is written in decimal reads back as the same number.
pub proof fn decimal_reads_back(n: u64)
    ensures
        snowflake_of(decimal_digits(n as nat)) == Some(n),
{
    lemma_decimal_digits(n as nat);
}

/// The parts of a text hold no comma, and with commas between them they
/// make up the text again.
pub proof fn parts_make_up_the_text(text: Seq<char>)
    ensures
        joined(comma_parts(text)) == text,
        forall|i: int, j: int|
            0 <= i < comma_parts(text).len() && 0 <= j < comma_parts(text)[i].len()
                ==> #[trigger] comma_parts(text)[i][j] != ',',
    decreases text.len(),
{
    if text.len() > 0 {
        let rest = comma_parts(text.drop_first());
        let parts = comma_parts(text);
        parts_make_up_the_text(text.drop_first());
        lemma_comma_parts_nonempty(text.drop_first());
        if text[0] == ',' {
            assert(parts.drop_first() =~= rest);
            assert(joined(parts) =~= seq![','] + joined(rest));
            assert(seq![','] + text.drop_first() =~= text);
            assert forall|i: int, j: int|
                0 <= i < parts.len() && 0 <= j < parts[i].len() implies #[trigger] parts[i][j]
                != ',' by {
                if i > 0 {
                    assert(parts[i] == rest[i - 1]);
                }
            }
        } else {
            let first = seq![text[0]] + rest[0];
            assert(parts.drop_first() =~= rest.drop_first());
            if rest.len() == 1 {
                assert(joined(parts) =~= seq![text[0]] + joined(rest));
            } else {
                assert(joined(parts) =~= seq![text[0]] + (rest[0] + seq![','] + joined(
                    rest.drop_first(),
                )));
            }
            assert(seq![text[0]] + text.drop_first() =~= text);
            assert forall|i: int, j: int|
                0 <= i < parts.len() && 0 <= j < parts[i].len() implies #[trigger] parts[i][j]
                != ',' by {
                if i == 0 {
                    if j > 0 {
                        assert(parts[0][j] == rest[0][j - 1]);
                    }
                } else {
                    assert(parts[i] == rest[i]);
                }
            }
        }
    } else {
        assert(comma_parts(text) =~= seq![text]);
    }
}

/// The decimal writing of a number holds digits only, at least one, and
/// writes that number.
pub proof fn lemma_decimal_digits(n: nat)
    ensures
        decimal_digits(n).len() > 0,
        all_digits(decimal_digits(n)),
        digits_value(decimal_digits(n)) == n,
    decreases n,
{
    let d = digit_char(n % 10);
    assert(is_digit(d) && digit_value(d) == n % 10);
    if n < 10 {
        assert(seq![d].drop_last() =~= Seq::<char>::empty());
        assert(digits_value(seq![d]) == n) by {
            reveal_with_fuel(digits_value, 2);
        }
    } else {
        let front = decimal_digits(n / 10);
        lemma_decimal_digits(n / 10);
        assert(front.push(d).drop_last() =~= front);
    }
}

/// The number that a text writes is at least the number that any prefix of
/// it writes.
pub proof fn lemma_digits_value_grows(digits: Seq<char>, upto: int)
    requires
        0 <= upto <= digits.len(),
    ensures
        digits_value(digits.take(upto)) <= digits_value(digits),
    decreases digits.len(),
{
    if upto == digits.len() {
        assert(digits.take(upto) =~= digits);
    } else {
        lemma_digits_value_grows(digits.drop_last(), upto);
        assert(digits.drop_last().take(upto) =~= digits.take(upto));
    }
}

/// A text has at least one part.
pub proof fn lemma_comma_parts_nonempty(text: Seq<char>)
    ensures
        comma_parts(text).len() >= 1,
    decreases text.len(),
{
    if text.len() > 0 {
        lemma_comma_parts_nonempty(text.drop_first());
    }
}

/// A text without a comma is its own single part.
pub proof fn lemma_comma_parts_whole(text: Seq<char>)
    requires
        forall|j: int| 0 <= j < text.len() ==> text[j] != ',',
    ensures
        comma_parts(text) == seq![text],
    decreases text.len(),
{
    if text.len() > 0 {
        let rest = text.drop_first();
        lemma_comma_parts_whole(rest);
        assert(seq![text[0]] + rest =~= text);
        assert(seq![rest].update(0, text) =~= seq![text]);
    }
}

/// The first part of a text ends at its first comma, and the other parts
/// are those of what follows that comma.
pub proof fn lemma_comma_parts_split(text: Seq<char>, at: int)
    requires
        0 <= at < text.len(),
        text[at] == ',',
        forall|j: int| 0 <= j < at ==> text[j] != ',',
    ensures
        comma_parts(text) == seq![text.take(at)] + comma_parts(text.skip(at + 1)),
    decreases at,
{
    let rest = text.drop_first();
    if at == 0 {
        assert(text.take(0) =~= Seq::<char>::empty());
        assert(text.skip(1) =~= rest);
    } else {
        lemma_comma_parts_split(rest, at - 1);
        let after = comma_parts(rest.skip(at));
        assert(rest.skip(at) =~= text.skip(at + 1));
        assert(seq![text[0]] + rest.take(at - 1) =~= text.take(at));
        assert((seq![rest.take(at - 1)] + after).update(0, text.take(at)) =~= seq![text.take(at)]
            + after);
    }
}

} // verus!
