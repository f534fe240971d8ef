//! Writing a span of whole seconds as clock text.

use vstd::prelude::*;
use vstd::string::*;

verus! {

/// Seconds in one minute.
pub const SECONDS_PER_MINUTE: u64 = 60;

/// Seconds in one hour; from here on the text carries an hours part.
pub const SECONDS_PER_HOUR: u64 = 3600;

/// The character that writes the digit `d`.
pub open spec fn digit_char(d: nat) -> char
    recommends
        d < 10,
{
    if d == 0 {
        '0'
    } else if d == 1 {
        '1'
    } else if d == 2 {
        '2'
    } else if d == 3 {
        '3'
    } else if d == 4 {
        '4'
    } else if d == 5 {
        '5'
    } else if d == 6 {
        '6'
    } else if d == 7 {
        '7'
    } else if d == 8 {
        '8'
    } else {
        '9'
    }
}

/// The digit that `c` writes; zero for a character that is no digit.
pub open spec fn digit_value(c: char) -> nat {
    if c == '1' {
        1
    } else if c == '2' {
        2
    } else if c == '3' {
        3
    } else if c == '4' {
        4
    } else if c == '5' {
        5
    } else if c == '6' {
        6
    } else if c == '7' {
        7
    } else if c == '8' {
        8
    } else if c == '9' {
        9
    } else {
        0
    }
}

/// Whether `c` is one of the ten digit characters.
pub open spec fn is_digit(c: char) -> bool {
    c == digit_char(digit_value(c))
}

/// `n` below one hundred, written with exactly two digits.
pub open spec fn two_digits(n: nat) -> Seq<char>
    recommends
        n < 100,
{
    seq![digit_char(n / 10), digit_char(n % 10)]
}

/// `n` in decimal, without leading zeros (zero is written `0`).
pub open spec fn decimal(n: nat) -> Seq<char>
    decreases n,
{
    if n < 10 {
        seq![digit_char(n)]
    } else {
        decimal(n / 10).push(digit_char(n % 10))
    }
}

/// The clock text of a span of `seconds`: `mm:ss` below one hour, and
/// `h:mm:ss` with the hours in plain decimal from one hour on.
pub open spec fn delta_text(seconds: nat) -> Seq<char> {
    let tail = two_digits((seconds % 3600) / 60) + seq![':'] + two_digits(seconds % 60);
    if seconds < 3600 {
        tail
    } else {
        decimal(seconds / 3600) + seq![':'] + tail
    }
}

/// The one-character text of a digit.
fn digit_str(d: u64) -> (text: &'static str)
    requires
        d < 10,
    ensures
        text@ == seq![digit_char(d as nat)],
{
    proof {
        reveal_strlit("0");
        reveal_strlit("1");
        reveal_strlit("2");
        reveal_strlit("3");
        reveal_strlit("4");
        reveal_strlit("5");
        reveal_strlit("6");
        reveal_strlit("7");
        reveal_strlit("8");
        reveal_strlit("9");
    }
    let text = if d == 0 {
        "0"
    } else if d == 1 {
        "1"
    } else if d == 2 {
        "2"
    } else if d == 3 {
        "3"
    } else if d == 4 {
        "4"
    } else if d == 5 {
        "5"
    } else if d == 6 {
        "6"
    } else if d == 7 {
        "7"
    } else if d == 8 {
        "8"
    } else {
        "9"
    };
    assert(text@ =~= seq![digit_char(d as nat)]);
    text
}

/// Appends `n`, written with two digits, to `out`.
fn push_two_digits(out: &mut String, n: u64)
    requires
        n < 100,
    ensures
        final(out)@ == old(out)@ + two_digits(n as nat),
{
    out.append(digit_str(n / 10));
    out.append(digit_str(n % 10));
    assert(out@ =~= old(out)@ + two_digits(n as nat));
}

/// Appends `n` in decimal to `out`.
fn push_decimal(out: &mut String, n: u64)
    ensures
        final(out)@ == old(out)@ + decimal(n as nat),
    decreases n,
{
    if n >= 10 {
        push_decimal(out, n / 10);
    }
    out.append(digit_str(n % 10));
    assert(out@ =~= old(out)@ + decimal(n as nat));
}

/// Writes a span of `seconds` as clock text.
///
/// Below one hour the text is `mm:ss`. From one hour on it is `h:mm:ss`, the
/// hours in as many digits as they need. Every `u64` is accepted.
pub fn format_delta(seconds: u64) -> (text: String)
    ensures
        text@ == delta_text(seconds as nat),
{
    let hours: u64 = seconds / SECONDS_PER_HOUR;
    let minutes: u64 = (seconds % SECONDS_PER_HOUR) / SECONDS_PER_MINUTE;
    let secs: u64 = seconds % SECONDS_PER_MINUTE;
    let mut text = String::new();
    if hours > 0 {
        push_decimal(&mut text, hours);
        text.append(":");
    }
    push_two_digits(&mut text, minutes);
    text.append(":");
    push_two_digits(&mut text, secs);
    proof {
        reveal_strlit(":");
        assert(":"@ =~= seq![':']);
        assert(text@ =~= delta_text(seconds as nat));
    }
    text
}

/// The number that a run of digits writes in decimal.
pub open spec fn number_of(digits: Seq<char>) -> nat
    decreases digits.len(),
{
    if digits.len() == 0 {
        0
    } else {
        number_of(digits.drop_last()) * 10 + digit_value(digits.last())
    }
}

/// The number of seconds that the five characters of an `mm:ss` text stand for.
pub open spec fn minutes_form_seconds(text: Seq<char>) -> nat
    recommends
        text.len() == 5,
{
    (digit_value(text[0]) * 10 + digit_value(text[1])) * 60 + digit_value(text[3]) * 10
        + digit_value(text[4])
}

/// The number of seconds that a clock text stands for: the last five
/// characters are read as `mm:ss`, and what stands before the colon in front
/// of them, if anything, as the hours.
pub open spec fn seconds_of(text: Seq<char>) -> nat
    recommends
        text.len() >= 5,
{
    let n = text.len() as int;
    if n <= 5 {
        minutes_form_seconds(text)
    } else {
        number_of(text.subrange(0, n - 6)) * 3600 + minutes_form_seconds(text.subrange(n - 5, n))
    }
}

/// Each digit is written by a digit character, and read back from it.
pub proof fn lemma_digit_round_trip(d: nat)
    requires
        d < 10,
    ensures
        is_digit(digit_char(d)),
        digit_value(digit_char(d)) == d,
        digit_char(d) != ':',
{
}

/// The decimal text of a number has at least one character, consists of digits
/// only, starts with a zero only for zero itself, and reads back as the number.
pub proof fn lemma_decimal_round_trip(n: nat)
    ensures
        decimal(n).len() >= 1,
        forall|i: int| 0 <= i < decimal(n).len() ==> is_digit(#[trigger] decimal(n)[i]),
        n > 0 ==> decimal(n)[0] != '0',
        number_of(decimal(n)) == n,
    decreases n,
{
    if n < 10 {
        lemma_digit_round_trip(n);
        let text = decimal(n);
        assert(text.drop_last() =~= Seq::<char>::empty());
        assert(number_of(text.drop_last()) == 0);
    } else {
        lemma_decimal_round_trip(n / 10);
        lemma_digit_round_trip(n % 10);
        let head = decimal(n / 10);
        let text = decimal(n);
        assert(text.drop_last() =~= head);
        assert(text.last() == digit_char(n % 10));
        assert(text[0] == head[0]);
        assert forall|i: int| 0 <= i < text.len() implies is_digit(#[trigger] text[i]) by {
            if i < head.len() {
                assert(text[i] == head[i]);
            }
        }
    }
}

/// Below one hour the text is `mm:ss`: five characters, a colon in the
/// middle and digits around it, minutes and seconds both below sixty, and it
/// reads back as the span.
pub proof fn lemma_minutes_form(seconds: nat)
    requires
        seconds < 3600,
    ensures
        delta_text(seconds).len() == 5,
        delta_text(seconds)[2] == ':',
        is_digit(delta_text(seconds)[0]),
        is_digit(delta_text(seconds)[1]),
        is_digit(delta_text(seconds)[3]),
        is_digit(delta_text(seconds)[4]),
        delta_text(seconds) == two_digits(seconds / 60) + seq![':'] + two_digits(seconds % 60),
        digit_value(delta_text(seconds)[0]) * 10 + digit_value(delta_text(seconds)[1]) == seconds
            / 60,
        digit_value(delta_text(seconds)[3]) * 10 + digit_value(delta_text(seconds)[4]) == seconds
            % 60,
        seconds_of(delta_text(seconds)) == seconds,
{
    let m = seconds / 60;
    let s = seconds % 60;
    assert(seconds % 3600 == seconds);
    lemma_digit_round_trip(m / 10);
    lemma_digit_round_trip(m % 10);
    lemma_digit_round_trip(s / 10);
    lemma_digit_round_trip(s % 10);
    let text = delta_text(seconds);
    assert(text =~= seq![
        digit_char(m / 10),
        digit_char(m % 10),
        ':',
        digit_char(s / 10),
        digit_char(s % 10),
    ]);
}

/// How a text is laid out that consists of `head`, a colon and five more
/// characters.
proof fn lemma_colon_layout(head: Seq<char>, tail: Seq<char>)
    requires
        head.len() >= 1,
        tail.len() == 5,
    ensures
        ({
            let text = head + seq![':'] + tail;
            let n = text.len() as int;
            &&& n == head.len() + 6
            &&& text.subrange(0, n - 6) == head
            &&& text.subrange(n - 5, n) == tail
            &&& text[n - 6] == ':'
            &&& text[n - 3] == tail[2]
            &&& forall|i: int| 0 <= i < head.len() ==> text[i] == head[i]
        }),
{
    let text = head + seq![':'] + tail;
    let n = text.len() as int;
    assert(text.subrange(0, n - 6) =~= head);
    assert(text.subrange(n - 5, n) =~= tail);
}

/// From one hour on the text is `h:mm:ss`: the hours in decimal without a
/// leading zero, a colon, and then the `mm:ss` text of what is left of the
/// span after the full hours. It reads back as the span.
pub proof fn lemma_hours_form(seconds: nat)
    requires
        seconds >= 3600,
    ensures
        delta_text(seconds) == decimal(seconds / 3600) + seq![':'] + delta_text(seconds % 3600),
        delta_text(seconds).len() == decimal(seconds / 3600).len() + 6,
        delta_text(seconds).len() >= 7,
        delta_text(seconds)[0] != '0',
        forall|i: int|
            0 <= i < decimal(seconds / 3600).len() ==> is_digit(#[trigger] delta_text(seconds)[i]),
        delta_text(seconds)[delta_text(seconds).len() - 6] == ':',
        delta_text(seconds)[delta_text(seconds).len() - 3] == ':',
        seconds_of(delta_text(seconds)) == seconds,
{
    let h = seconds / 3600;
    let rest = seconds % 3600;
    let hours = decimal(h);
    let tail = delta_text(rest);
    let text = delta_text(seconds);
    assert(text == hours + seq![':'] + tail) by {
        assert(rest % 3600 == rest);
    }
    lemma_decimal_round_trip(h);
    lemma_minutes_form(rest);
    lemma_colon_layout(hours, tail);
    let n = text.len() as int;
    assert forall|i: int| 0 <= i < hours.len() implies is_digit(#[trigger] text[i]) by {
        assert(text[i] == hours[i]);
    }
    assert(seconds_of(text) == number_of(hours) * 3600 + minutes_form_seconds(tail));
    assert(minutes_form_seconds(tail) == seconds_of(tail));
}

/// Every span has a text of at least five characters that reads back as the
/// span, so two different spans never share a text.
pub proof fn lemma_delta_text_is_faithful(a: nat, b: nat)
    ensures
        delta_text(a).len() >= 5,
        seconds_of(delta_text(a)) == a,
        delta_text(a) == delta_text(b) ==> a == b,
{
    if a < 3600 {
        lemma_minutes_form(a);
    } else {
        lemma_hours_form(a);
    }
    if b < 3600 {
        lemma_minutes_form(b);
    } else {
        lemma_hours_form(b);
    }
}

} // verus!
