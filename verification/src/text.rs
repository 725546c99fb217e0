//! The text of a line: decimal numbers and the three-key frame.

use vstd::prelude::*;
use vstd::string::*;
use crate::level::Level;
use crate::msg::Msg;
use crate::outside::{is_one_line, is_plain, quotes};

verus! {

/// The character for one decimal digit.
pub open spec fn digit(d: nat) -> char {
    if d == 0 {
        '0'
    } else if d == 1 {
        '1'
    } else if d == 2 {
        '2'
    } else if d == 3 {
        '3'
    } else if d == 4 {
        '4'
    } else if d == 5 {
        '5'
    } else if d == 6 {
        '6'
    } else if d == 7 {
        '7'
    } else if d == 8 {
        '8'
    } else {
        '9'
    }
}

/// `n` in decimal, without sign or leading zeros (`0` is "0").
pub open spec fn decimal(n: nat) -> Seq<char>
    decreases n,
{
    if n < 10 {
        seq![digit(n)]
    } else {
        decimal(n / 10).push(digit(n % 10))
    }
}

/// One record as a line: an object with the keys `level`, `ts` and `msg`, in
/// that order, with no space between tokens. `body` is the JSON text of the
/// payload and is taken as it is.
pub open spec fn line_of(level: Level, ts: nat, body: Seq<char>) -> Seq<char> {
    "{\"level\":\""@ + level.name() + "\",\"ts\":"@ + decimal(ts) + ",\"msg\":"@ + body + "}"@
}

/// The payload that stands in for one that could not be encoded.
pub open spec fn diagnostic_of(description: Seq<char>) -> Seq<char> {
    "Marshal Error: "@ + description
}

/// Whether a character is one of the ten decimal digits.
pub open spec fn is_digit(c: char) -> bool {
    exists|d: nat| d < 10 && c == #[trigger] digit(d)
}

/// The number that a digit stands for.
pub open spec fn digit_value(c: char) -> nat {
    choose|d: nat| d < 10 && c == #[trigger] digit(d)
}

/// The number that a run of decimal digits stands for.
pub open spec fn decimal_value(text: Seq<char>) -> nat
    decreases text.len(),
{
    if text.len() == 0 {
        0
    } else {
        decimal_value(text.drop_last()) * 10 + digit_value(text.last())
    }
}

/// The ten digits are ten different characters.
pub proof fn digit_value_of_digit(d: nat)
    requires
        d < 10,
    ensures
        is_digit(digit(d)),
        digit_value(digit(d)) == d,
{
    let c = digit(d);
    let e = digit_value(c);
    assert(e < 10 && c == digit(e));
}

/// A number in decimal is a run of one or more digits, without a leading
/// zero unless it is the single digit `0`.
pub proof fn decimal_is_digits(n: nat)
    ensures
        decimal(n).len() >= 1,
        forall|i: int| 0 <= i < decimal(n).len() ==> is_digit(#[trigger] decimal(n)[i]),
        n >= 10 ==> decimal(n).len() >= 2 && decimal(n)[0] != '0',
        n < 10 ==> decimal(n).len() == 1,
    decreases n,
{
    if n < 10 {
        digit_value_of_digit(n);
    } else {
        decimal_is_digits(n / 10);
        digit_value_of_digit(n % 10);
        let higher = decimal(n / 10);
        assert(decimal(n) == higher.push(digit(n % 10)));
        assert(decimal(n)[0] == higher[0]);
        if n / 10 < 10 {
            assert(higher[0] == digit(n / 10));
        }
        assert forall|i: int| 0 <= i < decimal(n).len() implies is_digit(
            #[trigger] decimal(n)[i],
        ) by {
            if i < higher.len() {
                assert(decimal(n)[i] == higher[i]);
            }
        }
    }
}

/// Reading a number back from its decimal text gives the number: no two
/// numbers share a text.
pub proof fn decimal_round_trip(n: nat)
    ensures
        decimal_value(decimal(n)) == n,
    decreases n,
{
    if n < 10 {
        digit_value_of_digit(n);
        let text = decimal(n);
        assert(text.drop_last() =~= Seq::<char>::empty());
        assert(decimal_value(text.drop_last()) == 0);
    } else {
        decimal_round_trip(n / 10);
        digit_value_of_digit(n % 10);
        let text = decimal(n);
        assert(text.drop_last() =~= decimal(n / 10));
        assert(text.last() == digit(n % 10));
    }
}

/// The shape of every line: it opens with the key `level` and one of the
/// five level names, its `ts` is a run of decimal digits that reads back as
/// the time, and it closes with the payload and a brace.
pub proof fn line_has_three_keys(level: Level, ts: nat, body: Seq<char>)
    ensures
        ("{\"level\":\""@ + level.name() + "\",\"ts\":"@).is_prefix_of(line_of(level, ts, body)),
        (",\"msg\":"@ + body + "}"@).is_suffix_of(line_of(level, ts, body)),
        level.name() == "Trace"@ || level.name() == "Debug"@ || level.name() == "Info"@
            || level.name() == "Warn"@ || level.name() == "Error"@,
        decimal(ts).len() >= 1,
        forall|i: int| 0 <= i < decimal(ts).len() ==> is_digit(#[trigger] decimal(ts)[i]),
        decimal_value(decimal(ts)) == ts,
{
    decimal_is_digits(ts);
    decimal_round_trip(ts);
    let head = "{\"level\":\""@ + level.name() + "\",\"ts\":"@;
    let tail = ",\"msg\":"@ + body + "}"@;
    let line = line_of(level, ts, body);
    assert(line =~= head + (decimal(ts) + tail));
    assert(line.subrange(0, head.len() as int) =~= head);
    assert(line =~= (head + decimal(ts)) + tail);
    assert(line.subrange(line.len() - tail.len(), line.len() as int) =~= tail);
}

/// Two texts without a line break make one without a line break.
pub proof fn one_line_joined(left: Seq<char>, right: Seq<char>)
    requires
        is_one_line(left),
        is_one_line(right),
    ensures
        is_one_line(left + right),
{
    let whole = left + right;
    assert forall|i: int| 0 <= i < whole.len() implies (#[trigger] whole[i]) as u32 >= 0x20 by {
        if i < left.len() {
            assert(whole[i] == left[i]);
        } else {
            assert(whole[i] == right[i - left.len()]);
        }
    }
}

/// A line holds no line break, nor any other control character, if the
/// JSON text of its payload holds none.
pub proof fn line_is_one_line(level: Level, ts: nat, body: Seq<char>)
    requires
        is_one_line(body),
    ensures
        is_one_line(line_of(level, ts, body)),
{
    reveal_strlit("{\"level\":\"");
    reveal_strlit("\",\"ts\":");
    reveal_strlit(",\"msg\":");
    reveal_strlit("}");
    reveal_strlit("Trace");
    reveal_strlit("Debug");
    reveal_strlit("Info");
    reveal_strlit("Warn");
    reveal_strlit("Error");
    decimal_is_digits(ts);
    let number = decimal(ts);
    assert forall|i: int| 0 <= i < number.len() implies (#[trigger] number[i]) as u32 >= 0x20 by {
        let d = choose|d: nat| d < 10 && number[i] == #[trigger] digit(d);
        assert(number[i] == digit(d));
    }
    let a = "{\"level\":\""@;
    let b = a + level.name();
    let c = b + "\",\"ts\":"@;
    let d = c + number;
    let e = d + ",\"msg\":"@;
    let f = e + body;
    assert(is_one_line(a));
    assert(is_one_line(level.name()));
    one_line_joined(a, level.name());
    assert(is_one_line("\",\"ts\":"@));
    one_line_joined(b, "\",\"ts\":"@);
    one_line_joined(c, number);
    assert(is_one_line(",\"msg\":"@));
    one_line_joined(d, ",\"msg\":"@);
    one_line_joined(e, body);
    assert(is_one_line("}"@));
    one_line_joined(f, "}"@);
}

/// A diagnostic payload always begins with the words `Marshal Error: `.
pub proof fn diagnostic_carries_marker(description: Seq<char>)
    ensures
        "Marshal Error: "@.is_prefix_of(diagnostic_of(description)),
        diagnostic_of(description).len() == "Marshal Error: "@.len() + description.len(),
        diagnostic_of(description).skip("Marshal Error: "@.len() as int) == description,
{
    let marker = "Marshal Error: "@;
    let whole = diagnostic_of(description);
    assert(whole.subrange(0, marker.len() as int) =~= marker);
    assert(whole.skip(marker.len() as int) =~= description);
}

/// Whether `body` is a JSON string on one line that opens with the words
/// `Marshal Error: `.
pub open spec fn is_diagnostic_body(body: Seq<char>) -> bool {
    &&& is_one_line(body)
    &&& body.len() >= "Marshal Error: "@.len() + 2
    &&& body.first() == '"'
    &&& body.last() == '"'
    &&& body.subrange(1, 1 + "Marshal Error: "@.len() as int) == "Marshal Error: "@
}

/// The JSON text of a diagnostic payload is a string that opens with the
/// words `Marshal Error: `, whatever the description holds: none of these
/// words needs an escape.
pub proof fn diagnostic_keeps_marker(description: Seq<char>, body: Seq<char>)
    requires
        quotes(body, diagnostic_of(description)),
    ensures
        is_diagnostic_body(body),
{
    reveal_strlit("Marshal Error: ");
    let marker = "Marshal Error: "@;
    let text = diagnostic_of(description);
    let n = marker.len() as int;
    assert forall|i: int| 0 <= i < n implies is_plain(#[trigger] text[i]) by {
        assert(text[i] == marker[i]);
    }
    assert(text.subrange(0, n) =~= marker);
    assert(body.subrange(1, n + 1) == text.subrange(0, n));
}

fn digit_text(d: u128) -> (r: &'static str)
    requires
        d < 10,
    ensures
        r@ == seq![digit(d as nat)],
{
    proof {
        reveal_strlit("0");
        reveal_strlit("1");
        reveal_strlit("2");
        reveal_strlit("3");
        reveal_strlit("4");
        reveal_strlit("5");
        reveal_strlit("6");
        reveal_strlit("7");
        reveal_strlit("8");
        reveal_strlit("9");
    }
    let r = if d == 0 {
        "0"
    } else if d == 1 {
        "1"
    } else if d == 2 {
        "2"
    } else if d == 3 {
        "3"
    } else if d == 4 {
        "4"
    } else if d == 5 {
        "5"
    } else if d == 6 {
        "6"
    } else if d == 7 {
        "7"
    } else if d == 8 {
        "8"
    } else {
        "9"
    };
    assert(r@ =~= seq![digit(d as nat)]);
    r
}

/// Writes `n` in decimal.
pub fn decimal_text(n: u128) -> (out: String)
    ensures
        out@ == decimal(n as nat),
{
    let mut rest: u128 = n / 10;
    let mut out = String::from_str(digit_text(n % 10));
    proof {
        if n >= 10 {
            assert(decimal(n as nat) =~= decimal(rest as nat) + out@);
        }
    }
    while rest > 0
        invariant
            rest == 0 ==> out@ == decimal(n as nat),
            rest > 0 ==> decimal(n as nat) == decimal(rest as nat) + out@,
        decreases rest,
    {
        let d: u128 = rest % 10;
        let higher: u128 = rest / 10;
        let longer = String::from_str(digit_text(d)).concat(out.as_str());
        proof {
            if rest < 10 {
                assert(longer@ =~= decimal(rest as nat) + out@);
            } else {
                assert(decimal(rest as nat) + out@ =~= decimal(higher as nat) + longer@);
            }
        }
        out = longer;
        rest = higher;
    }
    out
}

/// Frames one record as a line around the JSON text of its payload.
pub fn compose(level: Level, ts: u128, body: &str) -> (line: String)
    ensures
        line@ == line_of(level, ts as nat, body@),
{
    let mut line = String::from_str("{\"level\":\"");
    line.append(Msg::level_to_string(level));
    line.append("\",\"ts\":");
    let number = decimal_text(ts);
    line.append(number.as_str());
    line.append(",\"msg\":");
    line.append(body);
    line.append("}");
    line
}

/// The text of the diagnostic payload for a failure described by
/// `description`: the words `Marshal Error: ` and then the description.
pub fn diagnostic_text(description: &str) -> (text: String)
    ensures
        text@ == diagnostic_of(description@),
{
    String::from_str("Marshal Error: ").concat(description)
}

} // verus!
