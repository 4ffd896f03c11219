//! Decimal text for the numbers that a report shows.
//!
//! Readings are kept in thousandths of their unit and are shown with two
//! digits after the decimal point, rounded to the nearest hundredth, a tie
//! going to the even hundredth.

use vstd::prelude::*;

verus! {

/// The character that stands for the digit `d`, for `d` below ten.
pub open spec fn digit_char(d: nat) -> char {
    if d == 0 {
        '0'
    } else if d == 1 {
        '1'
    } else if d == 2 {
        '2'
    } else if d == 3 {
        '3'
    } else if d == 4 {
        '4'
    } else if d == 5 {
        '5'
    } else if d == 6 {
        '6'
    } else if d == 7 {
        '7'
    } else if d == 8 {
        '8'
    } else {
        '9'
    }
}

/// The decimal numeral of `n`, without leading zeros (`0` is "0").
pub open spec fn decimal(n: nat) -> Seq<char>
    decreases n,
{
    if n < 10 {
        seq![digit_char(n)]
    } else {
        decimal(n / 10).push(digit_char(n % 10))
    }
}

/// The number of hundredths nearest to `milli` thousandths. Where two are
/// equally near, the even one.
pub open spec fn hundredths(milli: nat) -> nat {
    let below = milli / 10;
    let rest = milli % 10;
    if rest < 5 || (rest == 5 && below % 2 == 0) {
        below
    } else {
        below + 1
    }
}

/// The text of `milli` thousandths with two digits after the point.
pub open spec fn two_places(milli: nat) -> Seq<char> {
    let h = hundredths(milli);
    decimal(h / 100) + seq!['.', digit_char((h / 10) % 10), digit_char(h % 10)]
}

/// The text that shows an entry of a list with its number: `before`, the
/// numeral of `number`, then `after`.
pub open spec fn numbered(before: Seq<char>, number: nat, after: Seq<char>) -> Seq<char> {
    before + decimal(number) + after
}

/// What each of `lines` holds, in their order.
pub open spec fn text_of(lines: Seq<String>) -> Seq<Seq<char>> {
    lines.map_values(|line: String| line@)
}

/// A numeral never is empty, and each of its characters is a digit.
pub proof fn lemma_decimal_digits(n: nat)
    ensures
        decimal(n).len() >= 1,
        forall|i: int|
            0 <= i < decimal(n).len() ==> '0' <= #[trigger] decimal(n)[i] <= '9',
        n >= 10 ==> decimal(n)[0] != '0',
    decreases n,
{
    if n >= 10 {
        lemma_decimal_digits(n / 10);
    }
}

/// The hundredth that `hundredths` picks lies no farther than half a
/// hundredth from the value, and on a tie it is even.
pub proof fn lemma_hundredths_nearest(milli: nat)
    ensures
        10 * hundredths(milli) - 5 <= milli <= 10 * hundredths(milli) + 5,
        (milli % 10 == 5) ==> hundredths(milli) % 2 == 0,
{
}

fn digit_str(d: u64) -> (s: &'static str)
    requires
        d < 10,
    ensures
        s@ == seq![digit_char(d as nat)],
{
    proof {
        reveal_strlit("0");
        reveal_strlit("1");
        reveal_strlit("2");
        reveal_strlit("3");
        reveal_strlit("4");
        reveal_strlit("5");
        reveal_strlit("6");
        reveal_strlit("7");
        reveal_strlit("8");
        reveal_strlit("9");
    }
    let s = if d == 0 {
        "0"
    } else if d == 1 {
        "1"
    } else if d == 2 {
        "2"
    } else if d == 3 {
        "3"
    } else if d == 4 {
        "4"
    } else if d == 5 {
        "5"
    } else if d == 6 {
        "6"
    } else if d == 7 {
        "7"
    } else if d == 8 {
        "8"
    } else {
        "9"
    };
    assert(s@ =~= seq![digit_char(d as nat)]);
    s
}

/// Appends the decimal numeral of `n` to `out`.
pub fn append_decimal(out: &mut String, n: u64)
    ensures
        final(out)@ == old(out)@ + decimal(n as nat),
    decreases n,
{
    if n >= 10 {
        append_decimal(out, n / 10);
    }
    out.append(digit_str(n % 10));
    proof {
        if n >= 10 {
            assert(out@ =~= old(out)@ + decimal((n / 10) as nat).push(
                digit_char((n % 10) as nat),
            ));
        } else {
            assert(out@ =~= old(out)@ + seq![digit_char(n as nat)]);
        }
    }
}

/// Rounds thousandths to hundredths: to the nearest, a tie to the even one.
pub fn round_to_hundredths(milli: u32) -> (h: u32)
    ensures
        h == hundredths(milli as nat),
{
    let below: u32 = milli / 10;
    let rest: u32 = milli % 10;
    if rest < 5 || (rest == 5 && below % 2 == 0) {
        below
    } else {
        below + 1
    }
}

/// Appends `milli` thousandths to `out`, with two digits after the point.
pub fn append_two_places(out: &mut String, milli: u32)
    ensures
        final(out)@ == old(out)@ + two_places(milli as nat),
{
    let h: u32 = round_to_hundredths(milli);
    append_decimal(out, (h / 100) as u64);
    proof {
        reveal_strlit(".");
    }
    out.append(".");
    out.append(digit_str(((h / 10) % 10) as u64));
    out.append(digit_str((h % 10) as u64));
    assert(out@ =~= old(out)@ + two_places(milli as nat));
}

/// The text of `milli` thousandths with two digits after the point.
pub fn format_two_places(milli: u32) -> (s: String)
    ensures
        s@ == two_places(milli as nat),
{
    let mut s = String::new();
    append_two_places(&mut s, milli);
    assert(s@ =~= two_places(milli as nat));
    s
}

} // verus!
