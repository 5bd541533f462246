//! Decimal digits and the English names of months and weekdays.
use vstd::arithmetic::power::pow;
use vstd::prelude::*;

verus! {

/// The ASCII character of a decimal digit.
pub open spec fn digit_char(d: nat) -> char {
    if d == 0 {
        '0'
    } else if d == 1 {
        '1'
    } else if d == 2 {
        '2'
    } else if d == 3 {
        '3'
    } else if d == 4 {
        '4'
    } else if d == 5 {
        '5'
    } else if d == 6 {
        '6'
    } else if d == 7 {
        '7'
    } else if d == 8 {
        '8'
    } else {
        '9'
    }
}

/// The last `w` decimal digits of `n`, with leading zeros.
pub open spec fn padded(n: nat, w: nat) -> Seq<char>
    decreases w,
{
    if w == 0 {
        seq![]
    } else {
        padded(n / 10, (w - 1) as nat).push(digit_char(n % 10))
    }
}

/// The decimal form of `n`, without leading zeros.
pub open spec fn decimal(n: nat) -> Seq<char>
    decreases n,
{
    if n < 10 {
        seq![digit_char(n)]
    } else {
        decimal(n / 10).push(digit_char(n % 10))
    }
}

/// The value of a decimal digit character, if it is one.
pub open spec fn digit_value(c: char) -> Option<nat> {
    if '0' <= c <= '9' {
        Some((c as nat - '0' as nat) as nat)
    } else {
        None
    }
}

/// Whether every character of `s` is a decimal digit.
pub open spec fn all_digits(s: Seq<char>) -> bool {
    forall|k: int| 0 <= k < s.len() ==> #[trigger] digit_value(s[k]) is Some
}

/// The number that the decimal digits `s` write.
pub open spec fn digits_value(s: Seq<char>) -> nat
    decreases s.len(),
{
    if s.len() == 0 {
        0
    } else {
        digits_value(s.drop_last()) * 10 + match digit_value(s.last()) {
            Some(v) => v,
            None => 0,
        }
    }
}

/// Padding keeps the number: the digits of `padded(n, w)` write `n` where it has
/// at most `w` digits, and each of them is a digit character.
pub proof fn lemma_padded_value(n: nat, w: nat)
    requires
        n < pow(10, w),
    ensures
        digits_value(padded(n, w)) == n,
        all_digits(padded(n, w)),
        padded(n, w).len() == w,
    decreases w,
{
    if w == 0 {
        reveal(pow);
    } else {
        reveal(pow);
        let q = n / 10;
        let d = n % 10;
        vstd::arithmetic::div_mod::lemma_fundamental_div_mod(n as int, 10);
        assert(pow(10, w) == 10 * pow(10, (w - 1) as nat));
        assert(q < pow(10, (w - 1) as nat)) by (nonlinear_arith)
            requires
                n == 10 * q + d,
                0 <= d < 10,
                n < 10 * pow(10, (w - 1) as nat),
        ;
        lemma_padded_value(q, (w - 1) as nat);
        lemma_digit_value(d);
        let s = padded(n, w);
        assert(s.drop_last() =~= padded(q, (w - 1) as nat));
        assert forall|k: int| 0 <= k < s.len() implies #[trigger] digit_value(s[k]) is Some by {
            if k < s.len() - 1 {
                assert(s[k] == padded(q, (w - 1) as nat)[k]);
            }
        }
    }
}

/// The digits of `decimal(n)` write `n`; below 100 it has one digit under 10 and two from 10 on.
pub proof fn lemma_decimal_value(n: nat)
    ensures
        digits_value(decimal(n)) == n,
        all_digits(decimal(n)),
        n < 10 ==> decimal(n).len() == 1,
        10 <= n < 100 ==> decimal(n).len() == 2,
    decreases n,
{
    if n < 10 {
        lemma_digit_value(n);
        assert(decimal(n).drop_last() =~= Seq::<char>::empty());
        assert(digits_value(Seq::<char>::empty()) == 0);
    } else {
        vstd::arithmetic::div_mod::lemma_fundamental_div_mod(n as int, 10);
        lemma_decimal_value(n / 10);
        lemma_digit_value(n % 10);
        let s = decimal(n);
        assert(s.drop_last() =~= decimal(n / 10));
        assert forall|k: int| 0 <= k < s.len() implies #[trigger] digit_value(s[k]) is Some by {
            if k < s.len() - 1 {
                assert(s[k] == decimal(n / 10)[k]);
            }
        }
    }
}

/// The powers of ten that the widths of the encodings use.
pub proof fn lemma_pow10_values()
    ensures
        pow(10, 0) == 1,
        pow(10, 1) == 10,
        pow(10, 2) == 100,
        pow(10, 3) == 1000,
        pow(10, 4) == 10000,
        pow(10, 6) == 1_000_000,
        pow(10, 9) == 1_000_000_000,
{
    reveal_with_fuel(pow, 10);
}

/// The digit character of `d` has the value `d`.
pub proof fn lemma_digit_value(d: nat)
    requires
        d < 10,
    ensures
        digit_value(digit_char(d)) == Some(d),
        digit_char(d) != '_' && digit_char(d) != '-',
{
}

/// A number below 100 in two columns, a leading space in place of a leading zero.
pub open spec fn space_padded(n: nat) -> Seq<char> {
    if n < 10 {
        seq![' ', digit_char(n)]
    } else {
        padded(n, 2)
    }
}

/// Appends one decimal digit.
pub fn push_digit(s: &mut String, d: u32)
    requires
        d < 10,
    ensures
        final(s)@ == old(s)@.push(digit_char(d as nat)),
{
    let lit: &str = if d == 0 {
        "0"
    } else if d == 1 {
        "1"
    } else if d == 2 {
        "2"
    } else if d == 3 {
        "3"
    } else if d == 4 {
        "4"
    } else if d == 5 {
        "5"
    } else if d == 6 {
        "6"
    } else if d == 7 {
        "7"
    } else if d == 8 {
        "8"
    } else {
        "9"
    };
    proof {
        reveal_strlit("0");
        reveal_strlit("1");
        reveal_strlit("2");
        reveal_strlit("3");
        reveal_strlit("4");
        reveal_strlit("5");
        reveal_strlit("6");
        reveal_strlit("7");
        reveal_strlit("8");
        reveal_strlit("9");
    }
    s.append(lit);
    assert(final(s)@ =~= old(s)@.push(digit_char(d as nat)));
}

/// Appends the last `w` decimal digits of `n`, with leading zeros.
pub fn push_padded(s: &mut String, n: u32, w: u32)
    ensures
        final(s)@ == old(s)@ + padded(n as nat, w as nat),
    decreases w,
{
    if w == 0 {
        assert(final(s)@ =~= old(s)@ + padded(n as nat, w as nat));
    } else {
        push_padded(s, n / 10, w - 1);
        push_digit(s, n % 10);
        assert(final(s)@ =~= old(s)@ + padded(n as nat, w as nat));
    }
}

/// Appends the decimal form of `n`.
pub fn push_decimal(s: &mut String, n: u32)
    ensures
        final(s)@ == old(s)@ + decimal(n as nat),
    decreases n,
{
    if n < 10 {
        push_digit(s, n);
        assert(final(s)@ =~= old(s)@ + decimal(n as nat));
    } else {
        push_decimal(s, n / 10);
        push_digit(s, n % 10);
        assert(final(s)@ =~= old(s)@ + decimal(n as nat));
    }
}

/// Appends a number below 100 in two columns, space-padded.
pub fn push_space_padded(s: &mut String, n: u32)
    requires
        n < 100,
    ensures
        final(s)@ == old(s)@ + space_padded(n as nat),
{
    if n < 10 {
        s.append(" ");
        push_digit(s, n);
        proof {
            reveal_strlit(" ");
        }
        assert(final(s)@ =~= old(s)@ + space_padded(n as nat));
    } else {
        push_padded(s, n, 2);
    }
}

/// The English name of month `m` (January is 1).
pub open spec fn long_month_name(m: nat) -> Seq<char> {
    if m == 1 {
        "January"@
    } else if m == 2 {
        "February"@
    } else if m == 3 {
        "March"@
    } else if m == 4 {
        "April"@
    } else if m == 5 {
        "May"@
    } else if m == 6 {
        "June"@
    } else if m == 7 {
        "July"@
    } else if m == 8 {
        "August"@
    } else if m == 9 {
        "September"@
    } else if m == 10 {
        "October"@
    } else if m == 11 {
        "November"@
    } else {
        "December"@
    }
}

/// The three-letter English abbreviation of month `m` (January is 1).
pub open spec fn short_month_name(m: nat) -> Seq<char> {
    if m == 1 {
        "Jan"@
    } else if m == 2 {
        "Feb"@
    } else if m == 3 {
        "Mar"@
    } else if m == 4 {
        "Apr"@
    } else if m == 5 {
        "May"@
    } else if m == 6 {
        "Jun"@
    } else if m == 7 {
        "Jul"@
    } else if m == 8 {
        "Aug"@
    } else if m == 9 {
        "Sep"@
    } else if m == 10 {
        "Oct"@
    } else if m == 11 {
        "Nov"@
    } else {
        "Dec"@
    }
}

/// The English name of weekday `w`, counted from Monday as 0.
pub open spec fn long_weekday_name(w: nat) -> Seq<char> {
    if w == 0 {
        "Monday"@
    } else if w == 1 {
        "Tuesday"@
    } else if w == 2 {
        "Wednesday"@
    } else if w == 3 {
        "Thursday"@
    } else if w == 4 {
        "Friday"@
    } else if w == 5 {
        "Saturday"@
    } else {
        "Sunday"@
    }
}

/// The three-letter English abbreviation of weekday `w`, counted from Monday as 0.
pub open spec fn short_weekday_name(w: nat) -> Seq<char> {
    if w == 0 {
        "Mon"@
    } else if w == 1 {
        "Tue"@
    } else if w == 2 {
        "Wed"@
    } else if w == 3 {
        "Thu"@
    } else if w == 4 {
        "Fri"@
    } else if w == 5 {
        "Sat"@
    } else {
        "Sun"@
    }
}

/// The English name of a month.
pub fn long_month(m: u32) -> (r: &'static str)
    requires
        1 <= m <= 12,
    ensures
        r@ == long_month_name(m as nat),
{
    if m == 1 {
        "January"
    } else if m == 2 {
        "February"
    } else if m == 3 {
        "March"
    } else if m == 4 {
        "April"
    } else if m == 5 {
        "May"
    } else if m == 6 {
        "June"
    } else if m == 7 {
        "July"
    } else if m == 8 {
        "August"
    } else if m == 9 {
        "September"
    } else if m == 10 {
        "October"
    } else if m == 11 {
        "November"
    } else {
        "December"
    }
}

/// The three-letter abbreviation of a month.
pub fn short_month(m: u32) -> (r: &'static str)
    requires
        1 <= m <= 12,
    ensures
        r@ == short_month_name(m as nat),
{
    if m == 1 {
        "Jan"
    } else if m == 2 {
        "Feb"
    } else if m == 3 {
        "Mar"
    } else if m == 4 {
        "Apr"
    } else if m == 5 {
        "May"
    } else if m == 6 {
        "Jun"
    } else if m == 7 {
        "Jul"
    } else if m == 8 {
        "Aug"
    } else if m == 9 {
        "Sep"
    } else if m == 10 {
        "Oct"
    } else if m == 11 {
        "Nov"
    } else {
        "Dec"
    }
}

/// The English name of a weekday, counted from Monday as 0.
pub fn long_weekday(w: u32) -> (r: &'static str)
    requires
        w < 7,
    ensures
        r@ == long_weekday_name(w as nat),
{
    if w == 0 {
        "Monday"
    } else if w == 1 {
        "Tuesday"
    } else if w == 2 {
        "Wednesday"
    } else if w == 3 {
        "Thursday"
    } else if w == 4 {
        "Friday"
    } else if w == 5 {
        "Saturday"
    } else {
        "Sunday"
    }
}

/// The three-letter abbreviation of a weekday, counted from Monday as 0.
pub fn short_weekday(w: u32) -> (r: &'static str)
    requires
        w < 7,
    ensures
        r@ == short_weekday_name(w as nat),
{
    if w == 0 {
        "Mon"
    } else if w == 1 {
        "Tue"
    } else if w == 2 {
        "Wed"
    } else if w == 3 {
        "Thu"
    } else if w == 4 {
        "Fri"
    } else if w == 5 {
        "Sat"
    } else {
        "Sun"
    }
}

/// Each full weekday name begins with its three-letter abbreviation.
pub proof fn lemma_weekday_name_starts_with_abbreviation(w: nat)
    requires
        w < 7,
    ensures
        short_weekday_name(w).len() == 3,
        long_weekday_name(w).len() >= 3,
        long_weekday_name(w).subrange(0, 3) == short_weekday_name(w),
{
    reveal_strlit("Monday");
    reveal_strlit("Mon");
    reveal_strlit("Tuesday");
    reveal_strlit("Tue");
    reveal_strlit("Wednesday");
    reveal_strlit("Wed");
    reveal_strlit("Thursday");
    reveal_strlit("Thu");
    reveal_strlit("Friday");
    reveal_strlit("Fri");
    reveal_strlit("Saturday");
    reveal_strlit("Sat");
    reveal_strlit("Sunday");
    reveal_strlit("Sun");
    assert(long_weekday_name(w).subrange(0, 3) =~= short_weekday_name(w));
}

} // verus!
