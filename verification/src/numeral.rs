//! Decimal numerals: reading an integer out of text, and writing one down.

use vstd::prelude::*;
use vstd::string::*;

verus! {

/// The largest magnitude that a numeral may have to be read as an integer.
pub const MAX_MAGNITUDE: u64 = 0xFFFF_FFFF;

/// The codes of the characters that a numeral is made of.
const MINUS: u8 = 45;

const PLUS: u8 = 43;

const ZERO: u8 = 48;

const NINE: u8 = 57;

/// Whether `c` is one of the ten decimal digits.
pub open spec fn is_digit(c: char) -> bool {
    '0' <= c && c <= '9'
}

/// The number that the digit `c` stands for.
pub open spec fn digit_value(c: char) -> int {
    c as int - 48
}

/// Whether every character of `s` is a decimal digit.
pub open spec fn all_digits(s: Seq<char>) -> bool {
    forall|i: int| 0 <= i < s.len() ==> is_digit(#[trigger] s[i])
}

/// The number that a run of digits denotes, the leftmost digit weighing most.
pub open spec fn digits_value(s: Seq<char>) -> int
    decreases s.len(),
{
    if s.len() == 0 {
        0
    } else {
        10 * digits_value(s.drop_last()) + digit_value(s.last())
    }
}

/// Whether `s` opens with a sign.
pub open spec fn has_sign(s: Seq<char>) -> bool {
    s.len() > 0 && (s[0] == '-' || s[0] == '+')
}

/// What is left of `s` once a leading sign is taken off.
pub open spec fn unsigned_part(s: Seq<char>) -> Seq<char> {
    if has_sign(s) {
        s.subrange(1, s.len() as int)
    } else {
        s
    }
}

/// The integer that `s` denotes: an optional sign, then one or more digits
/// whose value is at most `MAX_MAGNITUDE`. Any other text denotes none.
pub open spec fn integer_of(s: Seq<char>) -> Option<int> {
    let digits = unsigned_part(s);
    if digits.len() > 0 && all_digits(digits) && digits_value(digits) <= MAX_MAGNITUDE {
        if s[0] == '-' {
            Some(-digits_value(digits))
        } else {
            Some(digits_value(digits))
        }
    } else {
        None
    }
}

/// A run of digits is worth at least as much as any of its prefixes.
proof fn lemma_prefix_value(s: Seq<char>, k: int)
    requires
        all_digits(s),
        0 <= k <= s.len(),
    ensures
        0 <= digits_value(s.take(k)) <= digits_value(s),
    decreases s.len() - k,
{
    if k == s.len() {
        assert(s.take(k) =~= s);
        lemma_value_not_negative(s);
    } else {
        lemma_prefix_value(s, k + 1);
        let longer = s.take(k + 1);
        assert(longer.drop_last() =~= s.take(k));
        assert(longer.last() == s[k]);
        assert(is_digit(s[k]));
        lemma_value_not_negative(s.take(k));
    }
}

/// A run of digits never denotes a negative number.
proof fn lemma_value_not_negative(s: Seq<char>)
    requires
        all_digits(s),
    ensures
        0 <= digits_value(s),
    decreases s.len(),
{
    if s.len() > 0 {
        assert(is_digit(s[s.len() - 1]));
        lemma_value_not_negative(s.drop_last());
    }
}

/// An integer that a text denotes lies no further from zero than
/// `MAX_MAGNITUDE`.
pub proof fn lemma_integer_in_range(s: Seq<char>)
    ensures
        integer_of(s) matches Some(v) ==> -MAX_MAGNITUDE <= v <= MAX_MAGNITUDE,
{
    if all_digits(unsigned_part(s)) {
        lemma_value_not_negative(unsigned_part(s));
    }
}

/// Reads `text` as an integer. The answer is `Some` exactly when `text` is an
/// optional sign followed by digits worth at most `MAX_MAGNITUDE`.
pub fn parse_integer(text: &str) -> (value: Option<i64>)
    ensures
        match value {
            Some(v) => integer_of(text@) == Some(v as int) && -MAX_MAGNITUDE <= v
                <= MAX_MAGNITUDE,
            None => integer_of(text@) is None,
        },
{
    if !text.is_ascii() {
        proof {
            let s = text@;
            let bad = choose|i: int| 0 <= i < s.len() && !('\0' <= #[trigger] s[i] <= '\u{7f}');
            if has_sign(s) {
                if bad > 0 {
                    assert(unsigned_part(s)[bad - 1] == s[bad]);
                }
            }
        }
        return None;
    }
    let length = text.unicode_len();
    if length == 0 {
        return None;
    }
    let first = text.get_ascii(0);
    let negative = first == MINUS;
    let start: usize = if first == MINUS || first == PLUS {
        1
    } else {
        0
    };
    if start == length {
        return None;
    }
    let ghost digits = unsigned_part(text@);
    let mut total: u64 = 0;
    let mut at: usize = start;
    while at < length
        invariant
            text.is_ascii(),
            length == text@.len(),
            start <= at <= length,
            start == if has_sign(text@) { 1int } else { 0int },
            digits == unsigned_part(text@),
            all_digits(digits.take(at - start)),
            total == digits_value(digits.take(at - start)),
            total <= MAX_MAGNITUDE,
        decreases length - at,
    {
        let byte = text.get_ascii(at);
        assert(digits[at - start] == text@[at as int]);
        if byte < ZERO || byte > NINE {
            assert(!is_digit(digits[at - start]));
            return None;
        }
        let ghost longer = digits.take(at - start + 1);
        assert(longer.drop_last() =~= digits.take(at - start));
        assert(longer.last() == digits[at - start]);
        assert(all_digits(longer)) by {
            assert forall|i: int| 0 <= i < longer.len() implies is_digit(#[trigger] longer[i]) by {
                if i < at - start {
                    assert(longer[i] == digits.take(at - start)[i]);
                }
            }
        }
        total = total * 10 + (byte - ZERO) as u64;
        if total > MAX_MAGNITUDE {
            proof {
                if all_digits(digits) {
                    lemma_prefix_value(digits, at - start + 1);
                }
            }
            return None;
        }
        at += 1;
    }
    assert(digits.take(at - start) =~= digits);
    if negative {
        Some(-(total as i64))
    } else {
        Some(total as i64)
    }
}

/// The character that writes the digit `d`.
pub open spec fn digit_char(d: int) -> char {
    (d + 48) as char
}

/// `n` in decimal digits, without sign or padding.
pub open spec fn decimal(n: nat) -> Seq<char>
    decreases n,
{
    if n < 10 {
        seq![digit_char(n as int)]
    } else {
        decimal(n / 10).push(digit_char((n % 10) as int))
    }
}

/// A number written in decimal digits is made of digits alone and denotes
/// that number.
pub proof fn lemma_decimal_denotes(n: nat)
    ensures
        decimal(n).len() > 0,
        all_digits(decimal(n)),
        digits_value(decimal(n)) == n,
    decreases n,
{
    if n < 10 {
        assert(decimal(n).drop_last() =~= Seq::<char>::empty());
        assert(digits_value(decimal(n).drop_last()) == 0);
    } else {
        lemma_decimal_denotes(n / 10);
        let shorter = decimal(n / 10);
        let last = digit_char((n % 10) as int);
        assert(decimal(n).drop_last() =~= shorter);
        assert(decimal(n).last() == last);
        assert forall|i: int| 0 <= i < decimal(n).len() implies is_digit(
            #[trigger] decimal(n)[i],
        ) by {
            if i < shorter.len() {
                assert(decimal(n)[i] == shorter[i]);
            }
        }
    }
}

/// What is written of a number up to `MAX_MAGNITUDE` is read back as that
/// number.
pub proof fn lemma_decimal_reads_back(n: nat)
    requires
        n <= MAX_MAGNITUDE,
    ensures
        integer_of(decimal(n)) == Some(n as int),
{
    lemma_decimal_denotes(n);
    assert(is_digit(decimal(n)[0]));
}

/// The three digits of a number below a thousand, zeros included.
pub open spec fn three_digits(n: nat) -> Seq<char> {
    seq![
        digit_char((n / 100 % 10) as int),
        digit_char((n / 10 % 10) as int),
        digit_char((n % 10) as int),
    ]
}

/// `n` in decimal digits with a comma before every group of three digits,
/// counted from the right: 30123456 reads "30,123,456".
pub open spec fn grouped(n: nat) -> Seq<char>
    decreases n,
{
    if n < 1000 {
        decimal(n)
    } else {
        grouped(n / 1000) + seq![','] + three_digits(n % 1000)
    }
}

/// A number of hundredths written with a decimal point and two places:
/// 4491 reads "44.91", and 5 reads "0.05".
pub open spec fn two_places(hundredths: nat) -> Seq<char> {
    decimal(hundredths / 100) + seq![
        '.',
        digit_char((hundredths / 10 % 10) as int),
        digit_char((hundredths % 10) as int),
    ]
}

/// An integer written with its sign in front, `+` for zero and above.
pub open spec fn signed_decimal(v: int) -> Seq<char> {
    if v < 0 {
        seq!['-'] + decimal((-v) as nat)
    } else {
        seq!['+'] + decimal(v as nat)
    }
}

/// A signed number of hundredths written with two places; only a negative
/// one carries a sign.
pub open spec fn signed_two_places(hundredths: int) -> Seq<char> {
    if hundredths < 0 {
        seq!['-'] + two_places((-hundredths) as nat)
    } else {
        two_places(hundredths as nat)
    }
}

/// The one-character text of the digit `d`.
fn digit_text(d: u64) -> (text: &'static str)
    requires
        d < 10,
    ensures
        text@ == seq![digit_char(d as int)],
{
    proof {
        reveal_strlit("0");
        reveal_strlit("1");
        reveal_strlit("2");
        reveal_strlit("3");
        reveal_strlit("4");
        reveal_strlit("5");
        reveal_strlit("6");
        reveal_strlit("7");
        reveal_strlit("8");
        reveal_strlit("9");
    }
    let text = match d {
        0 => "0",
        1 => "1",
        2 => "2",
        3 => "3",
        4 => "4",
        5 => "5",
        6 => "6",
        7 => "7",
        8 => "8",
        _ => "9",
    };
    assert(text@ =~= seq![digit_char(d as int)]);
    text
}

/// Appends `n` in decimal digits to `out`.
pub fn write_decimal(out: &mut String, n: u64)
    ensures
        final(out)@ == old(out)@ + decimal(n as nat),
    decreases n,
{
    if n >= 10 {
        write_decimal(out, n / 10);
    }
    out.append(digit_text(n % 10));
    assert(final(out)@ =~= old(out)@ + decimal(n as nat));
}

/// Appends `n` to `out` with a comma before every group of three digits.
pub fn write_grouped(out: &mut String, n: u64)
    ensures
        final(out)@ == old(out)@ + grouped(n as nat),
    decreases n,
{
    if n < 1000 {
        write_decimal(out, n);
    } else {
        write_grouped(out, n / 1000);
        proof {
            reveal_strlit(",");
        }
        out.append(",");
        let low: u64 = n % 1000;
        out.append(digit_text(low / 100 % 10));
        out.append(digit_text(low / 10 % 10));
        out.append(digit_text(low % 10));
        assert(final(out)@ =~= old(out)@ + grouped(n as nat));
    }
}

/// Appends a number of hundredths to `out`, written with two places.
pub fn write_two_places(out: &mut String, hundredths: u64)
    ensures
        final(out)@ == old(out)@ + two_places(hundredths as nat),
{
    write_decimal(out, hundredths / 100);
    proof {
        reveal_strlit(".");
    }
    out.append(".");
    out.append(digit_text(hundredths / 10 % 10));
    out.append(digit_text(hundredths % 10));
    assert(final(out)@ =~= old(out)@ + two_places(hundredths as nat));
}

/// The distance of `v` from zero.
pub fn magnitude(v: i64) -> (m: u64)
    ensures
        m == if v < 0 { -v } else { v as int },
{
    if v < 0 {
        (-(v + 1)) as u64 + 1
    } else {
        v as u64
    }
}

/// Appends `v` to `out` with its sign in front, `+` for zero and above.
pub fn write_signed_decimal(out: &mut String, v: i64)
    ensures
        final(out)@ == old(out)@ + signed_decimal(v as int),
{
    proof {
        reveal_strlit("-");
        reveal_strlit("+");
    }
    if v < 0 {
        out.append("-");
    } else {
        out.append("+");
    }
    write_decimal(out, magnitude(v));
    assert(final(out)@ =~= old(out)@ + signed_decimal(v as int));
}

/// Appends a signed number of hundredths to `out`, written with two places.
pub fn write_signed_two_places(out: &mut String, hundredths: i64)
    ensures
        final(out)@ == old(out)@ + signed_two_places(hundredths as int),
{
    if hundredths < 0 {
        proof {
            reveal_strlit("-");
        }
        out.append("-");
    }
    write_two_places(out, magnitude(hundredths));
    assert(final(out)@ =~= old(out)@ + signed_two_places(hundredths as int));
}

/// Whether a text holds no line break.
pub open spec fn is_one_line(s: Seq<char>) -> bool {
    forall|i: int| 0 <= i < s.len() ==> #[trigger] s[i] != '\n'
}

/// Two texts without a line break make one without a line break.
pub proof fn lemma_one_line_joined(a: Seq<char>, b: Seq<char>)
    requires
        is_one_line(a),
        is_one_line(b),
    ensures
        is_one_line(a + b),
{
    assert forall|i: int| 0 <= i < (a + b).len() implies #[trigger] (a + b)[i] != '\n' by {
        if i < a.len() {
            assert((a + b)[i] == a[i]);
        } else {
            assert((a + b)[i] == b[i - a.len()]);
        }
    }
}

/// No numeral holds a line break, however it is written.
pub proof fn lemma_numerals_are_one_line(n: nat, v: int)
    ensures
        is_one_line(decimal(n)),
        is_one_line(grouped(n)),
        is_one_line(two_places(n)),
        is_one_line(signed_decimal(v)),
        is_one_line(signed_two_places(v)),
{
    lemma_decimal_is_one_line(n);
    lemma_grouped_is_one_line(n);
    lemma_decimal_is_one_line(n / 100);
    lemma_one_line_joined(
        decimal(n / 100),
        seq!['.', digit_char((n / 10 % 10) as int), digit_char((n % 10) as int)],
    );
    let distance = (if v < 0 { -v } else { v }) as nat;
    lemma_decimal_is_one_line(distance);
    lemma_decimal_is_one_line(distance / 100);
    lemma_one_line_joined(
        decimal(distance / 100),
        seq![
            '.',
            digit_char((distance / 10 % 10) as int),
            digit_char((distance % 10) as int),
        ],
    );
    lemma_one_line_joined(seq!['-'], decimal(distance));
    lemma_one_line_joined(seq!['+'], decimal(distance));
    lemma_one_line_joined(seq!['-'], two_places(distance));
}

/// A number written in decimal digits holds no line break.
proof fn lemma_decimal_is_one_line(n: nat)
    ensures
        is_one_line(decimal(n)),
{
    lemma_decimal_denotes(n);
    assert forall|i: int| 0 <= i < decimal(n).len() implies #[trigger] decimal(n)[i] != '\n' by {
        assert(is_digit(decimal(n)[i]));
    }
}

/// A number written in groups of three digits holds no line break.
proof fn lemma_grouped_is_one_line(n: nat)
    ensures
        is_one_line(grouped(n)),
    decreases n,
{
    if n < 1000 {
        lemma_decimal_is_one_line(n);
    } else {
        lemma_grouped_is_one_line(n / 1000);
        lemma_one_line_joined(grouped(n / 1000), seq![',']);
        lemma_one_line_joined(grouped(n / 1000) + seq![','], three_digits(n % 1000));
    }
}

} // verus!
