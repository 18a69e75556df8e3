//! Text: optional, and of decimal numbers.

use vstd::prelude::*;

verus! {

/// The text of an optional string.
pub open spec fn optional_text(text: Option<String>) -> Option<Seq<char>> {
    match text {
        Some(text) => Some(text@),
        None => None,
    }
}

/// A decimal digit.
pub open spec fn is_digit(c: char) -> bool {
    '0' <= c <= '9'
}

/// The number that a decimal digit stands for.
pub open spec fn digit_value(c: char) -> nat {
    (c as u32 - '0' as u32) as nat
}

/// The number that a row of decimal digits stands for.
pub open spec fn digits_value(digits: Seq<char>) -> nat
    decreases digits.len(),
{
    if digits.len() == 0 {
        0
    } else {
        digits_value(digits.drop_last()) * 10 + digit_value(digits.last())
    }
}

/// A row of at least one decimal digit.
pub open spec fn all_digits(text: Seq<char>) -> bool {
    text.len() > 0 && forall|i: int| 0 <= i < text.len() ==> is_digit(#[trigger] text[i])
}

/// The text without the sign in front of it, if it has one.
pub open spec fn unsigned_part(text: Seq<char>) -> Seq<char> {
    if text.len() > 0 && (text[0] == '-' || text[0] == '+') {
        text.skip(1)
    } else {
        text
    }
}

/// The number that the text denotes: decimal digits behind an optional sign.
pub open spec fn signed_value(text: Seq<char>) -> Option<int> {
    if !all_digits(unsigned_part(text)) {
        None
    } else if text[0] == '-' {
        Some(-(digits_value(unsigned_part(text)) as int))
    } else {
        Some(digits_value(unsigned_part(text)) as int)
    }
}

/// The `i32` that the text denotes, if it denotes a number and the number is
/// one.
pub open spec fn i32_value(text: Seq<char>) -> Option<i32> {
    match signed_value(text) {
        Some(value) => if i32::MIN <= value <= i32::MAX {
            Some(value as i32)
        } else {
            None
        },
        None => None,
    }
}

/// One more digit makes a number ten times as large, and adds the digit.
proof fn lemma_digits_value_push(digits: Seq<char>, c: char)
    ensures
        digits_value(digits.push(c)) == digits_value(digits) * 10 + digit_value(c),
{
    assert(digits.push(c).drop_last() =~= digits);
}

/// Reads a number: decimal digits behind an optional sign, within the range of
/// `i32`.
pub fn parse_i32(text: &str) -> (r: Option<i32>)
    ensures
        r == i32_value(text@),
{
    // No digit is added to a value that is beyond this already.
    let bound: i64 = 2_147_483_648;
    let mut negative = false;
    let mut value: i64 = 0;
    let mut any_digit = false;
    let mut only_digits = true;
    let mut first = true;
    for c in it: text.chars()
        invariant
            it.seq() == text@,
            bound == 2_147_483_648,
            first == (it.index() == 0),
            negative == (it.index() > 0 && text@[0] == '-'),
            any_digit ==> unsigned_part(text@.take(it.index())).len() > 0,
            only_digits && !any_digit ==> unsigned_part(text@.take(it.index())).len() == 0,
            only_digits == (forall|i: int|
                0 <= i < unsigned_part(text@.take(it.index())).len() ==> is_digit(
                    #[trigger] unsigned_part(text@.take(it.index()))[i],
                )),
            0 <= value <= 10 * bound + 9,
            only_digits && value <= bound ==> value == digits_value(
                unsigned_part(text@.take(it.index())),
            ),
            only_digits && value > bound ==> digits_value(unsigned_part(text@.take(it.index())))
                > bound,
    {
        let ghost n = it.index();
        let ghost before = unsigned_part(text@.take(n));
        let ghost after = unsigned_part(text@.take(n + 1));
        assert(text@.take(n + 1) =~= text@.take(n).push(c));
        if first && (c == '-' || c == '+') {
            negative = c == '-';
            assert(after =~= Seq::<char>::empty());
        } else {
            proof {
                assert(after =~= before.push(c));
                lemma_digits_value_push(before, c);
                assert(forall|i: int| 0 <= i < before.len() ==> #[trigger] after[i] == before[i]);
                assert(after[before.len() as int] == c);
                if !only_digits {
                    let i = choose|i: int| 0 <= i < before.len() && !is_digit(#[trigger] before[i]);
                    assert(!is_digit(after[i]));
                }
            }
            if '0' <= c && c <= '9' {
                any_digit = true;
                if value <= bound {
                    value = value * 10 + (c as u32 - '0' as u32) as i64;
                }
            } else {
                only_digits = false;
            }
        }
        first = false;
    }
    assert(text@.take(text@.len() as int) =~= text@);
    if !only_digits || !any_digit {
        None
    } else if negative {
        if value <= bound {
            Some((-value) as i32)
        } else {
            None
        }
    } else {
        if value < bound {
            Some(value as i32)
        } else {
            None
        }
    }
}

/// The decimal digit for a number below ten.
pub open spec fn digit(n: nat) -> char {
    ('0' as u32 + n) as char
}

/// The shortest decimal text of a number.
pub open spec fn decimal(n: nat) -> Seq<char>
    decreases n,
{
    if n < 10 {
        seq![digit(n)]
    } else {
        decimal(n / 10).push(digit(n % 10))
    }
}

/// The numbers as decimal text, with a comma and a space between any two.
pub open spec fn comma_separated(bytes: Seq<u8>) -> Seq<char>
    decreases bytes.len(),
{
    if bytes.len() == 0 {
        seq![]
    } else if bytes.len() == 1 {
        decimal(bytes[0] as nat)
    } else {
        comma_separated(bytes.drop_last()) + seq![',', ' '] + decimal(bytes.last() as nat)
    }
}

/// The numbers as decimal text in square brackets.
pub open spec fn list_text(bytes: Seq<u8>) -> Seq<char> {
    seq!['['] + comma_separated(bytes) + seq![']']
}

/// The decimal text of a number denotes that number.
pub proof fn law_decimal_denotes_number(n: nat)
    ensures
        all_digits(decimal(n)),
        digits_value(decimal(n)) == n,
    decreases n,
{
    if n < 10 {
        assert(decimal(n) =~= Seq::<char>::empty().push(digit(n)));
        lemma_digits_value_push(Seq::<char>::empty(), digit(n));
    } else {
        law_decimal_denotes_number(n / 10);
        lemma_digits_value_push(decimal(n / 10), digit(n % 10));
    }
}

/// Writes a decimal digit at the end of a text.
fn append_digit(text: &mut String, n: u8)
    requires
        n < 10,
    ensures
        final(text)@ == old(text)@.push(digit(n as nat)),
{
    proof {
        reveal_strlit("0");
        reveal_strlit("1");
        reveal_strlit("2");
        reveal_strlit("3");
        reveal_strlit("4");
        reveal_strlit("5");
        reveal_strlit("6");
        reveal_strlit("7");
        reveal_strlit("8");
        reveal_strlit("9");
    }
    let numeral: &str = match n {
        0 => "0",
        1 => "1",
        2 => "2",
        3 => "3",
        4 => "4",
        5 => "5",
        6 => "6",
        7 => "7",
        8 => "8",
        _ => "9",
    };
    text.append(numeral);
    assert(text@ =~= old(text)@.push(digit(n as nat)));
}

/// Writes the decimal text of a number at the end of a text.
fn append_decimal(text: &mut String, n: u8)
    ensures
        final(text)@ == old(text)@ + decimal(n as nat),
    decreases n,
{
    if n < 10 {
        append_digit(text, n);
    } else {
        append_decimal(text, n / 10);
        append_digit(text, n % 10);
    }
    assert(text@ =~= old(text)@ + decimal(n as nat));
}

/// Writes numbers in square brackets at the end of a text.
pub fn append_list(text: &mut String, bytes: &[u8])
    ensures
        final(text)@ == old(text)@ + list_text(bytes@),
{
    proof {
        reveal_strlit("[");
        reveal_strlit(", ");
        reveal_strlit("]");
    }
    text.append("[");
    assert(text@ =~= old(text)@ + seq!['['] + comma_separated(bytes@.take(0)));
    let mut i: usize = 0;
    while i < bytes.len()
        invariant
            i <= bytes@.len(),
            text@ == old(text)@ + seq!['['] + comma_separated(bytes@.take(i as int)),
            ", "@ == seq![',', ' '],
        decreases bytes@.len() - i,
    {
        assert(bytes@.take(i + 1).drop_last() =~= bytes@.take(i as int));
        if i > 0 {
            text.append(", ");
        }
        append_decimal(text, bytes[i]);
        i += 1;
        assert(text@ =~= old(text)@ + seq!['['] + comma_separated(bytes@.take(i as int)));
    }
    assert(bytes@.take(i as int) =~= bytes@);
    text.append("]");
    assert(text@ =~= old(text)@ + list_text(bytes@));
}

/// The text of an optional string is all of the string's text.
pub proof fn law_optional_text(text: String)
    ensures
        optional_text(Some(text)) == Some(text@),
        optional_text(None) == None::<Seq<char>>,
{
}

/// No digits stand for zero; one more digit stands for itself and makes what is
/// before it ten times as much.
pub proof fn law_digits_are_decimal(digits: Seq<char>, c: char)
    requires
        '0' <= c <= '9',
    ensures
        digits_value(Seq::empty()) == 0,
        digits_value(digits.push(c)) == digits_value(digits) * 10 + (c as u32 - '0' as u32),
{
    lemma_digits_value_push(digits, c);
}

/// The decimal text of a number below ten is one digit; that of another is the
/// text of its tenth part with the digit of the rest behind it.
pub proof fn law_decimal_digits(n: nat)
    ensures
        n < 10 ==> decimal(n) == seq![(48 + n) as char],
        n >= 10 ==> decimal(n) == decimal(n / 10).push((48 + n % 10) as char),
{
}

/// Digits are read as the number that they stand for, and so are digits behind a
/// plus; digits behind a minus are read as its negative. A number beyond the
/// range of `i32` is not read.
pub proof fn law_digits_are_read(digits: Seq<char>, text: &str, r: Option<i32>)
    requires
        digits.len() > 0,
        forall|i: int| 0 <= i < digits.len() ==> '0' <= #[trigger] digits[i] <= '9',
        call_ensures(parse_i32, (text,), r),
    ensures
        text@ == digits || text@ == seq!['+'] + digits ==> r == if digits_value(digits)
            <= 0x7fff_ffff {
            Some(digits_value(digits) as i32)
        } else {
            None::<i32>
        },
        text@ == seq!['-'] + digits ==> r == if digits_value(digits) <= 0x8000_0000 {
            Some((-digits_value(digits)) as i32)
        } else {
            None::<i32>
        },
{
    assert(is_digit(digits[0]));
    assert(all_digits(digits)) by {
        assert forall|i: int| 0 <= i < digits.len() implies is_digit(#[trigger] digits[i]) by {}
    }
    assert((seq!['+'] + digits).skip(1) =~= digits);
    assert((seq!['-'] + digits).skip(1) =~= digits);
}

/// A text is read as no number if a sign is all that is in it, if there is
/// nothing in it, if something else than a sign or a digit is in front, or if
/// something else than a digit is behind that.
pub proof fn law_other_texts_are_not_read(text: &str, i: int, r: Option<i32>)
    requires
        call_ensures(parse_i32, (text,), r),
        ({
            ||| text@.len() == 0
            ||| text@.len() == 1 && !('0' <= text@[0] <= '9')
            ||| 1 <= i < text@.len() && !('0' <= text@[i] <= '9')
            ||| text@[0] != '+' && text@[0] != '-' && !('0' <= text@[0] <= '9')
        }),
    ensures
        r is None,
{
    let rest = unsigned_part(text@);
    if all_digits(rest) {
        if text@.len() > 0 {
            assert(is_digit(rest[0]));
            if text@[0] == '-' || text@[0] == '+' {
                assert(1 <= i < text@.len() ==> text@[i] == rest[i - 1]);
            } else if 1 <= i < text@.len() {
                assert(is_digit(rest[i]));
            }
        }
    }
}

/// Whatever number is written in decimal, that number is read.
pub proof fn law_written_number_is_read(n: u32, text: &str, r: Option<i32>)
    requires
        n <= 0x7fff_ffff,
        text@ == decimal(n as nat),
        call_ensures(parse_i32, (text,), r),
    ensures
        r == Some(n as i32),
{
    law_decimal_denotes_number(n as nat);
    let digits = decimal(n as nat);
    assert forall|i: int| 0 <= i < digits.len() implies '0' <= #[trigger] digits[i] <= '9' by {
        assert(is_digit(digits[i]));
    }
    law_digits_are_read(digits, text, r);
}

/// A list of octets is written in square brackets, each octet in decimal, with a
/// comma and a space before every octet but the first.
pub proof fn law_list_is_written_out(octets: Seq<u8>, octet: u8)
    ensures
        list_text(Seq::empty()) == seq!['[', ']'],
        list_text(seq![octet]) == seq!['['] + decimal(octet as nat) + seq![']'],
        octets.len() > 0 ==> list_text(octets.push(octet)) == list_text(octets).drop_last()
            + seq![',', ' '] + decimal(octet as nat) + seq![']'],
{
    assert(list_text(Seq::empty()) =~= seq!['[', ']']);
    assert(seq![octet][0] == octet);
    assert(octets.push(octet).drop_last() =~= octets);
    if octets.len() > 0 {
        assert(list_text(octets.push(octet)) =~= list_text(octets).drop_last() + seq![',', ' ']
            + decimal(octet as nat) + seq![']']);
    }
}

} // verus!
