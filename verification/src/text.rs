//! Decimal numbers as text.

use vstd::prelude::*;

verus! {

/// The character that stands for a decimal digit.
pub open spec fn digit_char(digit: nat) -> char {
    (48 + digit) as char
}

/// A number in decimal notation, without leading zeros.
pub open spec fn decimal(n: nat) -> Seq<char>
    decreases n,
{
    if n < 10 {
        seq![digit_char(n)]
    } else {
        decimal(n / 10).push(digit_char(n % 10))
    }
}

/// Whether a text consists of decimal digits only.
pub open spec fn all_digits(text: Seq<char>) -> bool {
    forall|i: int| 0 <= i < text.len() ==> '0' <= #[trigger] text[i] <= '9'
}

/// The number that a text of decimal digits stands for.
pub open spec fn digits_value(text: Seq<char>) -> nat
    decreases text.len(),
{
    if text.len() == 0 {
        0
    } else {
        digits_value(text.drop_last()) * 10 + (text.last() as nat - 48) as nat
    }
}

/// A text without the plus sign that may stand before a number.
pub open spec fn without_plus(text: Seq<char>) -> Seq<char> {
    if text.len() > 0 && text[0] == '+' {
        text.skip(1)
    } else {
        text
    }
}

/// The size that a text denotes: an optional plus sign, then at least one digit and nothing but
/// digits, for a number that fits.
pub open spec fn parsed_size(text: Seq<char>) -> Option<usize> {
    let digits = without_plus(text);
    if digits.len() > 0 && all_digits(digits) && digits_value(digits) <= usize::MAX {
        Some(digits_value(digits) as usize)
    } else {
        None
    }
}

/// A decimal digit as a text of one character.
fn digit_text(digit: u64) -> (text: &'static str)
    requires
        digit < 10,
    ensures
        text@ == seq![digit_char(digit as nat)],
{
    proof {
        reveal_strlit("0");
        reveal_strlit("1");
        reveal_strlit("2");
        reveal_strlit("3");
        reveal_strlit("4");
        reveal_strlit("5");
        reveal_strlit("6");
        reveal_strlit("7");
        reveal_strlit("8");
        reveal_strlit("9");
    }
    match digit {
        0 => "0",
        1 => "1",
        2 => "2",
        3 => "3",
        4 => "4",
        5 => "5",
        6 => "6",
        7 => "7",
        8 => "8",
        _ => "9",
    }
}

/// Appends a number in decimal notation.
pub fn push_decimal(text: &mut String, n: u64)
    ensures
        final(text)@ == old(text)@ + decimal(n as nat),
    decreases n,
{
    if n >= 10 {
        push_decimal(text, n / 10);
    }
    text.append(digit_text(n % 10));
}

/// Reads a size from a text, or `None` where the text denotes none.
pub fn parse_size(text: &str) -> (size: Option<usize>)
    ensures
        size == parsed_size(text@),
{
    if !text.is_ascii() {
        proof {
            lemma_digits_are_ascii(text@);
        }
        return None;
    }
    let bytes = text.as_bytes();
    let len: usize = bytes.len();
    let start: usize = if len > 0 && bytes[0] == 43u8 {
        1
    } else {
        0
    };
    let ghost digits = without_plus(text@);
    assert(digits =~= text@.skip(start as int));
    if start == len {
        return None;
    }
    let mut value: usize = 0;
    let mut i: usize = start;
    while i < len
        invariant
            start <= i <= len,
            len == bytes@.len(),
            len == text@.len(),
            digits == text@.skip(start as int),
            digits == without_plus(text@),
            digits.len() > 0,
            forall|k: int| 0 <= k < len ==> #[trigger] bytes@[k] == text@[k] as u8,
            forall|k: int| 0 <= k < len ==> '\0' <= #[trigger] text@[k] <= '\u{7f}',
            all_digits(digits.take(i - start)),
            value == digits_value(digits.take(i - start)),
        decreases len - i,
    {
        let byte: u8 = bytes[i];
        let ghost next = digits.take(i - start + 1);
        proof {
            assert(digits[i - start] == text@[i as int]);
            assert(next.drop_last() =~= digits.take(i - start));
            assert(next.last() == text@[i as int]);
        }
        if byte < 48u8 || byte > 57u8 {
            assert(!all_digits(digits));
            return None;
        }
        proof {
            assert(all_digits(next)) by {
                assert forall|k: int| 0 <= k < next.len() implies '0' <= #[trigger] next[k]
                    <= '9' by {
                    if k < next.len() - 1 {
                        assert(next[k] == digits.take(i - start)[k]);
                    } else {
                        assert(next[k] == text@[i as int]);
                        assert(byte == text@[i as int] as u8);
                    }
                }
            }
            lemma_prefix_value(digits, i - start + 1);
        }
        let digit: usize = (byte - 48u8) as usize;
        match value.checked_mul(10) {
            None => {
                return None;
            },
            Some(scaled) => {
                match scaled.checked_add(digit) {
                    None => {
                        return None;
                    },
                    Some(sum) => {
                        value = sum;
                    },
                }
            },
        }
        i = i + 1;
    }
    assert(digits.take(len - start) =~= digits);
    Some(value)
}

/// A text of digits, with or without a plus sign, is ASCII.
proof fn lemma_digits_are_ascii(text: Seq<char>)
    ensures
        all_digits(without_plus(text)) ==> vstd::utf8::is_ascii_chars(text),
{
    if all_digits(without_plus(text)) {
        assert forall|i: int| 0 <= i < text.len() implies '\0' <= #[trigger] text[i]
            <= '\u{7f}' by {
            if text[0] == '+' {
                if i > 0 {
                    assert(without_plus(text)[i - 1] == text[i]);
                }
            } else {
                assert(without_plus(text)[i] == text[i]);
            }
        }
    }
}

/// What the first digits denote is no more than what all of them do.
proof fn lemma_prefix_value(text: Seq<char>, k: int)
    requires
        0 <= k <= text.len(),
    ensures
        digits_value(text.take(k)) <= digits_value(text),
    decreases text.len() - k,
{
    if k == text.len() {
        assert(text.take(k) =~= text);
    } else {
        lemma_prefix_value(text, k + 1);
        assert(text.take(k + 1).drop_last() =~= text.take(k));
    }
}

/// Decimal notation consists of digits, has at least one of them, and denotes the number.
pub proof fn decimal_denotes_number(n: nat)
    ensures
        decimal(n).len() > 0,
        all_digits(decimal(n)),
        digits_value(decimal(n)) == n,
    decreases n,
{
    if n < 10 {
        assert(decimal(n).drop_last() =~= Seq::<char>::empty());
        reveal_with_fuel(digits_value, 2);
    } else {
        decimal_denotes_number(n / 10);
        assert(decimal(n).drop_last() =~= decimal(n / 10));
    }
}

/// Reading a size back from its decimal notation gives that size.
pub proof fn parsing_undoes_decimal(n: usize)
    ensures
        parsed_size(decimal(n as nat)) == Some(n),
{
    decimal_denotes_number(n as nat);
}

/// A power of ten.
pub open spec fn power_of_ten(exponent: nat) -> nat
    decreases exponent,
{
    if exponent == 0 {
        1
    } else {
        10 * power_of_ten((exponent - 1) as nat)
    }
}

/// A number below a power of ten has no more digits than the exponent says.
pub proof fn decimal_is_short(n: nat, exponent: nat)
    requires
        exponent > 0,
        n < power_of_ten(exponent),
    ensures
        decimal(n).len() <= exponent,
    decreases exponent,
{
    if n >= 10 {
        reveal_with_fuel(power_of_ten, 2);
        decimal_is_short(n / 10, (exponent - 1) as nat);
    }
}

/// Different numbers differ in decimal notation.
pub proof fn decimal_is_injective(a: nat, b: nat)
    requires
        decimal(a) == decimal(b),
    ensures
        a == b,
{
    decimal_denotes_number(a);
    decimal_denotes_number(b);
}

/// Decimal notation has no zeros before the number; zero is written as one digit.
pub proof fn decimal_has_no_leading_zero(n: nat)
    ensures
        n > 0 ==> decimal(n)[0] != '0',
        n == 0 ==> decimal(n).len() == 1,
    decreases n,
{
    if n >= 10 {
        decimal_has_no_leading_zero(n / 10);
        decimal_denotes_number(n / 10);
        assert(decimal(n)[0] == decimal(n / 10)[0]);
    }
}

/// Each digit stands for ten times as much as it would one place further on.
pub proof fn digits_count_by_their_places(a: Seq<char>, b: Seq<char>)
    ensures
        digits_value(a + b) == digits_value(a) * power_of_ten(b.len()) + digits_value(b),
        forall|c: char| '0' <= c <= '9' ==> #[trigger] digits_value(seq![c]) == c as int - 48,
    decreases b.len(),
{
    assert forall|c: char| '0' <= c <= '9' implies #[trigger] digits_value(seq![c]) == c as int
        - 48 by {
        assert(seq![c].drop_last() =~= Seq::<char>::empty());
        reveal_with_fuel(digits_value, 2);
    }
    if b.len() == 0 {
        assert(a + b =~= a);
        assert(digits_value(a) * 1 == digits_value(a)) by (nonlinear_arith);
    } else {
        digits_count_by_their_places(a, b.drop_last());
        assert((a + b).drop_last() =~= a + b.drop_last());
        let power = power_of_ten(b.drop_last().len());
        assert(power_of_ten(b.len()) == 10 * power);
        assert((digits_value(a) * power) * 10 == digits_value(a) * (10 * power))
            by (nonlinear_arith);
    }
}

/// Digits alone denote a size, with or without a plus sign before them, exactly if it fits.
pub proof fn digits_denote_a_size(digits: Seq<char>)
    requires
        digits.len() > 0,
        all_digits(digits),
    ensures
        digits_value(digits) <= usize::MAX ==> parsed_size(digits) == Some(
            digits_value(digits) as usize,
        ),
        digits_value(digits) > usize::MAX ==> parsed_size(digits) is None,
        parsed_size(seq!['+'] + digits) == parsed_size(digits),
{
    assert((seq!['+'] + digits).skip(1) =~= digits);
}

/// Nothing but digits with at most one plus sign before them denotes a size.
pub proof fn only_digits_denote_a_size(text: Seq<char>)
    requires
        parsed_size(text) is Some,
    ensures
        text.len() > 0,
        '0' <= text[0] <= '9' || (text[0] == '+' && text.len() > 1),
        forall|i: int| 1 <= i < text.len() ==> '0' <= #[trigger] text[i] <= '9',
{
    let digits = without_plus(text);
    if text[0] == '+' {
        assert forall|i: int| 1 <= i < text.len() implies '0' <= #[trigger] text[i] <= '9' by {
            assert(digits[i - 1] == text[i]);
        }
    } else {
        assert(digits[0] == text[0]);
    }
}

/// The lines of a text, without the line breaks that end them.
pub open spec fn lines(text: Seq<char>) -> Seq<Seq<char>>
    decreases text.len(),
{
    if text.len() == 0 {
        Seq::empty()
    } else {
        let rest = lines(text.skip(1));
        if text[0] == '\n' {
            seq![Seq::<char>::empty()] + rest
        } else if rest.len() == 0 {
            seq![seq![text[0]]]
        } else {
            seq![seq![text[0]] + rest[0]] + rest.skip(1)
        }
    }
}

/// What stands before the first line break is the first line.
pub proof fn line_break_ends_a_line(line: Seq<char>, rest: Seq<char>)
    requires
        !line.contains('\n'),
    ensures
        lines(line + seq!['\n'] + rest) == seq![line] + lines(rest),
    decreases line.len(),
{
    let text = line + seq!['\n'] + rest;
    if line.len() == 0 {
        assert(text.skip(1) =~= rest);
        assert(line =~= Seq::<char>::empty());
    } else {
        assert(line[0] != '\n') by {
            assert(line.contains(line[0]));
        }
        assert(!line.skip(1).contains('\n')) by {
            if line.skip(1).contains('\n') {
                let i = choose|i: int| 0 <= i < line.skip(1).len() && line.skip(1)[i] == '\n';
                assert(line[i + 1] == '\n');
            }
        }
        line_break_ends_a_line(line.skip(1), rest);
        assert(text.skip(1) =~= line.skip(1) + seq!['\n'] + rest);
        let behind = lines(text.skip(1));
        assert(behind.skip(1) =~= lines(rest));
        assert(seq![text[0]] + behind[0] =~= line);
        assert(lines(text) =~= seq![line] + lines(rest));
    }
}

/// Whether a text is made of whole lines.
pub open spec fn ends_its_line(text: Seq<char>) -> bool {
    text.len() > 0 ==> text.last() == '\n'
}

/// The lines of whole lines and of what follows them are the ones and then the others.
pub proof fn lines_follow_lines(text: Seq<char>, rest: Seq<char>)
    requires
        ends_its_line(text),
    ensures
        lines(text + rest) == lines(text) + lines(rest),
        text.len() > 0 ==> lines(text).len() > 0,
    decreases text.len(),
{
    if text.len() == 0 {
        assert(text + rest =~= rest);
        assert(lines(text) + lines(rest) =~= lines(rest));
    } else {
        lines_follow_lines(text.skip(1), rest);
        assert((text + rest).skip(1) =~= text.skip(1) + rest);
        assert(lines(text + rest) =~= lines(text) + lines(rest));
    }
}

/// Whether a line is a label and a number in digits behind it.
pub open spec fn shows(line: Seq<char>, label: Seq<char>, n: nat) -> bool {
    &&& line.len() > label.len()
    &&& line.take(label.len() as int) == label
    &&& all_digits(line.skip(label.len() as int))
    &&& digits_value(line.skip(label.len() as int)) == n
}

/// A label with a number in decimal notation behind it shows that number, and breaks no line unless
/// the label does.
pub proof fn label_shows_decimal(label: Seq<char>, n: nat)
    ensures
        shows(label + decimal(n), label, n),
        !label.contains('\n') ==> !(label + decimal(n)).contains('\n'),
{
    let line = label + decimal(n);
    decimal_denotes_number(n);
    assert(line.take(label.len() as int) =~= label);
    assert(line.skip(label.len() as int) =~= decimal(n));
    if line.contains('\n') {
        let i = choose|i: int| 0 <= i < line.len() && line[i] == '\n';
        if i < label.len() {
            assert(label[i] == '\n');
        } else {
            assert(decimal(n)[i - label.len()] == '\n');
        }
    }
}

} // verus!
