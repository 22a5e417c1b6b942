//! Building and comparing text.
use vstd::prelude::*;

verus! {

/// The decimal or hexadecimal digit for `d`, in upper case.
pub open spec fn digit(d: int) -> Seq<char> {
    if d == 0 {
        "0"@
    } else if d == 1 {
        "1"@
    } else if d == 2 {
        "2"@
    } else if d == 3 {
        "3"@
    } else if d == 4 {
        "4"@
    } else if d == 5 {
        "5"@
    } else if d == 6 {
        "6"@
    } else if d == 7 {
        "7"@
    } else if d == 8 {
        "8"@
    } else if d == 9 {
        "9"@
    } else if d == 10 {
        "A"@
    } else if d == 11 {
        "B"@
    } else if d == 12 {
        "C"@
    } else if d == 13 {
        "D"@
    } else if d == 14 {
        "E"@
    } else {
        "F"@
    }
}

/// `n` in decimal, without leading zeros.
pub open spec fn decimal_text(n: nat) -> Seq<char>
    decreases n,
{
    if n < 10 {
        digit(n as int)
    } else {
        decimal_text(n / 10) + digit((n % 10) as int)
    }
}

/// A byte as two hexadecimal digits, the high one first.
pub open spec fn hex_text(byte: u8) -> Seq<char> {
    digit((byte / 16) as int) + digit((byte % 16) as int)
}

fn digit_str(d: u8) -> (text: &'static str)
    requires
        d < 16,
    ensures
        text@ == digit(d as int),
{
    match d {
        0 => "0",
        1 => "1",
        2 => "2",
        3 => "3",
        4 => "4",
        5 => "5",
        6 => "6",
        7 => "7",
        8 => "8",
        9 => "9",
        10 => "A",
        11 => "B",
        12 => "C",
        13 => "D",
        14 => "E",
        _ => "F",
    }
}

/// `n` in decimal.
pub fn decimal(n: u64) -> (text: String)
    ensures
        text@ == decimal_text(n as nat),
        is_decimal(text@, n as nat),
    decreases n,
{
    proof {
        decimal_reads_back(n as nat);
    }
    if n < 10 {
        digit_str(n as u8).to_owned()
    } else {
        decimal(n / 10).concat(digit_str((n % 10) as u8))
    }
}

/// `byte` as two hexadecimal digits.
pub fn hex_byte(byte: u8) -> (text: String)
    ensures
        text@ == hex_text(byte),
        text@.len() == 2,
        digit_value(text@[0]) * 16 + digit_value(text@[1]) == byte,
{
    proof {
        hex_reads_back(byte);
    }
    digit_str(byte / 16).to_owned().concat(digit_str(byte % 16))
}

/// `first` followed by `second`.
pub fn join(first: &str, second: &str) -> (text: String)
    ensures
        text@ == first@ + second@,
{
    first.to_owned().concat(second)
}

/// The three parts one after the other.
pub fn join3(first: &str, second: &str, third: &str) -> (text: String)
    ensures
        text@ == first@ + second@ + third@,
{
    first.to_owned().concat(second).concat(third)
}

/// The number that a decimal or upper-case hexadecimal digit stands for.
pub open spec fn digit_value(c: char) -> int {
    if is_digit(c) {
        c as int - '0' as int
    } else {
        c as int - 'A' as int + 10
    }
}

/// Whether a character is a decimal digit.
pub open spec fn is_digit(c: char) -> bool {
    '0' as int <= c as int <= '9' as int
}

/// The number that some digits stand for, to the base ten.
pub open spec fn number_in(digits: Seq<char>) -> int
    decreases digits.len(),
{
    if digits.len() == 0 {
        0
    } else {
        number_in(digits.drop_last()) * 10 + digit_value(digits.last())
    }
}

/// Whether a text is the number `n` as people write it: decimal digits alone, at least
/// one, and no zero in front.
pub open spec fn is_decimal(text: Seq<char>, n: nat) -> bool {
    &&& text.len() > 0
    &&& forall|i: int| 0 <= i < text.len() ==> is_digit(#[trigger] text[i])
    &&& text.len() > 1 ==> text[0] != '0'
    &&& number_in(text) == n
}

/// Whether a text is the number `n` in decimal between these two parts.
pub open spec fn names_number(
    text: Seq<char>,
    before: Seq<char>,
    n: nat,
    after: Seq<char>,
) -> bool {
    exists|digits: Seq<char>| #[trigger]
        is_decimal(digits, n) && text == before + digits + after
}

/// Whether a text is the numbers `n` and `m` in decimal between and after these parts.
pub open spec fn names_numbers(
    text: Seq<char>,
    before: Seq<char>,
    n: nat,
    between: Seq<char>,
    m: nat,
) -> bool {
    exists|first: Seq<char>, second: Seq<char>| #[trigger]
        is_decimal(first, n) && #[trigger] is_decimal(second, m) && text == before + first
            + between + second
}

/// Each digit is one character, and it stands for its number.
pub proof fn digit_reads_back(d: int)
    requires
        0 <= d < 16,
    ensures
        digit(d).len() == 1,
        digit_value(digit(d)[0]) == d,
        is_digit(digit(d)[0]) <==> d < 10,
{
    reveal_strlit("0");
    reveal_strlit("1");
    reveal_strlit("2");
    reveal_strlit("3");
    reveal_strlit("4");
    reveal_strlit("5");
    reveal_strlit("6");
    reveal_strlit("7");
    reveal_strlit("8");
    reveal_strlit("9");
    reveal_strlit("A");
    reveal_strlit("B");
    reveal_strlit("C");
    reveal_strlit("D");
    reveal_strlit("E");
    reveal_strlit("F");
}

/// Reading a printed number gives the number back.
pub proof fn decimal_reads_back(n: nat)
    ensures
        is_decimal(decimal_text(n), n),
        n > 0 ==> decimal_text(n)[0] != '0',
    decreases n,
{
    let text = decimal_text(n);
    if n < 10 {
        digit_reads_back(n as int);
        assert(text.drop_last() =~= Seq::empty());
        assert(number_in(text.drop_last()) == 0);
    } else {
        let front = decimal_text(n / 10);
        decimal_reads_back(n / 10);
        digit_reads_back((n % 10) as int);
        assert(text.drop_last() =~= front);
        assert(text[0] == front[0]);
        assert forall|i: int| 0 <= i < text.len() implies is_digit(#[trigger] text[i]) by {
            if i < front.len() {
                assert(text[i] == front[i]);
            }
        }
    }
}

/// Digits without a zero in front stand for a number above zero.
proof fn number_is_positive(digits: Seq<char>)
    requires
        digits.len() > 0,
        forall|i: int| 0 <= i < digits.len() ==> is_digit(#[trigger] digits[i]),
        digits[0] != '0',
    ensures
        number_in(digits) > 0,
    decreases digits.len(),
{
    if digits.len() > 1 {
        number_is_positive(digits.drop_last());
    } else {
        assert(number_in(digits.drop_last()) == 0);
    }
}

/// A number is written in one way.
pub proof fn decimal_is_unique(text: Seq<char>, n: nat)
    requires
        is_decimal(text, n),
    ensures
        text == decimal_text(n),
    decreases text.len(),
{
    let front = text.drop_last();
    let value = digit_value(text.last());
    assert(is_digit(text.last()));
    digit_reads_back(value);
    assert(text.last() == digit(value)[0]);
    if text.len() == 1 {
        assert(number_in(front) == 0);
        assert(text =~= digit(value));
    } else {
        number_is_positive(front);
        assert(number_in(front) == n / 10 && value == n % 10);
        decimal_is_unique(front, n / 10);
        assert(text =~= front + digit(value));
    }
}

/// Reading the two hexadecimal digits of a byte gives the byte back.
pub proof fn hex_reads_back(byte: u8)
    ensures
        hex_text(byte).len() == 2,
        digit_value(hex_text(byte)[0]) * 16 + digit_value(hex_text(byte)[1]) == byte,
        forall|i: int|
            0 <= i < 2 ==> {
                &&& 0 <= digit_value(#[trigger] hex_text(byte)[i]) < 16
                &&& is_digit(hex_text(byte)[i]) <==> digit_value(hex_text(byte)[i]) < 10
            },
{
    digit_reads_back((byte / 16) as int);
    digit_reads_back((byte % 16) as int);
}

/// Whether two texts have the same characters.
pub fn same_text(left: &str, right: &str) -> (same: bool)
    ensures
        same == (left@ == right@),
{
    let len: usize = left.unicode_len();
    if len != right.unicode_len() {
        return false;
    }
    let mut i: usize = 0;
    while i < len
        invariant
            len == left@.len(),
            len == right@.len(),
            i <= len,
            forall|j: int| 0 <= j < i ==> left@[j] == right@[j],
        decreases len - i,
    {
        if left.get_char(i) != right.get_char(i) {
            return false;
        }
        i += 1;
    }
    assert(left@ =~= right@);
    true
}

} // verus!
