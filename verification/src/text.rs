//! Rendering of field values as text.
//!
//! Integers are written in decimal, without sign, padding or separators.
//! Addresses are written by the address type's own `Display`.

use vstd::prelude::*;
use vstd::string::StringExecFns;
use solana_sdk::pubkey::Pubkey;
use crate::instruction::FieldValue;

verus! {

/// The character for the decimal digit `d`.
pub open spec fn digit_char(d: nat) -> char
    recommends
        d < 10,
{
    if d == 0 {
        '0'
    } else if d == 1 {
        '1'
    } else if d == 2 {
        '2'
    } else if d == 3 {
        '3'
    } else if d == 4 {
        '4'
    } else if d == 5 {
        '5'
    } else if d == 6 {
        '6'
    } else if d == 7 {
        '7'
    } else if d == 8 {
        '8'
    } else {
        '9'
    }
}

/// The decimal numeral of `n`: its digits, most significant first, with no
/// leading zero except for the numeral of zero itself.
pub open spec fn decimal(n: nat) -> Seq<char>
    decreases n,
{
    if n < 10 {
        seq![digit_char(n)]
    } else {
        decimal(n / 10).push(digit_char(n % 10))
    }
}

/// The digit that the character `c` stands for; 0 for a character that is no
/// digit.
pub open spec fn digit_value(c: char) -> nat {
    match c {
        '1' => 1,
        '2' => 2,
        '3' => 3,
        '4' => 4,
        '5' => 5,
        '6' => 6,
        '7' => 7,
        '8' => 8,
        '9' => 9,
        _ => 0,
    }
}

/// The number that the decimal numeral `text` stands for.
pub open spec fn decimal_value(text: Seq<char>) -> nat
    decreases text.len(),
{
    if text.len() == 0 {
        0
    } else {
        decimal_value(text.drop_last()) * 10 + digit_value(text.last())
    }
}

/// Whether `c` is one of the ten decimal digits.
pub open spec fn is_decimal_digit(c: char) -> bool {
    '0' <= c <= '9'
}

/// Decimal text is canonical: a numeral is not empty, is made of digits
/// alone, and starts with a zero only where the number is zero.
pub proof fn lemma_decimal_is_canonical(n: nat)
    ensures
        decimal(n).len() >= 1,
        forall|index: int|
            0 <= index < decimal(n).len() ==> is_decimal_digit(#[trigger] decimal(n)[index]),
        decimal(n)[0] == '0' ==> n == 0,
    decreases n,
{
    if n >= 10 {
        lemma_decimal_is_canonical(n / 10);
    }
}

/// Reading back the decimal numeral of a number gives the number.
pub proof fn lemma_decimal_reads_back(n: nat)
    ensures
        decimal_value(decimal(n)) == n,
    decreases n,
{
    if n < 10 {
        let text = seq![digit_char(n)];
        assert(text.drop_last() =~= Seq::<char>::empty());
        assert(decimal_value(text.drop_last()) == 0);
        assert(text.last() == digit_char(n));
    } else {
        let text = decimal(n / 10).push(digit_char(n % 10));
        assert(text.drop_last() =~= decimal(n / 10));
        assert(text.last() == digit_char(n % 10));
        lemma_decimal_reads_back(n / 10);
    }
}

/// Decimal text is lossless: two numbers with the same numeral are the same
/// number.
pub proof fn lemma_decimal_is_lossless(a: nat, b: nat)
    requires
        decimal(a) == decimal(b),
    ensures
        a == b,
{
    lemma_decimal_reads_back(a);
    lemma_decimal_reads_back(b);
}

/// The one-character text of the decimal digit `d`.
fn digit_str(d: u64) -> (text: &'static str)
    requires
        d < 10,
    ensures
        text@ == seq![digit_char(d as nat)],
{
    proof {
        reveal_strlit("0");
        reveal_strlit("1");
        reveal_strlit("2");
        reveal_strlit("3");
        reveal_strlit("4");
        reveal_strlit("5");
        reveal_strlit("6");
        reveal_strlit("7");
        reveal_strlit("8");
        reveal_strlit("9");
    }
    let text = match d {
        0 => "0",
        1 => "1",
        2 => "2",
        3 => "3",
        4 => "4",
        5 => "5",
        6 => "6",
        7 => "7",
        8 => "8",
        _ => "9",
    };
    assert(text@ =~= seq![digit_char(d as nat)]);
    text
}

/// Writes `value` in decimal.
pub fn decimal_string(value: u64) -> (text: String)
    ensures
        text@ == decimal(value as nat),
    decreases value,
{
    if value < 10 {
        digit_str(value).to_owned()
    } else {
        let mut text = decimal_string(value / 10);
        text.append(digit_str(value % 10));
        assert(text@ =~= decimal(value as nat));
        text
    }
}

/// The text that the address type writes for the address made of `bytes`.
pub uninterp spec fn address_text(bytes: Seq<u8>) -> Seq<char>;

/// Makes an address of `bytes` with `Pubkey::new_from_array` and writes it
/// with its `to_string`, which encodes the 32 bytes in base 58. Assumed of
/// the two calls: the text depends on the bytes alone, and goes by the name
/// `address_text`. Nothing is claimed of what the text looks like.
#[verifier::external_body]
pub(crate) fn address_string(bytes: &[u8; 32]) -> (text: String)
    ensures
        text@ == address_text(bytes@),
{
    Pubkey::new_from_array(*bytes).to_string()
}

/// The text of a field value: a number in decimal, an address as the address
/// type writes it.
pub open spec fn rendered(value: FieldValue) -> Seq<char> {
    match value {
        FieldValue::Number(n) => decimal(n as nat),
        FieldValue::Address(bytes) => address_text(bytes@),
    }
}

/// Writes a field value as text.
pub fn render(value: &FieldValue) -> (text: String)
    ensures
        text@ == rendered(*value),
{
    match value {
        FieldValue::Number(n) => decimal_string(*n),
        FieldValue::Address(bytes) => address_string(bytes),
    }
}

} // verus!
