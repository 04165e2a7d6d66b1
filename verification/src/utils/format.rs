//! The canonical text forms: lowercase hex without a prefix for hashes,
//! addresses and byte strings, and decimal for numbers.

use vstd::prelude::*;
use vstd::string::StringExecFns;

verus! {

/// The character that stands for a value below sixteen in lowercase hex.
/// Values below ten give the decimal digits.
pub open spec fn digit_char(d: nat) -> char {
    if d == 0 {
        '0'
    } else if d == 1 {
        '1'
    } else if d == 2 {
        '2'
    } else if d == 3 {
        '3'
    } else if d == 4 {
        '4'
    } else if d == 5 {
        '5'
    } else if d == 6 {
        '6'
    } else if d == 7 {
        '7'
    } else if d == 8 {
        '8'
    } else if d == 9 {
        '9'
    } else if d == 10 {
        'a'
    } else if d == 11 {
        'b'
    } else if d == 12 {
        'c'
    } else if d == 13 {
        'd'
    } else if d == 14 {
        'e'
    } else {
        'f'
    }
}

/// The one-character text of a digit.
pub fn digit_str(d: u8) -> (s: &'static str)
    requires
        d < 16,
    ensures
        s@ == seq![digit_char(d as nat)],
{
    proof {
        reveal_strlit("0");
        reveal_strlit("1");
        reveal_strlit("2");
        reveal_strlit("3");
        reveal_strlit("4");
        reveal_strlit("5");
        reveal_strlit("6");
        reveal_strlit("7");
        reveal_strlit("8");
        reveal_strlit("9");
        reveal_strlit("a");
        reveal_strlit("b");
        reveal_strlit("c");
        reveal_strlit("d");
        reveal_strlit("e");
        reveal_strlit("f");
    }
    let s = match d {
        0 => "0",
        1 => "1",
        2 => "2",
        3 => "3",
        4 => "4",
        5 => "5",
        6 => "6",
        7 => "7",
        8 => "8",
        9 => "9",
        10 => "a",
        11 => "b",
        12 => "c",
        13 => "d",
        14 => "e",
        _ => "f",
    };
    assert(s@ =~= seq![digit_char(d as nat)]);
    s
}

/// The lowercase hex text of a byte string: two characters per byte, the
/// high half first.
pub open spec fn hex_of(bytes: Seq<u8>) -> Seq<char> {
    Seq::new(
        2 * bytes.len(),
        |i: int|
            if i % 2 == 0 {
                digit_char((bytes[i / 2] / 16) as nat)
            } else {
                digit_char((bytes[i / 2] % 16) as nat)
            },
    )
}

/// Whether a character is a digit of lowercase hex.
pub open spec fn is_lower_hex(c: char) -> bool {
    ('0' <= c && c <= '9') || ('a' <= c && c <= 'f')
}

/// The hex text of a byte string has two characters per byte, and each is
/// a digit of lowercase hex: there is no prefix and no capital.
pub proof fn lemma_hex_is_lowercase(bytes: Seq<u8>)
    ensures
        hex_of(bytes).len() == 2 * bytes.len(),
        forall|i: int| 0 <= i < hex_of(bytes).len() ==> is_lower_hex(#[trigger] hex_of(bytes)[i]),
{
}

/// No two byte strings have one hex text.
pub proof fn lemma_hex_is_injective(a: Seq<u8>, b: Seq<u8>)
    requires
        hex_of(a) == hex_of(b),
    ensures
        a == b,
{
    assert(hex_of(a).len() == 2 * a.len());
    assert(hex_of(b).len() == 2 * b.len());
    assert forall|d: nat, e: nat| d < 16 && e < 16 && digit_char(d) == digit_char(e) implies d
        == e by {}
    assert forall|i: int| 0 <= i < a.len() implies a[i] == b[i] by {
        assert(hex_of(a)[2 * i] == digit_char((a[i] / 16) as nat));
        assert(hex_of(b)[2 * i] == digit_char((b[i] / 16) as nat));
        assert(hex_of(a)[2 * i + 1] == digit_char((a[i] % 16) as nat));
        assert(hex_of(b)[2 * i + 1] == digit_char((b[i] % 16) as nat));
        assert(a[i] / 16 == b[i] / 16);
        assert(a[i] % 16 == b[i] % 16);
    }
    assert(a =~= b);
}

/// A byte string as lowercase hex without a prefix.
pub fn format_bytes(bytes: &[u8]) -> (text: String)
    ensures
        text@ == hex_of(bytes@),
{
    let mut text = String::new();
    let mut i: usize = 0;
    while i < bytes.len()
        invariant
            i <= bytes@.len(),
            text@ == hex_of(bytes@.take(i as int)),
        decreases bytes@.len() - i,
    {
        let b = bytes[i];
        text.append(digit_str(b / 16));
        text.append(digit_str(b % 16));
        assert(text@ =~= hex_of(bytes@.take(i + 1)));
        i += 1;
    }
    assert(bytes@.take(bytes@.len() as int) == bytes@);
    text
}

/// A 20-byte address as 40 characters of lowercase hex.
pub fn format_address(address: &[u8; 20]) -> (text: String)
    ensures
        text@ == hex_of(address@),
        text@.len() == 40,
{
    format_bytes(address.as_slice())
}

/// A 32-byte hash as 64 characters of lowercase hex.
pub fn format_hash(hash: &[u8; 32]) -> (text: String)
    ensures
        text@ == hex_of(hash@),
        text@.len() == 64,
{
    format_bytes(hash.as_slice())
}


/// The decimal text of a number, without leading zeros; "0" for zero.
pub open spec fn decimal(n: nat) -> Seq<char>
    decreases n,
{
    if n < 10 {
        seq![digit_char(n)]
    } else {
        decimal(n / 10).push(digit_char(n % 10))
    }
}

/// The decimal text of a signed number: a minus sign before the text of
/// the magnitude where the number is negative.
pub open spec fn signed_decimal(n: int) -> Seq<char> {
    if n < 0 {
        seq!['-'] + decimal((-n) as nat)
    } else {
        decimal(n as nat)
    }
}

/// The decimal digits of a number from the least significant on; none for
/// zero.
pub open spec fn digits_from_low(n: nat) -> Seq<u8>
    decreases n,
{
    if n == 0 {
        Seq::empty()
    } else {
        seq![(n % 10) as u8] + digits_from_low(n / 10)
    }
}

/// The characters of a digit sequence, last digit first.
pub open spec fn digits_text(digits: Seq<u8>) -> Seq<char> {
    Seq::new(digits.len(), |i: int| digit_char(digits[digits.len() - 1 - i] as nat))
}

/// The decimal text of a positive number is its digits, read from the
/// most significant on.
pub proof fn lemma_decimal_is_digits(n: nat)
    requires
        n > 0,
    ensures
        decimal(n) == digits_text(digits_from_low(n)),
    decreases n,
{
    let digits = digits_from_low(n);
    let rest = digits_from_low(n / 10);
    assert(digits == seq![(n % 10) as u8] + rest);
    if n < 10 {
        assert(n / 10 == 0);
        assert(rest.len() == 0);
        assert(digits_text(digits) =~= seq![digit_char(n)]);
    } else {
        lemma_decimal_is_digits(n / 10);
        assert(digits_text(digits) =~= digits_text(rest).push(digit_char(n % 10)));
    }
}

/// The text of a digit sequence that was collected from the least
/// significant digit on.
pub fn digits_to_string(digits: &Vec<u8>) -> (text: String)
    requires
        forall|i: int| 0 <= i < digits@.len() ==> digits@[i] < 10,
    ensures
        text@ == digits_text(digits@),
{
    let mut text = String::new();
    let mut k: usize = digits.len();
    while k > 0
        invariant
            k <= digits@.len(),
            forall|i: int| 0 <= i < digits@.len() ==> digits@[i] < 10,
            text@ == Seq::new(
                (digits@.len() - k) as nat,
                |i: int| digit_char(digits@[digits@.len() - 1 - i] as nat),
            ),
        decreases k,
    {
        k -= 1;
        text.append(digit_str(digits[k]));
        assert(text@ =~= Seq::new(
            (digits@.len() - k) as nat,
            |i: int| digit_char(digits@[digits@.len() - 1 - i] as nat),
        ));
    }
    assert(text@ =~= digits_text(digits@));
    text
}

/// An unsigned number in decimal.
pub fn format_u128(value: u128) -> (text: String)
    ensures
        text@ == decimal(value as nat),
{
    if value == 0 {
        return String::from_str(digit_str(0));
    }
    let mut digits: Vec<u8> = Vec::new();
    let mut rest: u128 = value;
    while rest > 0
        invariant
            digits@ + digits_from_low(rest as nat) == digits_from_low(value as nat),
            forall|i: int| 0 <= i < digits@.len() ==> digits@[i] < 10,
        decreases rest,
    {
        let d: u8 = (rest % 10) as u8;
        let ghost before = digits@;
        digits.push(d);
        assert(digits@ + digits_from_low((rest / 10) as nat) =~= before + digits_from_low(
            rest as nat,
        ));
        rest = rest / 10;
    }
    assert(digits@ =~= digits_from_low(value as nat));
    proof {
        lemma_decimal_is_digits(value as nat);
    }
    digits_to_string(&digits)
}

/// An unsigned 64-bit number in decimal.
pub fn format_u64(value: u64) -> (text: String)
    ensures
        text@ == decimal(value as nat),
{
    format_u128(value as u128)
}

/// A signed number in decimal.
pub fn format_i64(value: i64) -> (text: String)
    ensures
        text@ == signed_decimal(value as int),
{
    if value < 0 {
        let magnitude: u128 = (-(value as i128)) as u128;
        let digits = format_u128(magnitude);
        proof {
            reveal_strlit("-");
        }
        let text = String::from_str("-").concat(digits.as_str());
        assert(text@ =~= signed_decimal(value as int));
        text
    } else {
        format_u128(value as u128)
    }
}

/// The decimal text of a number that may be absent; empty where it is.
pub open spec fn decimal_or_empty(value: Option<nat>) -> Seq<char> {
    match value {
        Some(n) => decimal(n),
        None => Seq::empty(),
    }
}

/// The view of a text that may be absent.
pub open spec fn text_of(value: Option<String>) -> Option<Seq<char>> {
    match value {
        Some(s) => Some(s@),
        None => None,
    }
}

/// The view of a text that may be absent; empty where it is.
pub open spec fn text_or_empty(value: Option<String>) -> Seq<char> {
    match value {
        Some(s) => s@,
        None => Seq::empty(),
    }
}

} // verus!
