use vstd::prelude::*;
use vstd::string::StringExecFns;

verus! {

/// The upper-case hexadecimal digit of a value below 16.
pub open spec fn hex_char(n: u8) -> char {
    if n < 10 {
        ('0' as u8 + n) as char
    } else {
        ('A' as u8 + (n - 10)) as char
    }
}

/// Two upper-case hexadecimal digits of a byte.
pub open spec fn hex2_spec(v: u8) -> Seq<char> {
    seq![hex_char(v >> 4), hex_char(v & 0x0F)]
}

/// Four upper-case hexadecimal digits of a 16-bit value.
pub open spec fn hex4_spec(v: u16) -> Seq<char> {
    hex2_spec((v >> 8) as u8) + hex2_spec(v as u8)
}

/// The decimal digits of a number, without leading zeros.
pub open spec fn decimal_spec(n: nat) -> Seq<char>
    decreases n,
{
    if n < 10 {
        seq![hex_char(n as u8)]
    } else {
        decimal_spec(n / 10).push(hex_char((n % 10) as u8))
    }
}

/// Relies on String::push: appends one character.
#[verifier::external_body]
pub(crate) fn push_char(s: &mut String, c: char)
    ensures
        final(s)@ == old(s)@.push(c),
{
    s.push(c);
}

/// One digit as a string.
fn digit_str(n: u8) -> (r: &'static str)
    requires
        n < 16,
    ensures
        r@ == seq![hex_char(n)],
{
    proof {
        reveal_strlit("0");
        reveal_strlit("1");
        reveal_strlit("2");
        reveal_strlit("3");
        reveal_strlit("4");
        reveal_strlit("5");
        reveal_strlit("6");
        reveal_strlit("7");
        reveal_strlit("8");
        reveal_strlit("9");
        reveal_strlit("A");
        reveal_strlit("B");
        reveal_strlit("C");
        reveal_strlit("D");
        reveal_strlit("E");
        reveal_strlit("F");
    }
    match n {
        0 => "0",
        1 => "1",
        2 => "2",
        3 => "3",
        4 => "4",
        5 => "5",
        6 => "6",
        7 => "7",
        8 => "8",
        9 => "9",
        10 => "A",
        11 => "B",
        12 => "C",
        13 => "D",
        14 => "E",
        _ => "F",
    }
}

/// A byte as two upper-case hexadecimal digits.
pub fn hex2(v: u8) -> (r: String)
    ensures
        r@ == hex2_spec(v),
{
    assert(v >> 4 < 16 && v & 0x0F < 16) by (bit_vector);
    let mut s = String::from_str(digit_str(v >> 4));
    s.append(digit_str(v & 0x0F));
    s
}

/// A 16-bit value as four upper-case hexadecimal digits.
pub fn hex4(v: u16) -> (r: String)
    ensures
        r@ == hex4_spec(v),
{
    let mut s = hex2((v >> 8) as u8);
    let lo = hex2(v as u8);
    s.append(lo.as_str());
    s
}

/// A number in decimal.
pub fn decimal(n: u64) -> (r: String)
    ensures
        r@ == decimal_spec(n as nat),
    decreases n,
{
    if n < 10 {
        String::from_str(digit_str(n as u8))
    } else {
        let mut s = decimal(n / 10);
        s.append(digit_str((n % 10) as u8));
        s
    }
}

/// How a byte shows in the text column of a memory dump: printable ASCII as itself, else '.'.
pub open spec fn ascii_char(v: u8) -> char {
    if 32 <= v <= 126 { v as char } else { '.' }
}

/// `n` bytes of a row in hexadecimal, each followed by a space.
pub open spec fn hex_cells(bytes: Seq<u8>, start: int, n: int) -> Seq<char>
    decreases n,
{
    if n <= 0 { Seq::empty() } else { hex_cells(bytes, start, n - 1) + hex2_spec(bytes[start + n - 1]) + seq![' '] }
}

/// The column header of a 16-byte-wide dump.
pub open spec fn column_header() -> Seq<char> {
    "00 01 02 03 04 05 06 07 08 09 0A 0B 0C 0D 0E 0F\n"@
}

/// `n` zero characters.
pub open spec fn zeros(n: int) -> Seq<char>
    decreases n,
{
    if n <= 0 { Seq::empty() } else { zeros(n - 1).push('0') }
}

/// A number in decimal, with leading zeros up to `width` digits.
pub open spec fn zero_padded_spec(n: nat, width: int) -> Seq<char> {
    zeros(width - decimal_spec(n).len()) + decimal_spec(n)
}

/// A number in decimal, with leading zeros up to `width` digits.
pub fn zero_padded(n: u64, width: usize) -> (r: String)
    ensures
        r@ == zero_padded_spec(n as nat, width as int),
{
    let digits = decimal(n);
    let len = digits.unicode_len();
    let mut out = String::new();
    let mut k: usize = 0;
    while k < width && len < width - k
        invariant
            len == digits@.len(),
            k <= width,
            out@ == zeros(k as int),
            k <= width - len || len >= width,
            len >= width ==> k == 0,
        decreases width - k,
    {
        proof {
            reveal_strlit("0");
        }
        out.append("0");
        k = k + 1;
    }
    proof {
        if len >= width {
            assert(k == 0);
            assert(zeros(width - len) == Seq::<char>::empty());
        } else {
            assert(k == width - len);
        }
    }
    out.append(digits.as_str());
    out
}

} // verus!
