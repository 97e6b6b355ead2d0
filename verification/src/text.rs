//! Text building blocks shared by header warnings, the serial port and the
//! debugger: hex/decimal digit rendering and lossy UTF-8 decoding.
use vstd::prelude::*;
use vstd::string::StringExecFns;

verus! {

/// The digit (0-9, A-F) for a value below 16, as a one-character string.
pub open spec fn digit_str(d: int) -> Seq<char> {
    if d == 0 {
        "0"@
    } else if d == 1 {
        "1"@
    } else if d == 2 {
        "2"@
    } else if d == 3 {
        "3"@
    } else if d == 4 {
        "4"@
    } else if d == 5 {
        "5"@
    } else if d == 6 {
        "6"@
    } else if d == 7 {
        "7"@
    } else if d == 8 {
        "8"@
    } else if d == 9 {
        "9"@
    } else if d == 10 {
        "A"@
    } else if d == 11 {
        "B"@
    } else if d == 12 {
        "C"@
    } else if d == 13 {
        "D"@
    } else if d == 14 {
        "E"@
    } else {
        "F"@
    }
}

/// Two upper-case hex digits (`{:02X}`).
pub open spec fn hex2(v: u8) -> Seq<char> {
    digit_str(v as int / 16) + digit_str(v as int % 16)
}

/// Four upper-case hex digits (`{:04X}`).
pub open spec fn hex4(v: u16) -> Seq<char> {
    hex2((v as int / 256) as u8) + hex2((v as int % 256) as u8)
}

/// Decimal digits of a natural number, no leading zeros (`{}`).
pub open spec fn dec(n: nat) -> Seq<char>
    decreases n,
{
    if n < 10 {
        digit_str(n as int)
    } else {
        dec(n / 10) + digit_str((n % 10) as int)
    }
}

/// Decimal rendering of a signed number (`{}`).
pub open spec fn signed_dec(n: int) -> Seq<char> {
    if n < 0 {
        "-"@ + dec((-n) as nat)
    } else {
        dec(n as nat)
    }
}

/// Decimal rendering with an explicit sign (`{:+}`).
pub open spec fn plus_signed_dec(n: int) -> Seq<char> {
    if n < 0 {
        "-"@ + dec((-n) as nat)
    } else {
        "+"@ + dec(n as nat)
    }
}

pub fn digit(d: u8) -> (s: &'static str)
    requires
        d < 16,
    ensures
        s@ == digit_str(d as int),
{
    match d {
        0 => "0",
        1 => "1",
        2 => "2",
        3 => "3",
        4 => "4",
        5 => "5",
        6 => "6",
        7 => "7",
        8 => "8",
        9 => "9",
        10 => "A",
        11 => "B",
        12 => "C",
        13 => "D",
        14 => "E",
        _ => "F",
    }
}

pub fn push_hex2(s: &mut String, v: u8)
    ensures
        final(s)@ == old(s)@ + hex2(v),
{
    s.append(digit(v / 16));
    s.append(digit(v % 16));
}

pub fn push_hex4(s: &mut String, v: u16)
    ensures
        final(s)@ == old(s)@ + hex4(v),
{
    push_hex2(s, (v / 256) as u8);
    push_hex2(s, (v % 256) as u8);
}

pub fn push_dec(s: &mut String, n: u64)
    ensures
        final(s)@ == old(s)@ + dec(n as nat),
    decreases n,
{
    if n >= 10 {
        push_dec(s, n / 10);
    }
    s.append(digit((n % 10) as u8));
}

pub fn push_signed_dec(s: &mut String, n: i64)
    requires
        n > i64::MIN,
    ensures
        final(s)@ == old(s)@ + signed_dec(n as int),
{
    if n < 0 {
        s.append("-");
        push_dec(s, (-n) as u64);
    } else {
        push_dec(s, n as u64);
    }
}

pub fn push_plus_signed_dec(s: &mut String, n: i64)
    requires
        n > i64::MIN,
    ensures
        final(s)@ == old(s)@ + plus_signed_dec(n as int),
{
    if n < 0 {
        s.append("-");
        push_dec(s, (-n) as u64);
    } else {
        s.append("+");
        push_dec(s, n as u64);
    }
}

/// `ON`/`OFF` for a flag.
pub open spec fn on_off(b: bool) -> Seq<char> {
    if b {
        "ON"@
    } else {
        "OFF"@
    }
}

pub fn on_off_str(b: bool) -> (s: &'static str)
    ensures
        s@ == on_off(b),
{
    if b {
        "ON"
    } else {
        "OFF"
    }
}

/// `1`/`0` for a flag.
pub open spec fn bit_char(b: bool) -> Seq<char> {
    if b {
        "1"@
    } else {
        "0"@
    }
}

pub fn bit_str(b: bool) -> (s: &'static str)
    ensures
        s@ == bit_char(b),
{
    if b {
        "1"
    } else {
        "0"
    }
}

/// `digits` right-aligned in a field of `width` characters, padded with
/// `pad` (`{:w}` / `{:0w}`).
pub open spec fn padded(digits: Seq<char>, width: nat, pad: Seq<char>) -> Seq<char>
    decreases width,
{
    if digits.len() >= width {
        digits
    } else {
        pad + padded(digits, (width - 1) as nat, pad)
    }
}

/// Every digit string is one character long.
proof fn lemma_digit_len(d: int)
    ensures
        digit_str(d).len() == 1,
{
    reveal_strlit("0");
    reveal_strlit("1");
    reveal_strlit("2");
    reveal_strlit("3");
    reveal_strlit("4");
    reveal_strlit("5");
    reveal_strlit("6");
    reveal_strlit("7");
    reveal_strlit("8");
    reveal_strlit("9");
    reveal_strlit("A");
    reveal_strlit("B");
    reveal_strlit("C");
    reveal_strlit("D");
    reveal_strlit("E");
    reveal_strlit("F");
}

/// Number of decimal digits of `n`.
fn dec_len(n: u64) -> (len: u64)
    ensures
        len == dec(n as nat).len(),
        len <= n + 1,
    decreases n,
{
    if n < 10 {
        proof {
            lemma_digit_len(n as int);
        }
        1
    } else {
        let l = dec_len(n / 10);
        proof {
            lemma_digit_len((n % 10) as int);
        }
        l + 1
    }
}

/// Appends `n` in decimal, right-aligned in `width` columns padded with
/// the one-character `pad`.
pub fn push_dec_padded(s: &mut String, n: u64, width: usize, pad: &str)
    ensures
        final(s)@ == old(s)@ + padded(dec(n as nat), width as nat, pad@),
    decreases width,
{
    let len = dec_len(n);
    if len >= width as u64 {
        push_dec(s, n);
    } else {
        s.append(pad);
        push_dec_padded(s, n, width - 1, pad);
        proof {
            assert(final(s)@ =~= old(s)@ + padded(dec(n as nat), width as nat, pad@));
        }
    }
}

/// What `String::from_utf8_lossy` makes of a byte sequence.
pub uninterp spec fn utf8_lossy(bytes: Seq<u8>) -> Seq<char>;

/// Whether every byte is 7-bit ASCII.
pub open spec fn all_ascii(bytes: Seq<u8>) -> bool {
    forall|i: int| 0 <= i < bytes.len() ==> #[trigger] bytes[i] < 128
}

/// Decodes bytes as UTF-8, replacing invalid sequences with U+FFFD
/// (`String::from_utf8_lossy(..).into_owned()`). ASCII input is valid UTF-8,
/// so it decodes to exactly one character per byte.
#[verifier::external_body]
pub(crate) fn lossy_string(bytes: &[u8]) -> (s: String)
    ensures
        s@ == utf8_lossy(bytes@),
        all_ascii(bytes@) ==> s@ == bytes@.map_values(|b: u8| b as char),
{
    String::from_utf8_lossy(bytes).into_owned()
}

} // verus!
