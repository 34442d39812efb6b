//! Percent-encoding of file names and construction of navigation addresses.

use vstd::prelude::*;
use vstd::string::StringSliceAdditionalSpecFns;
use vstd::string::StringExecFns;

verus! {

/// Letters, digits and `-_.~`: the bytes that travel unescaped.
pub open spec fn is_unreserved(b: u8) -> bool {
    (65 <= b <= 90) || (97 <= b <= 122) || (48 <= b <= 57) || b == 45 || b == 95 || b == 46
        || b == 126
}

/// Uppercase hexadecimal digit of a value below sixteen.
pub open spec fn hex_digit(n: u8) -> char {
    if n < 10 {
        (48 + n) as u8 as char
    } else {
        (55 + n) as u8 as char
    }
}

/// What one byte becomes: itself when unreserved, else `%XX` in uppercase hex.
pub open spec fn encode_byte(b: u8) -> Seq<char> {
    if is_unreserved(b) {
        seq![b as char]
    } else {
        seq!['%', hex_digit(b / 16), hex_digit(b % 16)]
    }
}

/// Percent-encoding of a byte string, byte by byte.
pub open spec fn percent_encode(bytes: Seq<u8>) -> Seq<char>
    decreases bytes.len(),
{
    if bytes.len() == 0 {
        seq![]
    } else {
        percent_encode(bytes.drop_last()) + encode_byte(bytes.last())
    }
}

/// Relies on String::push: the character is appended at the end.
#[verifier::external_body]
pub(crate) fn push_char(s: &mut String, c: char)
    ensures
        final(s)@ == old(s)@.push(c),
{
    s.push(c)
}

fn hex_char(n: u8) -> (c: char)
    requires
        n < 16,
    ensures
        c == hex_digit(n),
{
    if n < 10 {
        (48 + n) as char
    } else {
        (55 + n) as char
    }
}

/// Percent-encodes the UTF-8 bytes of `s`.
pub fn urlencod(s: &str) -> (r: String)
    ensures
        r@ == percent_encode(s.spec_bytes()),
{
    let bytes = s.as_bytes();
    let mut r = String::new();
    let n = bytes.len();
    let mut i: usize = 0;
    while i < n
        invariant
            n == bytes@.len(),
            bytes@ == s.spec_bytes(),
            i <= n,
            r@ == percent_encode(bytes@.subrange(0, i as int)),
        decreases n - i,
    {
        let b = bytes[i];
        assert(bytes@.subrange(0, i + 1).drop_last() == bytes@.subrange(0, i as int));
        if (65 <= b && b <= 90) || (97 <= b && b <= 122) || (48 <= b && b <= 57) || b == 45
            || b == 95 || b == 46 || b == 126 {
            push_char(&mut r, b as char);
        } else {
            push_char(&mut r, '%');
            push_char(&mut r, hex_char(b / 16));
            push_char(&mut r, hex_char(b % 16));
        }
        i = i + 1;
    }
    assert(bytes@.subrange(0, n as int) == bytes@);
    r
}

/// Decimal digit of a value below ten.
pub open spec fn dec_digit(n: nat) -> char {
    (48 + n) as u8 as char
}

/// Decimal notation of a natural number, without leading zeros.
pub open spec fn decimal(n: nat) -> Seq<char>
    decreases n,
{
    if n < 10 {
        seq![dec_digit(n)]
    } else {
        decimal(n / 10) + seq![dec_digit(n % 10)]
    }
}

/// Appends the decimal notation of `n` to `out`.
pub fn push_decimal(out: &mut String, n: u16)
    ensures
        final(out)@ == old(out)@ + decimal(n as nat),
    decreases n,
{
    if n >= 10 {
        push_decimal(out, n / 10);
    }
    push_char(out, (48 + (n % 10) as u8) as char);
}

/// The address the local server answers on, without a trailing slash.
pub open spec fn base_url(port: u16) -> Seq<char> {
    "http://127.0.0.1:"@ + decimal(port as nat)
}

/// The navigation target: the server's address, and, when a file resolved,
/// a query that names it percent-encoded.
pub open spec fn nav_url(port: u16, file_name: Option<Seq<u8>>) -> Seq<char> {
    match file_name {
        Some(name) => base_url(port) + "/?open="@ + percent_encode(name),
        None => base_url(port),
    }
}

/// Spec-level view of an optional file name as its UTF-8 bytes.
pub open spec fn name_bytes(file_name: Option<&str>) -> Option<Seq<u8>> {
    match file_name {
        Some(f) => Some(f.spec_bytes()),
        None => None,
    }
}

/// Builds `http://127.0.0.1:<port>`, followed by `/?open=<encoded name>`
/// when a file name is given.
pub fn navigation_url(port: u16, file_name: Option<&str>) -> (r: String)
    ensures
        r@ == nav_url(port, name_bytes(file_name)),
{
    let mut r = String::from_str("http://127.0.0.1:");
    push_decimal(&mut r, port);
    match file_name {
        Some(f) => {
            let enc = urlencod(f);
            r.append("/?open=");
            r.append(enc.as_str());
        },
        None => {},
    }
    r
}

} // verus!
