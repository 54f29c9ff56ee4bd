//! The job-declaration stub.
//!
//! The endpoint manufactures a response from a caller-supplied
//! request: a fresh identifier of eight lowercase hexadecimal digits,
//! drawn at random, and a descriptive string that embeds the caller's
//! coinbase text verbatim.  No protocol-level construction happens
//! here; the response is pure formatting.

use vstd::prelude::*;

verus! {

/// A caller's declaration request: a free-form coinbase string and an
/// ordered list of transaction identifiers.
#[derive(Debug, Clone)]
pub struct JobDeclarationRequest {
    /// Caller-chosen text, embedded verbatim in the response.
    pub coinbase: String,
    /// Caller-chosen identifiers; accepted unvalidated.
    pub txids: Vec<String>,
}

/// The stub's response: a generated identifier and a descriptive
/// string.
#[derive(Debug, Clone)]
pub struct JobDeclarationResponse {
    /// Eight lowercase hexadecimal digits.
    pub job_id: String,
    /// Descriptive text embedding the request's coinbase.
    pub header_template: String,
}

/// The lowercase hexadecimal digit for a value below 16.
pub open spec fn hex_digit(d: u8) -> char {
    if d == 0 {
        '0'
    } else if d == 1 {
        '1'
    } else if d == 2 {
        '2'
    } else if d == 3 {
        '3'
    } else if d == 4 {
        '4'
    } else if d == 5 {
        '5'
    } else if d == 6 {
        '6'
    } else if d == 7 {
        '7'
    } else if d == 8 {
        '8'
    } else if d == 9 {
        '9'
    } else if d == 10 {
        'a'
    } else if d == 11 {
        'b'
    } else if d == 12 {
        'c'
    } else if d == 13 {
        'd'
    } else if d == 14 {
        'e'
    } else {
        'f'
    }
}

/// Whether `c` is a lowercase hexadecimal digit.
pub open spec fn is_lower_hex(c: char) -> bool {
    ('0' <= c && c <= '9') || ('a' <= c && c <= 'f')
}

/// Whether `s` is a well-formed generated identifier: exactly eight
/// lowercase hexadecimal digits.
pub open spec fn is_hex_id(s: Seq<char>) -> bool {
    s.len() == 8 && forall|k: int| 0 <= k < s.len() ==> is_lower_hex(s[k])
}

/// The eight hexadecimal digits of a 32-bit value, most significant
/// first, zero-padded.
pub open spec fn spec_hex8(n: u32) -> Seq<char> {
    seq![
        hex_digit(((n as int / 0x1000_0000) % 16) as u8),
        hex_digit(((n as int / 0x100_0000) % 16) as u8),
        hex_digit(((n as int / 0x10_0000) % 16) as u8),
        hex_digit(((n as int / 0x1_0000) % 16) as u8),
        hex_digit(((n as int / 0x1000) % 16) as u8),
        hex_digit(((n as int / 0x100) % 16) as u8),
        hex_digit(((n as int / 0x10) % 16) as u8),
        hex_digit(((n as int) % 16) as u8),
    ]
}

/// The single-character string for one hexadecimal digit.
fn hex_char_str(d: u8) -> (r: &'static str)
    requires
        d < 16,
    ensures
        r@.len() == 1,
        r@[0] == hex_digit(d),
{
    proof {
        reveal_strlit("0");
        reveal_strlit("1");
        reveal_strlit("2");
        reveal_strlit("3");
        reveal_strlit("4");
        reveal_strlit("5");
        reveal_strlit("6");
        reveal_strlit("7");
        reveal_strlit("8");
        reveal_strlit("9");
        reveal_strlit("a");
        reveal_strlit("b");
        reveal_strlit("c");
        reveal_strlit("d");
        reveal_strlit("e");
        reveal_strlit("f");
    }
    match d {
        0 => "0",
        1 => "1",
        2 => "2",
        3 => "3",
        4 => "4",
        5 => "5",
        6 => "6",
        7 => "7",
        8 => "8",
        9 => "9",
        10 => "a",
        11 => "b",
        12 => "c",
        13 => "d",
        14 => "e",
        _ => "f",
    }
}

/// Formats a 32-bit value as eight zero-padded lowercase hexadecimal
/// digits.
pub fn hex8(n: u32) -> (r: String)
    ensures
        r@ == spec_hex8(n),
{
    let mut s = String::new();
    s.append(hex_char_str(((n / 0x1000_0000) % 16) as u8));
    s.append(hex_char_str(((n / 0x100_0000) % 16) as u8));
    s.append(hex_char_str(((n / 0x10_0000) % 16) as u8));
    s.append(hex_char_str(((n / 0x1_0000) % 16) as u8));
    s.append(hex_char_str(((n / 0x1000) % 16) as u8));
    s.append(hex_char_str(((n / 0x100) % 16) as u8));
    s.append(hex_char_str(((n / 0x10) % 16) as u8));
    s.append(hex_char_str((n % 16) as u8));
    proof {
        assert(s@ =~= spec_hex8(n));
    }
    s
}

/// Law: a formatted 32-bit value is always a well-formed identifier:
/// eight digits, each lowercase hexadecimal.
pub proof fn lemma_hex8_is_hex_id(n: u32)
    ensures
        is_hex_id(spec_hex8(n)),
{
    assert forall|k: int| 0 <= k < spec_hex8(n).len() implies is_lower_hex(spec_hex8(n)[k]) by {
        assert(spec_hex8(n).len() == 8);
    }
}

/// The descriptive text for a coinbase string.
pub open spec fn spec_template(coinbase: Seq<char>) -> Seq<char> {
    "Header template for coinbase: "@ + coinbase
}

/// Builds the declaration response for `req` from an already-drawn
/// 32-bit identifier value.
pub fn job_declare_with(req: &JobDeclarationRequest, raw: u32) -> (r: JobDeclarationResponse)
    ensures
        r.job_id@ == spec_hex8(raw),
        r.header_template@ == spec_template(req.coinbase@),
{
    let job_id = hex8(raw);
    let mut header_template: String = "Header template for coinbase: ".to_owned();
    header_template.append(req.coinbase.as_str());
    JobDeclarationResponse { job_id, header_template }
}

/// Relies on rand::random: draws a value of `T` from the thread-local
/// generator; nothing is assumed of the drawn value.
pub assume_specification<T>[ rand::random::<T> ]() -> (r: T)
    where
        rand::distributions::Standard: rand::distributions::Distribution<T>,
;

/// Handles one declaration request: draws a fresh random identifier
/// value and formats the response.  Whatever value is drawn, the
/// identifier is eight lowercase hexadecimal digits and the
/// descriptive text embeds the request's coinbase verbatim.
pub fn job_declare(req: &JobDeclarationRequest) -> (r: JobDeclarationResponse)
    ensures
        is_hex_id(r.job_id@),
        r.header_template@ == spec_template(req.coinbase@),
{
    let raw: u32 = rand::random::<u32>();
    proof {
        lemma_hex8_is_hex_id(raw);
    }
    job_declare_with(req, raw)
}

} // verus!
