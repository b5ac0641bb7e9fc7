//! The random RGB colour generator.
//!
//! Three bytes are drawn from the platform entropy source and formatted as
//! the CSS string `rgb(r, g, b)`, each channel an unsigned decimal integer
//! without leading zeros. When the entropy source is unavailable the draw
//! fails and the caller keeps whatever colour it had.

use vstd::prelude::*;
use vstd::string::StringExecFns;

verus! {

/// The one failure of the generator: the platform entropy source was
/// unavailable.
#[derive(Clone, Copy, PartialEq, Eq, Structural, Debug)]
pub enum GenerationError {
    EntropyUnavailable,
}

/// The character for one decimal digit.
pub open spec fn dec_digit(d: nat) -> char
    recommends
        d < 10,
{
    if d == 0 {
        '0'
    } else if d == 1 {
        '1'
    } else if d == 2 {
        '2'
    } else if d == 3 {
        '3'
    } else if d == 4 {
        '4'
    } else if d == 5 {
        '5'
    } else if d == 6 {
        '6'
    } else if d == 7 {
        '7'
    } else if d == 8 {
        '8'
    } else {
        '9'
    }
}

/// The decimal digits of a byte value, most significant first, without
/// leading zeros.
pub open spec fn spec_u8_dec(n: nat) -> Seq<char>
    recommends
        n < 256,
{
    if n < 10 {
        seq![dec_digit(n)]
    } else if n < 100 {
        seq![dec_digit(n / 10), dec_digit(n % 10)]
    } else {
        seq![dec_digit(n / 100), dec_digit((n / 10) % 10), dec_digit(n % 10)]
    }
}

/// The CSS string `rgb(r, g, b)` for a channel triple.
pub open spec fn spec_rgb(r: u8, g: u8, b: u8) -> Seq<char> {
    "rgb("@ + spec_u8_dec(r as nat) + ", "@ + spec_u8_dec(g as nat) + ", "@ + spec_u8_dec(
        b as nat,
    ) + ")"@
}

fn append_digit(s: &mut String, d: u8)
    requires
        d < 10,
    ensures
        final(s)@ == old(s)@ + seq![dec_digit(d as nat)],
{
    let digit: &str = match d {
        0 => "0",
        1 => "1",
        2 => "2",
        3 => "3",
        4 => "4",
        5 => "5",
        6 => "6",
        7 => "7",
        8 => "8",
        _ => "9",
    };
    proof {
        reveal_strlit("0");
        reveal_strlit("1");
        reveal_strlit("2");
        reveal_strlit("3");
        reveal_strlit("4");
        reveal_strlit("5");
        reveal_strlit("6");
        reveal_strlit("7");
        reveal_strlit("8");
        reveal_strlit("9");
        assert(digit@ =~= seq![dec_digit(d as nat)]);
    }
    s.append(digit);
}

/// Append the decimal rendering of a byte value: up to three digits, no
/// leading zeros.
pub fn append_u8_dec(s: &mut String, n: u8)
    ensures
        final(s)@ == old(s)@ + spec_u8_dec(n as nat),
{
    if n >= 100 {
        append_digit(s, n / 100);
        append_digit(s, (n / 10) % 10);
        append_digit(s, n % 10);
        assert(s@ =~= old(s)@ + spec_u8_dec(n as nat));
    } else if n >= 10 {
        append_digit(s, n / 10);
        append_digit(s, n % 10);
        assert(s@ =~= old(s)@ + spec_u8_dec(n as nat));
    } else {
        append_digit(s, n);
        assert(s@ =~= old(s)@ + spec_u8_dec(n as nat));
    }
}

/// Format a channel triple as the CSS string `rgb(r, g, b)`.
pub fn format_rgb(r: u8, g: u8, b: u8) -> (s: String)
    ensures
        s@ == spec_rgb(r, g, b),
{
    let mut s = String::from_str("rgb(");
    append_u8_dec(&mut s, r);
    s.append(", ");
    append_u8_dec(&mut s, g);
    s.append(", ");
    append_u8_dec(&mut s, b);
    s.append(")");
    proof {
        assert(s@ =~= spec_rgb(r, g, b));
    }
    s
}

#[verifier::external_type_specification]
#[verifier::external_body]
pub struct ExGetrandomError(getrandom::Error);

/// Relies on getrandom::getrandom: on success the buffer has been filled with
/// bytes from the platform entropy source; on failure the source was not
/// available. Nothing is promised of the byte values themselves.
#[verifier::external_body]
fn entropy_bytes() -> (r: Result<(u8, u8, u8), getrandom::Error>) {
    let mut buf = [0u8; 3];
    match getrandom::getrandom(&mut buf) {
        Ok(()) => Ok((buf[0], buf[1], buf[2])),
        Err(e) => Err(e),
    }
}

/// Draw one random byte per channel from the platform entropy source. The
/// values are unpredictable, so nothing is stated of them; failure means
/// exactly that the entropy source was unavailable.
pub fn rgb_values() -> (r: Result<(u8, u8, u8), GenerationError>)
    ensures
        r is Err ==> r->Err_0 == GenerationError::EntropyUnavailable,
{
    match entropy_bytes() {
        Ok(t) => Ok(t),
        Err(_) => Err(GenerationError::EntropyUnavailable),
    }
}

/// Generate a random display colour: on success the result is exactly
/// `rgb(r, g, b)` for some channel triple; on failure the entropy source was
/// unavailable and the caller keeps its previous colour.
pub fn generate() -> (r: Result<String, GenerationError>)
    ensures
        r matches Ok(s) ==> exists|rr: u8, gg: u8, bb: u8| s@ == spec_rgb(rr, gg, bb),
        r is Err ==> r->Err_0 == GenerationError::EntropyUnavailable,
{
    match rgb_values() {
        Ok((r, g, b)) => {
            let s = format_rgb(r, g, b);
            proof {
                assert(s@ == spec_rgb(r, g, b));
            }
            Ok(s)
        },
        Err(e) => Err(e),
    }
}

} // verus!
