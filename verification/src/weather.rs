use vstd::prelude::*;
use vstd::string::StringSliceAdditionalSpecFns;

verus! {

/// The JSON key of the current temperature, with its colon.
pub open spec fn temperature_key() -> Seq<u8> {
    seq![34u8, 116, 101, 109, 112, 101, 114, 97, 116, 117, 114, 101, 95, 50, 109, 34, 58]
}

pub open spec fn is_blank(c: u8) -> bool {
    c == 32 || c == 10 || c == 13 || c == 9
}

pub open spec fn is_digit(c: u8) -> bool {
    48 <= c <= 57
}

/// The number a value has read so far: ten times it plus the next digit,
/// saturating at `i16::MAX`.
pub open spec fn push_digit(value: i16, digit: int) -> i16 {
    let v = value * 10 + digit;
    if v > 32767 { 32767 } else { v as i16 }
}

/// `sign * (value * 10 + tenths)` in 16-bit wrapping arithmetic.
pub open spec fn finish_value(value: i16, sign: i16, tenths: i16) -> i16 {
    vstd::wrapping::i16_specs::wrapping_mul(
        sign,
        vstd::wrapping::i16_specs::wrapping_add(vstd::wrapping::i16_specs::wrapping_mul(value, 10), tenths),
    )
}

/// Reads a number in tenths from byte `i` on: leading blanks and a minus
/// sign, whole digits, and one digit after a decimal point; the first other
/// byte ends it. `None` without any digit.
pub open spec fn parse_value(b: Seq<u8>, i: int, value: i16, sign: i16, seen: bool, after_dot: bool) -> Option<i16>
    decreases b.len() - i,
{
    if i < 0 || i >= b.len() {
        if seen { Some(finish_value(value, sign, 0)) } else { None }
    } else {
        let c = b[i];
        if is_blank(c) && !seen {
            parse_value(b, i + 1, value, sign, seen, after_dot)
        } else if c == 45 && !seen {
            parse_value(b, i + 1, value, -1i16, seen, after_dot)
        } else if is_digit(c) {
            if after_dot {
                Some(finish_value(value, sign, (c - 48) as i16))
            } else {
                parse_value(b, i + 1, push_digit(value, c - 48), sign, true, after_dot)
            }
        } else if c == 46 {
            parse_value(b, i + 1, value, sign, seen, true)
        } else {
            if seen { Some(finish_value(value, sign, 0)) } else { None }
        }
    }
}

/// Scans from byte `q` for the key; the first occurrence followed by a
/// number gives the result, else the scan goes on after the key.
pub open spec fn scan_temperature(b: Seq<u8>, q: int) -> Option<i16>
    decreases b.len() - q,
{
    if q < 0 || q + 17 > b.len() {
        None
    } else if b.subrange(q, q + 17) == temperature_key() {
        match parse_value(b, q + 17, 0, 1, false, false) {
            Some(v) => Some(v),
            None => scan_temperature(b, q + 17),
        }
    } else {
        scan_temperature(b, q + 1)
    }
}

/// The current temperature in tenths of a degree from an Open-Meteo
/// response: the first `"temperature_2m":` key followed by a number.
pub fn parse_temperature_tenths(response: &str) -> (r: Option<i16>)
    ensures
        r == scan_temperature(response.spec_bytes(), 0),
{
    let bytes = response.as_bytes();
    let key: [u8; 17] = [34, 116, 101, 109, 112, 101, 114, 97, 116, 117, 114, 101, 95, 50, 109, 34, 58];
    assert(key@ == temperature_key());
    let mut q: usize = 0;
    while bytes.len() >= 17 && q <= bytes.len() - 17
        invariant
            bytes@ == response.spec_bytes(),
            key@ == temperature_key(),
            q <= bytes@.len(),
            scan_temperature(bytes@, q as int) == scan_temperature(bytes@, 0),
        decreases bytes@.len() - q,
    {
        if matches_at(bytes, q, &key) {
            let value = parse_temperature_value(bytes, q + 17);
            if value.is_some() {
                return value;
            }
            q = q + 17;
        } else {
            q = q + 1;
        }
    }
    None
}

fn matches_at(bytes: &[u8], q: usize, key: &[u8; 17]) -> (r: bool)
    requires
        q + 17 <= bytes.len(),
    ensures
        r == (bytes@.subrange(q as int, q + 17) == key@),
{
    let mut k: usize = 0;
    while k < 17
        invariant
            q + 17 <= bytes.len(),
            k <= 17,
            forall|t: int| 0 <= t < k ==> bytes@[q + t] == key@[t],
        decreases 17 - k,
    {
        if bytes[q + k] != key[k] {
            assert(bytes@.subrange(q as int, q + 17)[k as int] != key@[k as int]);
            return false;
        }
        k = k + 1;
    }
    assert(bytes@.subrange(q as int, q + 17) =~= key@);
    true
}

/// Parses the number that starts at byte `start`.
fn parse_temperature_value(b: &[u8], start: usize) -> (r: Option<i16>)
    ensures
        r == parse_value(b@, start as int, 0, 1, false, false),
{
    let mut value: i16 = 0;
    let mut sign: i16 = 1;
    let mut seen = false;
    let mut after_dot = false;
    let mut i = start;
    while i < b.len()
        invariant
            start <= i,
            value >= 0,
            sign == 1 || sign == -1,
            parse_value(b@, i as int, value, sign, seen, after_dot) == parse_value(b@, start as int, 0, 1, false, false),
        decreases b@.len() - i,
    {
        let c = b[i];
        if (c == 32 || c == 10 || c == 13 || c == 9) && !seen {
        } else if c == 45 && !seen {
            sign = -1;
        } else if c >= 48 && c <= 57 {
            seen = true;
            if after_dot {
                let tenths = (c - 48) as i16;
                return Some(sign.wrapping_mul(value.wrapping_mul(10).wrapping_add(tenths)));
            }
            let next = value as i32 * 10 + (c - 48) as i32;
            value = if next > 32767 { 32767 } else { next as i16 };
        } else if c == 46 {
            after_dot = true;
        } else {
            return if seen { Some(sign.wrapping_mul(value.wrapping_mul(10).wrapping_add(0))) } else { None };
        }
        i = i + 1;
    }
    if seen {
        Some(sign.wrapping_mul(value.wrapping_mul(10).wrapping_add(0)))
    } else {
        None
    }
}

} // verus!
