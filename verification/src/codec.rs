//! Lossless textual serialization of the entity records.
//!
//! Every record is laid out as a sequence of characters: a one-character
//! record tag, the name's length as sixteen hexadecimal digits, the name's
//! characters themselves, a one-character classification tag, and then each
//! 64-bit field as sixteen hexadecimal digits. A planet additionally carries
//! its moon count and the encodings of its moons, in order. Length-prefixing
//! the name makes the format unambiguous for arbitrary name text, and
//! fixed-width numbers keep every field at a known offset.
//!
//! Encoding then decoding any record yields a record equal in all fields to
//! the original; the round-trip lemmas below state and prove exactly that.

use vstd::arithmetic::div_mod::{lemma_fundamental_div_mod, lemma_multiply_divide_lt};
use vstd::prelude::*;
use vstd::string::StrSliceExecFns;
use crate::bodies::{DwarfMoon, DwarfPlanet, HardBodyTypes, HardBodyV, Moon, Planet, PlanetTypes, PlanetV, Star, StarTypes, StarV};

verus! {

/// The number of hexadecimal digits every 64-bit field is written with.
pub const FIELD_DIGITS: usize = 16;

/// `16^n`: how many values `n` hexadecimal digits can distinguish.
pub open spec fn pow16(n: nat) -> nat
    decreases n,
{
    if n == 0 {
        1
    } else {
        16 * pow16((n - 1) as nat)
    }
}

/// The hexadecimal digit character for a value below sixteen.
pub open spec fn hex_char(d: nat) -> char {
    if d == 0 {
        '0'
    } else if d == 1 {
        '1'
    } else if d == 2 {
        '2'
    } else if d == 3 {
        '3'
    } else if d == 4 {
        '4'
    } else if d == 5 {
        '5'
    } else if d == 6 {
        '6'
    } else if d == 7 {
        '7'
    } else if d == 8 {
        '8'
    } else if d == 9 {
        '9'
    } else if d == 10 {
        'a'
    } else if d == 11 {
        'b'
    } else if d == 12 {
        'c'
    } else if d == 13 {
        'd'
    } else if d == 14 {
        'e'
    } else {
        'f'
    }
}

/// The value of a hexadecimal digit character, or nothing for any other
/// character.
pub open spec fn hex_val(c: char) -> Option<nat> {
    if c == '0' {
        Some(0nat)
    } else if c == '1' {
        Some(1nat)
    } else if c == '2' {
        Some(2nat)
    } else if c == '3' {
        Some(3nat)
    } else if c == '4' {
        Some(4nat)
    } else if c == '5' {
        Some(5nat)
    } else if c == '6' {
        Some(6nat)
    } else if c == '7' {
        Some(7nat)
    } else if c == '8' {
        Some(8nat)
    } else if c == '9' {
        Some(9nat)
    } else if c == 'a' {
        Some(10nat)
    } else if c == 'b' {
        Some(11nat)
    } else if c == 'c' {
        Some(12nat)
    } else if c == 'd' {
        Some(13nat)
    } else if c == 'e' {
        Some(14nat)
    } else if c == 'f' {
        Some(15nat)
    } else {
        None
    }
}

proof fn lemma_hex_char_val(d: nat)
    requires
        d < 16,
    ensures
        hex_val(hex_char(d)) == Some(d),
{
}

/// The low `n` hexadecimal digits of `v`, most significant first.
pub open spec fn spec_enc_hex(v: nat, n: nat) -> Seq<char>
    decreases n,
{
    if n == 0 {
        Seq::<char>::empty()
    } else {
        spec_enc_hex(v / 16, (n - 1) as nat).push(hex_char(v % 16))
    }
}

/// The value of a sequence of hexadecimal digit characters, most significant
/// first, or nothing if any character is not a digit.
pub open spec fn spec_dec_hex(s: Seq<char>) -> Option<nat>
    decreases s.len(),
{
    if s.len() == 0 {
        Some(0nat)
    } else {
        match (spec_dec_hex(s.drop_last()), hex_val(s.last())) {
            (Some(hi), Some(d)) => Some(hi * 16 + d),
            _ => None,
        }
    }
}

/// A 64-bit field as its fixed-width digit sequence.
pub open spec fn spec_enc_u64(v: u64) -> Seq<char> {
    spec_enc_hex(v as nat, FIELD_DIGITS as nat)
}

proof fn lemma_enc_hex_len(v: nat, n: nat)
    ensures
        spec_enc_hex(v, n).len() == n,
    decreases n,
{
    if n > 0 {
        lemma_enc_hex_len(v / 16, (n - 1) as nat);
    }
}

/// A decoded digit sequence is below `16^length`.
proof fn lemma_dec_hex_bound(s: Seq<char>)
    ensures
        spec_dec_hex(s) matches Some(x) ==> x < pow16(s.len()),
    decreases s.len(),
{
    if s.len() > 0 {
        lemma_dec_hex_bound(s.drop_last());
        if spec_dec_hex(s) is Some {
            let hi = spec_dec_hex(s.drop_last()).unwrap();
            let d = hex_val(s.last()).unwrap();
            assert(d < 16);
            assert(hi * 16 + d < 16 * pow16((s.len() - 1) as nat));
        }
    }
}

proof fn lemma_pow16_increases(a: nat, b: nat)
    requires
        a <= b,
    ensures
        pow16(a) <= pow16(b),
    decreases b,
{
    if a < b && b > 0 {
        lemma_pow16_increases(a, (b - 1) as nat);
    }
}

/// Decoding inverts encoding for any value the digits can hold.
proof fn lemma_hex_round_trip(v: nat, n: nat)
    requires
        v < pow16(n),
    ensures
        spec_dec_hex(spec_enc_hex(v, n)) == Some(v),
    decreases n,
{
    if n > 0 {
        let e = spec_enc_hex(v, n);
        lemma_enc_hex_len(v / 16, (n - 1) as nat);
        assert(e.drop_last() =~= spec_enc_hex(v / 16, (n - 1) as nat));
        lemma_multiply_divide_lt(v as int, 16, pow16((n - 1) as nat) as int);
        lemma_hex_round_trip(v / 16, (n - 1) as nat);
        lemma_hex_char_val(v % 16);
        lemma_fundamental_div_mod(v as int, 16);
    }
}

proof fn lemma_pow16_u64()
    ensures
        pow16(16) == 0x1_0000_0000_0000_0000,
        pow16(15) == 0x1000_0000_0000_0000,
{
    reveal_with_fuel(pow16, 17);
}

/// Every 64-bit value survives the digit round trip.
pub proof fn lemma_u64_round_trip(v: u64)
    ensures
        spec_dec_hex(spec_enc_u64(v)) == Some(v as nat),
        spec_enc_u64(v).len() == FIELD_DIGITS,
{
    lemma_pow16_u64();
    lemma_hex_round_trip(v as nat, FIELD_DIGITS as nat);
    lemma_enc_hex_len(v as nat, FIELD_DIGITS as nat);
}

fn hex_char_exec(d: u64) -> (c: char)
    requires
        d < 16,
    ensures
        c == hex_char(d as nat),
{
    if d == 0 {
        '0'
    } else if d == 1 {
        '1'
    } else if d == 2 {
        '2'
    } else if d == 3 {
        '3'
    } else if d == 4 {
        '4'
    } else if d == 5 {
        '5'
    } else if d == 6 {
        '6'
    } else if d == 7 {
        '7'
    } else if d == 8 {
        '8'
    } else if d == 9 {
        '9'
    } else if d == 10 {
        'a'
    } else if d == 11 {
        'b'
    } else if d == 12 {
        'c'
    } else if d == 13 {
        'd'
    } else if d == 14 {
        'e'
    } else {
        'f'
    }
}

fn hex_val_exec(c: char) -> (r: Option<u64>)
    ensures
        match r {
            Some(d) => hex_val(c) == Some(d as nat) && d < 16,
            None => hex_val(c) is None,
        },
{
    if c == '0' {
        Some(0)
    } else if c == '1' {
        Some(1)
    } else if c == '2' {
        Some(2)
    } else if c == '3' {
        Some(3)
    } else if c == '4' {
        Some(4)
    } else if c == '5' {
        Some(5)
    } else if c == '6' {
        Some(6)
    } else if c == '7' {
        Some(7)
    } else if c == '8' {
        Some(8)
    } else if c == '9' {
        Some(9)
    } else if c == 'a' {
        Some(10)
    } else if c == 'b' {
        Some(11)
    } else if c == 'c' {
        Some(12)
    } else if c == 'd' {
        Some(13)
    } else if c == 'e' {
        Some(14)
    } else if c == 'f' {
        Some(15)
    } else {
        None
    }
}

/// Append the fixed-width digits of `v`'s low `n` nibbles to `out`.
fn encode_hex_into(out: &mut Vec<char>, v: u64, n: usize)
    requires
        n <= FIELD_DIGITS,
    ensures
        final(out)@ == old(out)@ + spec_enc_hex(v as nat, n as nat),
    decreases n,
{
    if n == 0 {
        proof {
            assert(out@ =~= out@ + spec_enc_hex(v as nat, 0));
        }
    } else {
        encode_hex_into(out, v / 16, n - 1);
        out.push(hex_char_exec(v % 16));
        proof {
            assert((v as nat) / 16 == (v / 16) as nat);
            assert((v as nat) % 16 == (v % 16) as nat);
            assert(out@ =~= old(out)@ + spec_enc_hex(v as nat, n as nat));
        }
    }
}

/// Read the `n` digit characters of `s` starting at `start` as one number.
fn decode_hex_at(s: &Vec<char>, start: usize, n: usize) -> (r: Option<u64>)
    requires
        start + n <= s@.len(),
        n <= FIELD_DIGITS,
    ensures
        match r {
            Some(x) => spec_dec_hex(s@.subrange(start as int, start + n)) == Some(x as nat),
            None => spec_dec_hex(s@.subrange(start as int, start + n)) is None,
        },
    decreases n,
{
    let ghost sub = s@.subrange(start as int, start + n);
    let slen: usize = s.len();
    assert(start + n <= slen);
    if n == 0 {
        proof {
            assert(sub =~= Seq::<char>::empty());
        }
        Some(0)
    } else {
        proof {
            assert(sub.drop_last() =~= s@.subrange(start as int, start + (n - 1)));
            assert(sub.last() == s@[start + n - 1]);
        }
        match decode_hex_at(s, start, n - 1) {
            None => None,
            Some(hi) => {
                match hex_val_exec(s[start + n - 1]) {
                    None => None,
                    Some(d) => {
                        proof {
                            lemma_dec_hex_bound(s@.subrange(start as int, start + (n - 1)));
                            lemma_pow16_increases((n - 1) as nat, 15);
                            lemma_pow16_u64();
                        }
                        Some(hi * 16 + d)
                    },
                }
            },
        }
    }
}


/// Relies on `String::push`: it appends the given character to the end of
/// the string.
#[verifier::external_body]
fn push_char(s: &mut String, c: char)
    ensures
        final(s)@ == old(s)@.push(c),
{
    s.push(c);
}

/// Append every character of `s` to `out`, in order.
fn push_str_chars(out: &mut Vec<char>, s: &str)
    ensures
        final(out)@ == old(out)@ + s@,
{
    let ghost base = out@;
    let n = s.unicode_len();
    let mut i: usize = 0;
    while i < n
        invariant
            n == s@.len(),
            i <= n,
            out@ == base + s@.subrange(0, i as int),
        decreases n - i,
    {
        out.push(s.get_char(i));
        i = i + 1;
        proof {
            assert(out@ =~= base + s@.subrange(0, i as int));
        }
    }
    proof {
        assert(base + s@.subrange(0, n as int) =~= base + s@);
    }
}

/// Collect the characters of `s` from `start` on, `len` of them, as a string.
fn read_string(s: &Vec<char>, start: usize, len: usize) -> (r: String)
    requires
        start + len <= s@.len(),
    ensures
        r@ == s@.subrange(start as int, start + len),
{
    let mut r = String::new();
    let mut i: usize = 0;
    while i < len
        invariant
            start + len <= s@.len(),
            i <= len,
            r@ == s@.subrange(start as int, start + i),
        decreases len - i,
    {
        let slen: usize = s.len();
        push_char(&mut r, s[start + i]);
        i = i + 1;
        proof {
            assert(r@ =~= s@.subrange(start as int, start + i));
        }
    }
    r
}

/// The one-character tag of a star's spectral class.
pub open spec fn star_type_char(t: StarTypes) -> char {
    match t {
        StarTypes::O => 'O',
        StarTypes::B => 'B',
        StarTypes::A => 'A',
        StarTypes::F => 'F',
        StarTypes::G => 'G',
        StarTypes::K => 'K',
        StarTypes::M => 'M',
        StarTypes::Neutron => 'N',
        StarTypes::Pulsar => 'P',
        StarTypes::Supernova => 'S',
        StarTypes::Other => 'X',
    }
}

/// The spectral class a tag character denotes, or nothing for any other
/// character.
pub open spec fn star_type_of_char(c: char) -> Option<StarTypes> {
    if c == 'O' {
        Some(StarTypes::O)
    } else if c == 'B' {
        Some(StarTypes::B)
    } else if c == 'A' {
        Some(StarTypes::A)
    } else if c == 'F' {
        Some(StarTypes::F)
    } else if c == 'G' {
        Some(StarTypes::G)
    } else if c == 'K' {
        Some(StarTypes::K)
    } else if c == 'M' {
        Some(StarTypes::M)
    } else if c == 'N' {
        Some(StarTypes::Neutron)
    } else if c == 'P' {
        Some(StarTypes::Pulsar)
    } else if c == 'S' {
        Some(StarTypes::Supernova)
    } else if c == 'X' {
        Some(StarTypes::Other)
    } else {
        None
    }
}

proof fn lemma_star_type_char(t: StarTypes)
    ensures
        star_type_of_char(star_type_char(t)) == Some(t),
{
}

fn star_type_char_exec(t: StarTypes) -> (c: char)
    ensures
        c == star_type_char(t),
{
    match t {
        StarTypes::O => 'O',
        StarTypes::B => 'B',
        StarTypes::A => 'A',
        StarTypes::F => 'F',
        StarTypes::G => 'G',
        StarTypes::K => 'K',
        StarTypes::M => 'M',
        StarTypes::Neutron => 'N',
        StarTypes::Pulsar => 'P',
        StarTypes::Supernova => 'S',
        StarTypes::Other => 'X',
    }
}

fn star_type_of_char_exec(c: char) -> (r: Option<StarTypes>)
    ensures
        r == star_type_of_char(c),
{
    if c == 'O' {
        Some(StarTypes::O)
    } else if c == 'B' {
        Some(StarTypes::B)
    } else if c == 'A' {
        Some(StarTypes::A)
    } else if c == 'F' {
        Some(StarTypes::F)
    } else if c == 'G' {
        Some(StarTypes::G)
    } else if c == 'K' {
        Some(StarTypes::K)
    } else if c == 'M' {
        Some(StarTypes::M)
    } else if c == 'N' {
        Some(StarTypes::Neutron)
    } else if c == 'P' {
        Some(StarTypes::Pulsar)
    } else if c == 'S' {
        Some(StarTypes::Supernova)
    } else if c == 'X' {
        Some(StarTypes::Other)
    } else {
        None
    }
}

/// The encoding of a star record: tag, name length, name, spectral class,
/// seed.
pub open spec fn spec_encode_star(s: StarV) -> Seq<char> {
    seq!['*'] + spec_enc_u64(s.name.len() as u64) + s.name + seq![star_type_char(s.star_type)]
        + spec_enc_u64(s.seed)
}

/// The star record a character sequence denotes, or nothing if the sequence
/// is not exactly one star encoding.
pub open spec fn spec_decode_star(s: Seq<char>) -> Option<StarV> {
    if s.len() < 34 || s[0] != '*' {
        None
    } else {
        match spec_dec_hex(s.subrange(1, 17)) {
            None => None,
            Some(nlen) => if s.len() == 34 + nlen {
                let name = s.subrange(17, 17 + nlen as int);
                match (star_type_of_char(s[17 + nlen as int]), spec_dec_hex(
                    s.subrange(18 + nlen as int, 34 + nlen as int),
                )) {
                    (Some(t), Some(sd)) => Some(
                        StarV { name, star_type: t, seed: sd as u64 },
                    ),
                    _ => None,
                }
            } else {
                None
            },
        }
    }
}

/// Round trip: decoding the encoding of any star record yields that record.
/// The one bound asked of the record is the machine limit that its name fit
/// in a 64-bit length field.
pub proof fn lemma_star_round_trip(s: StarV)
    requires
        s.name.len() < 0x1_0000_0000_0000_0000,
    ensures
        spec_decode_star(spec_encode_star(s)) == Some(s),
{
    let e = spec_encode_star(s);
    let nlen = s.name.len();
    lemma_u64_round_trip(nlen as u64);
    lemma_u64_round_trip(s.seed);
    lemma_star_type_char(s.star_type);
    assert(e.len() == 34 + nlen);
    assert(e[0] == '*');
    assert(e.subrange(1, 17) =~= spec_enc_u64(nlen as u64));
    assert(e.subrange(17, 17 + nlen as int) =~= s.name);
    assert(e[17 + nlen as int] == star_type_char(s.star_type));
    assert(e.subrange(18 + nlen as int, 34 + nlen as int) =~= spec_enc_u64(s.seed));
    assert(spec_decode_star(e) == Some(s));
}

/// Encode a star, field for field.
pub fn encode_star(star: &Star) -> (out: Vec<char>)
    ensures
        out@ == spec_encode_star(star@),
{
    let mut out: Vec<char> = Vec::new();
    out.push('*');
    let nlen = star.name.as_str().unicode_len();
    encode_hex_into(&mut out, nlen as u64, FIELD_DIGITS);
    push_str_chars(&mut out, star.name.as_str());
    out.push(star_type_char_exec(star.star_type));
    encode_hex_into(&mut out, star.seed, FIELD_DIGITS);
    proof {
        assert(out@ =~= spec_encode_star(star@));
    }
    out
}

/// Decode a star record: succeeds exactly on the sequences that are star
/// encodings, and then reproduces the encoded record.
pub fn decode_star(v: &Vec<char>) -> (r: Option<Star>)
    ensures
        match r {
            Some(st) => spec_decode_star(v@) == Some(st@),
            None => spec_decode_star(v@) is None,
        },
{
    let vlen = v.len();
    if vlen < 34 {
        return None;
    }
    if v[0] != '*' {
        return None;
    }
    let nlen64 = match decode_hex_at(v, 1, FIELD_DIGITS) {
        None => {
            return None;
        },
        Some(x) => x,
    };
    let rest = vlen - 34;
    if nlen64 != rest as u64 {
        return None;
    }
    let nlen = rest;
    let name = read_string(v, 17, nlen);
    let t = match star_type_of_char_exec(v[17 + nlen]) {
        None => {
            return None;
        },
        Some(t) => t,
    };
    let sd = match decode_hex_at(v, 18 + nlen, FIELD_DIGITS) {
        None => {
            return None;
        },
        Some(x) => x,
    };
    let st = Star { name, star_type: t, seed: sd };
    proof {
        assert(spec_decode_star(v@) == Some(st@));
    }
    Some(st)
}


/// The one-character tag of a solid small body's material class.
pub open spec fn hard_type_char(t: HardBodyTypes) -> char {
    match t {
        HardBodyTypes::Rocky => 'R',
        HardBodyTypes::Ice => 'I',
        HardBodyTypes::Water => 'W',
        HardBodyTypes::Ammonia => 'A',
        HardBodyTypes::Iron => 'N',
        HardBodyTypes::Other => 'X',
    }
}

/// The material class a tag character denotes, or nothing for any other
/// character.
pub open spec fn hard_type_of_char(c: char) -> Option<HardBodyTypes> {
    if c == 'R' {
        Some(HardBodyTypes::Rocky)
    } else if c == 'I' {
        Some(HardBodyTypes::Ice)
    } else if c == 'W' {
        Some(HardBodyTypes::Water)
    } else if c == 'A' {
        Some(HardBodyTypes::Ammonia)
    } else if c == 'N' {
        Some(HardBodyTypes::Iron)
    } else if c == 'X' {
        Some(HardBodyTypes::Other)
    } else {
        None
    }
}

proof fn lemma_hard_type_char(t: HardBodyTypes)
    ensures
        hard_type_of_char(hard_type_char(t)) == Some(t),
{
}

fn hard_type_char_exec(t: HardBodyTypes) -> (c: char)
    ensures
        c == hard_type_char(t),
{
    match t {
        HardBodyTypes::Rocky => 'R',
        HardBodyTypes::Ice => 'I',
        HardBodyTypes::Water => 'W',
        HardBodyTypes::Ammonia => 'A',
        HardBodyTypes::Iron => 'N',
        HardBodyTypes::Other => 'X',
    }
}

fn hard_type_of_char_exec(c: char) -> (r: Option<HardBodyTypes>)
    ensures
        r == hard_type_of_char(c),
{
    if c == 'R' {
        Some(HardBodyTypes::Rocky)
    } else if c == 'I' {
        Some(HardBodyTypes::Ice)
    } else if c == 'W' {
        Some(HardBodyTypes::Water)
    } else if c == 'A' {
        Some(HardBodyTypes::Ammonia)
    } else if c == 'N' {
        Some(HardBodyTypes::Iron)
    } else if c == 'X' {
        Some(HardBodyTypes::Other)
    } else {
        None
    }
}

/// The encoding of a solid-small-body record under a given record tag: tag,
/// name length, name, material class, seed, radius, mass.
pub open spec fn spec_encode_hard(tag: char, b: HardBodyV) -> Seq<char> {
    seq![tag] + spec_enc_u64(b.name.len() as u64) + b.name + seq![hard_type_char(b.hard_body_type)]
        + spec_enc_u64(b.seed) + spec_enc_u64(b.radius) + spec_enc_u64(b.mass)
}

/// How many characters the encoding of `b` occupies.
pub open spec fn spec_hard_len(b: HardBodyV) -> int {
    66 + b.name.len() as int
}

/// Parse one solid-small-body record at `start`, returning the record and
/// the position just past it, or nothing if no record with this tag starts
/// there.
pub open spec fn spec_parse_hard(s: Seq<char>, start: int, tag: char) -> Option<(HardBodyV, int)> {
    if start < 0 || start + 66 > s.len() || s[start] != tag {
        None
    } else {
        match spec_dec_hex(s.subrange(start + 1, start + 17)) {
            None => None,
            Some(nlen) => if start + 66 + nlen <= s.len() {
                let name = s.subrange(start + 17, start + 17 + nlen as int);
                let p = start + 17 + nlen as int;
                match (hard_type_of_char(s[p]), spec_dec_hex(s.subrange(p + 1, p + 17)), spec_dec_hex(
                    s.subrange(p + 17, p + 33),
                ), spec_dec_hex(s.subrange(p + 33, p + 49))) {
                    (Some(t), Some(sd), Some(ra), Some(ma)) => Some(
                        (
                            HardBodyV {
                                name,
                                hard_body_type: t,
                                seed: sd as u64,
                                radius: ra as u64,
                                mass: ma as u64,
                            },
                            p + 49,
                        ),
                    ),
                    _ => None,
                }
            } else {
                None
            },
        }
    }
}

/// A whole input is one solid-small-body record exactly when a record parses
/// at its start and ends at its end.
pub open spec fn spec_decode_hard(s: Seq<char>, tag: char) -> Option<HardBodyV> {
    match spec_parse_hard(s, 0, tag) {
        Some((b, end)) => if end == s.len() {
            Some(b)
        } else {
            None
        },
        None => None,
    }
}

/// Wherever the encoding of `b` sits inside a larger sequence, parsing at
/// its position recovers `b` and stops just past it.
proof fn lemma_parse_hard_at(s: Seq<char>, start: int, tag: char, b: HardBodyV)
    requires
        b.name.len() < 0x1_0000_0000_0000_0000,
        0 <= start,
        start + spec_hard_len(b) <= s.len(),
        s.subrange(start, start + spec_hard_len(b)) == spec_encode_hard(tag, b),
    ensures
        spec_parse_hard(s, start, tag) == Some((b, start + spec_hard_len(b))),
{
    let e = spec_encode_hard(tag, b);
    let nlen = b.name.len();
    let ll = spec_hard_len(b);
    lemma_u64_round_trip(nlen as u64);
    lemma_u64_round_trip(b.seed);
    lemma_u64_round_trip(b.radius);
    lemma_u64_round_trip(b.mass);
    lemma_hard_type_char(b.hard_body_type);
    assert(e.len() == ll);
    assert forall|i: int| 0 <= i < ll implies s[start + i] == e[i] by {
        assert(s.subrange(start, start + ll)[i] == s[start + i]);
    }
    assert(s[start] == e[0]);
    let q = 17 + nlen as int;
    assert(e.subrange(1, 17) =~= spec_enc_u64(nlen as u64));
    assert(e.subrange(17, q) =~= b.name);
    assert(e.subrange(q + 1, q + 17) =~= spec_enc_u64(b.seed));
    assert(e.subrange(q + 17, q + 33) =~= spec_enc_u64(b.radius));
    assert(e.subrange(q + 33, q + 49) =~= spec_enc_u64(b.mass));
    assert(s.subrange(start + 1, start + 17) =~= e.subrange(1, 17));
    assert(s.subrange(start + 17, start + q) =~= e.subrange(17, q));
    let p = start + q;
    assert(s[p] == e[q]);
    assert(s.subrange(p + 1, p + 17) =~= e.subrange(q + 1, q + 17));
    assert(s.subrange(p + 17, p + 33) =~= e.subrange(q + 17, q + 33));
    assert(s.subrange(p + 33, p + 49) =~= e.subrange(q + 33, q + 49));
    assert(spec_parse_hard(s, start, tag) == Some((b, start + ll)));
}

/// Round trip: decoding the encoding of any solid-small-body record yields
/// that record, whatever the record tag.
pub proof fn lemma_hard_round_trip(tag: char, b: HardBodyV)
    requires
        b.name.len() < 0x1_0000_0000_0000_0000,
    ensures
        spec_decode_hard(spec_encode_hard(tag, b), tag) == Some(b),
{
    let e = spec_encode_hard(tag, b);
    lemma_u64_round_trip(b.name.len() as u64);
    lemma_u64_round_trip(b.seed);
    lemma_u64_round_trip(b.radius);
    lemma_u64_round_trip(b.mass);
    assert(e.len() == spec_hard_len(b));
    assert(e.subrange(0, spec_hard_len(b)) =~= e);
    lemma_parse_hard_at(e, 0, tag, b);
}

/// Append the encoding of one solid-small-body record to `out`.
fn encode_hard_into(
    out: &mut Vec<char>,
    tag: char,
    name: &String,
    t: HardBodyTypes,
    sd: u64,
    ra: u64,
    ma: u64,
)
    ensures
        final(out)@ == old(out)@ + spec_encode_hard(
            tag,
            HardBodyV { name: name@, hard_body_type: t, seed: sd, radius: ra, mass: ma },
        ),
{
    let ghost base = out@;
    out.push(tag);
    let nlen = name.as_str().unicode_len();
    encode_hex_into(out, nlen as u64, FIELD_DIGITS);
    push_str_chars(out, name.as_str());
    out.push(hard_type_char_exec(t));
    encode_hex_into(out, sd, FIELD_DIGITS);
    encode_hex_into(out, ra, FIELD_DIGITS);
    encode_hex_into(out, ma, FIELD_DIGITS);
    proof {
        assert(out@ =~= base + spec_encode_hard(
            tag,
            HardBodyV { name: name@, hard_body_type: t, seed: sd, radius: ra, mass: ma },
        ));
    }
}

/// Parse one solid-small-body record at `start`, returning its fields and
/// the position just past it.
fn parse_hard_at(v: &Vec<char>, start: usize, tag: char) -> (r: Option<
    (String, HardBodyTypes, u64, u64, u64, usize),
>)
    ensures
        match r {
            Some((name, t, sd, ra, ma, next)) => spec_parse_hard(v@, start as int, tag) == Some(
                (
                    HardBodyV { name: name@, hard_body_type: t, seed: sd, radius: ra, mass: ma },
                    next as int,
                ),
            ),
            None => spec_parse_hard(v@, start as int, tag) is None,
        },
{
    let vlen = v.len();
    if start > vlen || vlen - start < 66 {
        return None;
    }
    if v[start] != tag {
        return None;
    }
    let nlen64 = match decode_hex_at(v, start + 1, FIELD_DIGITS) {
        None => {
            return None;
        },
        Some(x) => x,
    };
    let avail = vlen - start - 66;
    if nlen64 > avail as u64 {
        return None;
    }
    let nlen = nlen64 as usize;
    let name = read_string(v, start + 17, nlen);
    let p = start + 17 + nlen;
    let t = match hard_type_of_char_exec(v[p]) {
        None => {
            return None;
        },
        Some(t) => t,
    };
    let sd = match decode_hex_at(v, p + 1, FIELD_DIGITS) {
        None => {
            return None;
        },
        Some(x) => x,
    };
    let ra = match decode_hex_at(v, p + 17, FIELD_DIGITS) {
        None => {
            return None;
        },
        Some(x) => x,
    };
    let ma = match decode_hex_at(v, p + 33, FIELD_DIGITS) {
        None => {
            return None;
        },
        Some(x) => x,
    };
    let next = p + 49;
    proof {
        assert(spec_parse_hard(v@, start as int, tag) == Some(
            (
                HardBodyV { name: name@, hard_body_type: t, seed: sd, radius: ra, mass: ma },
                next as int,
            ),
        ));
    }
    Some((name, t, sd, ra, ma, next))
}

/// The encoding of a moon record.
pub open spec fn spec_encode_moon(b: HardBodyV) -> Seq<char> {
    spec_encode_hard('M', b)
}

/// The moon record a character sequence denotes.
pub open spec fn spec_decode_moon(s: Seq<char>) -> Option<HardBodyV> {
    spec_decode_hard(s, 'M')
}

/// Round trip: decoding the encoding of any moon record yields that record.
pub proof fn lemma_moon_round_trip(b: HardBodyV)
    requires
        b.name.len() < 0x1_0000_0000_0000_0000,
    ensures
        spec_decode_moon(spec_encode_moon(b)) == Some(b),
{
    lemma_hard_round_trip('M', b);
}

/// Encode a moon, field for field.
pub fn encode_moon(m: &Moon) -> (out: Vec<char>)
    ensures
        out@ == spec_encode_moon(m@),
{
    let mut out: Vec<char> = Vec::new();
    encode_hard_into(&mut out, 'M', &m.name, m.hard_body_type, m.seed, m.radius, m.mass);
    proof {
        assert(out@ =~= spec_encode_moon(m@));
    }
    out
}

/// Decode a moon record: succeeds exactly on the sequences that are moon
/// encodings, and then reproduces the encoded record.
pub fn decode_moon(v: &Vec<char>) -> (r: Option<Moon>)
    ensures
        match r {
            Some(m) => spec_decode_moon(v@) == Some(m@),
            None => spec_decode_moon(v@) is None,
        },
{
    match parse_hard_at(v, 0, 'M') {
        None => None,
        Some((name, t, sd, ra, ma, next)) => {
            if next == v.len() {
                Some(Moon { name, hard_body_type: t, seed: sd, radius: ra, mass: ma })
            } else {
                None
            }
        },
    }
}

/// The encoding of a dwarf-planet record.
pub open spec fn spec_encode_dwarf_planet(b: HardBodyV) -> Seq<char> {
    spec_encode_hard('D', b)
}

/// The dwarf-planet record a character sequence denotes.
pub open spec fn spec_decode_dwarf_planet(s: Seq<char>) -> Option<HardBodyV> {
    spec_decode_hard(s, 'D')
}

/// Round trip: decoding the encoding of any dwarf-planet record yields that
/// record.
pub proof fn lemma_dwarf_planet_round_trip(b: HardBodyV)
    requires
        b.name.len() < 0x1_0000_0000_0000_0000,
    ensures
        spec_decode_dwarf_planet(spec_encode_dwarf_planet(b)) == Some(b),
{
    lemma_hard_round_trip('D', b);
}

/// Encode a dwarf planet, field for field.
pub fn encode_dwarf_planet(m: &DwarfPlanet) -> (out: Vec<char>)
    ensures
        out@ == spec_encode_dwarf_planet(m@),
{
    let mut out: Vec<char> = Vec::new();
    encode_hard_into(&mut out, 'D', &m.name, m.hard_body_type, m.seed, m.radius, m.mass);
    proof {
        assert(out@ =~= spec_encode_dwarf_planet(m@));
    }
    out
}

/// Decode a dwarf-planet record: succeeds exactly on the sequences that are
/// dwarf-planet encodings, and then reproduces the encoded record.
pub fn decode_dwarf_planet(v: &Vec<char>) -> (r: Option<DwarfPlanet>)
    ensures
        match r {
            Some(m) => spec_decode_dwarf_planet(v@) == Some(m@),
            None => spec_decode_dwarf_planet(v@) is None,
        },
{
    match parse_hard_at(v, 0, 'D') {
        None => None,
        Some((name, t, sd, ra, ma, next)) => {
            if next == v.len() {
                Some(DwarfPlanet { name, hard_body_type: t, seed: sd, radius: ra, mass: ma })
            } else {
                None
            }
        },
    }
}

/// The encoding of a dwarf-moon record.
pub open spec fn spec_encode_dwarf_moon(b: HardBodyV) -> Seq<char> {
    spec_encode_hard('W', b)
}

/// The dwarf-moon record a character sequence denotes.
pub open spec fn spec_decode_dwarf_moon(s: Seq<char>) -> Option<HardBodyV> {
    spec_decode_hard(s, 'W')
}

/// Round trip: decoding the encoding of any dwarf-moon record yields that
/// record.
pub proof fn lemma_dwarf_moon_round_trip(b: HardBodyV)
    requires
        b.name.len() < 0x1_0000_0000_0000_0000,
    ensures
        spec_decode_dwarf_moon(spec_encode_dwarf_moon(b)) == Some(b),
{
    lemma_hard_round_trip('W', b);
}

/// Encode a dwarf moon, field for field.
pub fn encode_dwarf_moon(m: &DwarfMoon) -> (out: Vec<char>)
    ensures
        out@ == spec_encode_dwarf_moon(m@),
{
    let mut out: Vec<char> = Vec::new();
    encode_hard_into(&mut out, 'W', &m.name, m.hard_body_type, m.seed, m.radius, m.mass);
    proof {
        assert(out@ =~= spec_encode_dwarf_moon(m@));
    }
    out
}

/// Decode a dwarf-moon record: succeeds exactly on the sequences that are
/// dwarf-moon encodings, and then reproduces the encoded record.
pub fn decode_dwarf_moon(v: &Vec<char>) -> (r: Option<DwarfMoon>)
    ensures
        match r {
            Some(m) => spec_decode_dwarf_moon(v@) == Some(m@),
            None => spec_decode_dwarf_moon(v@) is None,
        },
{
    match parse_hard_at(v, 0, 'W') {
        None => None,
        Some((name, t, sd, ra, ma, next)) => {
            if next == v.len() {
                Some(DwarfMoon { name, hard_body_type: t, seed: sd, radius: ra, mass: ma })
            } else {
                None
            }
        },
    }
}


/// The one-character tag of a planet's composition class.
pub open spec fn planet_type_char(t: PlanetTypes) -> char {
    match t {
        PlanetTypes::GasGiant => 'g',
        PlanetTypes::Terrestrial => 't',
        PlanetTypes::IceGiant => 'i',
        PlanetTypes::Rocky => 'r',
        PlanetTypes::Barren => 'b',
        PlanetTypes::Desert => 'd',
        PlanetTypes::Ocean => 'o',
        PlanetTypes::Other => 'x',
    }
}

/// The composition class a tag character denotes, or nothing for any other
/// character.
pub open spec fn planet_type_of_char(c: char) -> Option<PlanetTypes> {
    if c == 'g' {
        Some(PlanetTypes::GasGiant)
    } else if c == 't' {
        Some(PlanetTypes::Terrestrial)
    } else if c == 'i' {
        Some(PlanetTypes::IceGiant)
    } else if c == 'r' {
        Some(PlanetTypes::Rocky)
    } else if c == 'b' {
        Some(PlanetTypes::Barren)
    } else if c == 'd' {
        Some(PlanetTypes::Desert)
    } else if c == 'o' {
        Some(PlanetTypes::Ocean)
    } else if c == 'x' {
        Some(PlanetTypes::Other)
    } else {
        None
    }
}

proof fn lemma_planet_type_char(t: PlanetTypes)
    ensures
        planet_type_of_char(planet_type_char(t)) == Some(t),
{
}

fn planet_type_char_exec(t: PlanetTypes) -> (c: char)
    ensures
        c == planet_type_char(t),
{
    match t {
        PlanetTypes::GasGiant => 'g',
        PlanetTypes::Terrestrial => 't',
        PlanetTypes::IceGiant => 'i',
        PlanetTypes::Rocky => 'r',
        PlanetTypes::Barren => 'b',
        PlanetTypes::Desert => 'd',
        PlanetTypes::Ocean => 'o',
        PlanetTypes::Other => 'x',
    }
}

fn planet_type_of_char_exec(c: char) -> (r: Option<PlanetTypes>)
    ensures
        r == planet_type_of_char(c),
{
    if c == 'g' {
        Some(PlanetTypes::GasGiant)
    } else if c == 't' {
        Some(PlanetTypes::Terrestrial)
    } else if c == 'i' {
        Some(PlanetTypes::IceGiant)
    } else if c == 'r' {
        Some(PlanetTypes::Rocky)
    } else if c == 'b' {
        Some(PlanetTypes::Barren)
    } else if c == 'd' {
        Some(PlanetTypes::Desert)
    } else if c == 'o' {
        Some(PlanetTypes::Ocean)
    } else if c == 'x' {
        Some(PlanetTypes::Other)
    } else {
        None
    }
}

/// The encodings of a sequence of moon records, in order.
pub open spec fn spec_encode_moons(ms: Seq<HardBodyV>) -> Seq<char>
    decreases ms.len(),
{
    if ms.len() == 0 {
        Seq::<char>::empty()
    } else {
        spec_encode_hard('M', ms.first()) + spec_encode_moons(ms.drop_first())
    }
}

proof fn lemma_hard_enc_len(tag: char, b: HardBodyV)
    ensures
        spec_encode_hard(tag, b).len() == spec_hard_len(b),
{
    lemma_u64_round_trip(b.name.len() as u64);
    lemma_u64_round_trip(b.seed);
    lemma_u64_round_trip(b.radius);
    lemma_u64_round_trip(b.mass);
}

/// Appending one moon to a batch appends its encoding to the batch's.
proof fn lemma_encode_moons_snoc(ms: Seq<HardBodyV>, m: HardBodyV)
    ensures
        spec_encode_moons(ms.push(m)) == spec_encode_moons(ms) + spec_encode_hard('M', m),
    decreases ms.len(),
{
    let em = spec_encode_hard('M', m);
    if ms.len() == 0 {
        assert(ms.push(m).first() == m);
        assert(ms.push(m).drop_first() =~= Seq::<HardBodyV>::empty());
        assert(spec_encode_moons(Seq::<HardBodyV>::empty()) == Seq::<char>::empty());
        assert(spec_encode_moons(ms.push(m)) == em + spec_encode_moons(
            ms.push(m).drop_first(),
        ));
        assert(em + Seq::<char>::empty() =~= em);
        assert(Seq::<char>::empty() + em =~= em);
    } else {
        lemma_encode_moons_snoc(ms.drop_first(), m);
        assert(ms.push(m).first() == ms.first());
        assert(ms.push(m).drop_first() =~= ms.drop_first().push(m));
        let e0 = spec_encode_hard('M', ms.first());
        let er = spec_encode_moons(ms.drop_first());
        assert(e0 + (er + em) =~= (e0 + er) + em);
    }
}

/// The encoding of a planet record: tag, name length, name, composition
/// class, seed, radius, mass, moon count, and the moons in order.
pub open spec fn spec_encode_planet(p: PlanetV) -> Seq<char> {
    seq!['P'] + spec_enc_u64(p.name.len() as u64) + p.name + seq![planet_type_char(p.planet_type)]
        + spec_enc_u64(p.seed) + spec_enc_u64(p.radius) + spec_enc_u64(p.mass) + spec_enc_u64(
        p.moons.len() as u64,
    ) + spec_encode_moons(p.moons)
}

/// Parse `count` consecutive moon records starting at `start`, returning
/// them in order with the position just past the last.
pub open spec fn spec_parse_moons(s: Seq<char>, start: int, count: nat) -> Option<
    (Seq<HardBodyV>, int),
>
    decreases count,
{
    if count == 0 {
        Some((Seq::<HardBodyV>::empty(), start))
    } else {
        match spec_parse_hard(s, start, 'M') {
            None => None,
            Some((m, next)) => match spec_parse_moons(s, next, (count - 1) as nat) {
                None => None,
                Some((rest, end)) => Some((seq![m] + rest, end)),
            },
        }
    }
}

/// The planet record a character sequence denotes, or nothing if the
/// sequence is not exactly one planet encoding.
pub open spec fn spec_decode_planet(s: Seq<char>) -> Option<PlanetV> {
    if s.len() < 82 || s[0] != 'P' {
        None
    } else {
        match spec_dec_hex(s.subrange(1, 17)) {
            None => None,
            Some(nlen) => if 82 + nlen <= s.len() {
                let name = s.subrange(17, 17 + nlen as int);
                let q = 17 + nlen as int;
                match (planet_type_of_char(s[q]), spec_dec_hex(s.subrange(q + 1, q + 17)),
                spec_dec_hex(s.subrange(q + 17, q + 33)), spec_dec_hex(
                    s.subrange(q + 33, q + 49),
                ), spec_dec_hex(s.subrange(q + 49, q + 65))) {
                    (Some(t), Some(sd), Some(ra), Some(ma), Some(cnt)) => match spec_parse_moons(
                        s,
                        q + 65,
                        cnt,
                    ) {
                        None => None,
                        Some((ms, end)) => if end == s.len() {
                            Some(
                                PlanetV {
                                    name,
                                    planet_type: t,
                                    seed: sd as u64,
                                    radius: ra as u64,
                                    mass: ma as u64,
                                    moons: ms,
                                },
                            )
                        } else {
                            None
                        },
                    },
                    _ => None,
                }
            } else {
                None
            },
        }
    }
}

/// Wherever the encodings of a moon batch sit consecutively inside a larger
/// sequence, parsing that many records recovers the batch and stops just
/// past it.
proof fn lemma_parse_moons_at(s: Seq<char>, start: int, ms: Seq<HardBodyV>)
    requires
        forall|i: int| 0 <= i < ms.len() ==> (#[trigger] ms[i]).name.len()
            < 0x1_0000_0000_0000_0000,
        0 <= start,
        start + spec_encode_moons(ms).len() <= s.len(),
        s.subrange(start, start + spec_encode_moons(ms).len()) == spec_encode_moons(ms),
    ensures
        spec_parse_moons(s, start, ms.len()) == Some((ms, start + spec_encode_moons(ms).len())),
    decreases ms.len(),
{
    if ms.len() == 0 {
        assert(ms =~= Seq::<HardBodyV>::empty());
    } else {
        let m0 = ms.first();
        let rest = ms.drop_first();
        let e0 = spec_encode_hard('M', m0);
        let er = spec_encode_moons(rest);
        let total = spec_encode_moons(ms).len() as int;
        lemma_hard_enc_len('M', m0);
        assert(spec_encode_moons(ms) == e0 + er);
        let l0 = spec_hard_len(m0);
        assert forall|i: int| 0 <= i < total implies s[start + i] == (e0 + er)[i] by {
            assert(s.subrange(start, start + total)[i] == s[start + i]);
        }
        assert(s.subrange(start, start + l0) =~= e0);
        lemma_parse_hard_at(s, start, 'M', m0);
        assert forall|j: int| 0 <= j < er.len() implies s.subrange(
            start + l0,
            start + l0 + er.len(),
        )[j] == er[j] by {
            assert(s[start + (l0 + j)] == (e0 + er)[l0 + j]);
            assert((e0 + er)[l0 + j] == er[j]);
        }
        assert(s.subrange(start + l0, start + l0 + er.len()) =~= er);
        lemma_parse_moons_at(s, start + l0, rest);
        assert(seq![m0] + rest =~= ms);
    }
}

/// Round trip: decoding the encoding of any planet record yields that
/// record. The bounds asked of the record are the machine limits that its
/// name, its moon count, and each moon's name fit a 64-bit length field.
pub proof fn lemma_planet_round_trip(p: PlanetV)
    requires
        p.name.len() < 0x1_0000_0000_0000_0000,
        p.moons.len() < 0x1_0000_0000_0000_0000,
        forall|i: int| 0 <= i < p.moons.len() ==> (#[trigger] p.moons[i]).name.len()
            < 0x1_0000_0000_0000_0000,
    ensures
        spec_decode_planet(spec_encode_planet(p)) == Some(p),
{
    let e = spec_encode_planet(p);
    let nlen = p.name.len();
    let q = 17 + nlen as int;
    lemma_u64_round_trip(nlen as u64);
    lemma_u64_round_trip(p.seed);
    lemma_u64_round_trip(p.radius);
    lemma_u64_round_trip(p.mass);
    lemma_u64_round_trip(p.moons.len() as u64);
    lemma_planet_type_char(p.planet_type);
    assert(e.len() == 82 + nlen + spec_encode_moons(p.moons).len());
    assert(e[0] == 'P');
    assert(e.subrange(1, 17) =~= spec_enc_u64(nlen as u64));
    assert(e.subrange(17, q) =~= p.name);
    assert(e[q] == planet_type_char(p.planet_type));
    assert(e.subrange(q + 1, q + 17) =~= spec_enc_u64(p.seed));
    assert(e.subrange(q + 17, q + 33) =~= spec_enc_u64(p.radius));
    assert(e.subrange(q + 33, q + 49) =~= spec_enc_u64(p.mass));
    assert(e.subrange(q + 49, q + 65) =~= spec_enc_u64(p.moons.len() as u64));
    assert(e.subrange(q + 65, e.len() as int) =~= spec_encode_moons(p.moons));
    lemma_parse_moons_at(e, q + 65, p.moons);
    assert(spec_decode_planet(e) == Some(p));
}

/// Encode a planet, field for field, its moons in order.
pub fn encode_planet(p: &Planet) -> (out: Vec<char>)
    ensures
        out@ == spec_encode_planet(p@),
{
    let mut out: Vec<char> = Vec::new();
    out.push('P');
    let nlen = p.name.as_str().unicode_len();
    encode_hex_into(&mut out, nlen as u64, FIELD_DIGITS);
    push_str_chars(&mut out, p.name.as_str());
    out.push(planet_type_char_exec(p.planet_type));
    encode_hex_into(&mut out, p.seed, FIELD_DIGITS);
    encode_hex_into(&mut out, p.radius, FIELD_DIGITS);
    encode_hex_into(&mut out, p.mass, FIELD_DIGITS);
    let mcount = p.moons.len();
    encode_hex_into(&mut out, mcount as u64, FIELD_DIGITS);
    let ghost header = out@;
    let mut i: usize = 0;
    while i < mcount
        invariant
            mcount == p.moons.len(),
            i <= mcount,
            out@ == header + spec_encode_moons(p@.moons.subrange(0, i as int)),
        decreases mcount - i,
    {
        let m = &p.moons[i];
        encode_hard_into(&mut out, 'M', &m.name, m.hard_body_type, m.seed, m.radius, m.mass);
        proof {
            assert(p@.moons[i as int] == p.moons@[i as int]@);
            lemma_encode_moons_snoc(p@.moons.subrange(0, i as int), p@.moons[i as int]);
            assert(p@.moons.subrange(0, i as int).push(p@.moons[i as int]) =~= p@.moons.subrange(
                0,
                i as int + 1,
            ));
            assert(out@ =~= header + spec_encode_moons(p@.moons.subrange(0, i as int + 1)));
        }
        i = i + 1;
    }
    proof {
        assert(p@.moons.subrange(0, mcount as int) =~= p@.moons);
        assert(out@ =~= spec_encode_planet(p@));
    }
    out
}

/// Parse `count` consecutive moon records starting at `start`.
fn parse_moons_at(v: &Vec<char>, start: usize, count: u64) -> (r: Option<(Vec<Moon>, usize)>)
    ensures
        match r {
            Some(pair) => spec_parse_moons(v@, start as int, count as nat) == Some(
                (pair.0@.map_values(|m: Moon| m@), pair.1 as int),
            ),
            None => spec_parse_moons(v@, start as int, count as nat) is None,
        },
    decreases count,
{
    if count == 0 {
        let ms: Vec<Moon> = Vec::new();
        proof {
            assert(ms@.map_values(|m: Moon| m@) =~= Seq::<HardBodyV>::empty());
        }
        Some((ms, start))
    } else {
        match parse_hard_at(v, start, 'M') {
            None => None,
            Some((name, t, sd, ra, ma, next)) => {
                match parse_moons_at(v, next, count - 1) {
                    None => None,
                    Some((mut rest, end)) => {
                        let ghost rm = rest@.map_values(|m: Moon| m@);
                        let m = Moon { name, hard_body_type: t, seed: sd, radius: ra, mass: ma };
                        let ghost mv = m@;
                        rest.insert(0, m);
                        proof {
                            assert(rest@.map_values(|m: Moon| m@) =~= seq![mv] + rm);
                        }
                        Some((rest, end))
                    },
                }
            },
        }
    }
}

/// Decode a planet record: succeeds exactly on the sequences that are planet
/// encodings, and then reproduces the encoded record, moons in order.
pub fn decode_planet(v: &Vec<char>) -> (r: Option<Planet>)
    ensures
        match r {
            Some(p) => spec_decode_planet(v@) == Some(p@),
            None => spec_decode_planet(v@) is None,
        },
{
    let vlen = v.len();
    if vlen < 82 {
        return None;
    }
    if v[0] != 'P' {
        return None;
    }
    let nlen64 = match decode_hex_at(v, 1, FIELD_DIGITS) {
        None => {
            return None;
        },
        Some(x) => x,
    };
    let avail = vlen - 82;
    if nlen64 > avail as u64 {
        return None;
    }
    let nlen = nlen64 as usize;
    let name = read_string(v, 17, nlen);
    let q = 17 + nlen;
    let t = match planet_type_of_char_exec(v[q]) {
        None => {
            return None;
        },
        Some(t) => t,
    };
    let sd = match decode_hex_at(v, q + 1, FIELD_DIGITS) {
        None => {
            return None;
        },
        Some(x) => x,
    };
    let ra = match decode_hex_at(v, q + 17, FIELD_DIGITS) {
        None => {
            return None;
        },
        Some(x) => x,
    };
    let ma = match decode_hex_at(v, q + 33, FIELD_DIGITS) {
        None => {
            return None;
        },
        Some(x) => x,
    };
    let cnt = match decode_hex_at(v, q + 49, FIELD_DIGITS) {
        None => {
            return None;
        },
        Some(x) => x,
    };
    match parse_moons_at(v, q + 65, cnt) {
        None => None,
        Some((moons, end)) => {
            if end == vlen {
                let pl = Planet { name, planet_type: t, seed: sd, radius: ra, mass: ma, moons };
                proof {
                    assert(spec_decode_planet(v@) == Some(pl@));
                }
                Some(pl)
            } else {
                None
            }
        },
    }
}

} // verus!
