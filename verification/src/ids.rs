//! UUID identifiers: parsing, text form and generation through the `uuid` crate.

use vstd::arithmetic::div_mod::lemma_fundamental_div_mod_converse;
use vstd::prelude::*;

verus! {

/// The hexadecimal digit (lower case) of a value below 16.
pub open spec fn hex_char(d: int) -> char {
    if d < 10 {
        (('0' as int) + d) as char
    } else {
        (('a' as int) + d - 10) as char
    }
}

/// The lowest `width` hexadecimal digits of `v`, most significant first.
pub open spec fn hex_digits(v: nat, width: nat) -> Seq<char>
    decreases width,
{
    if width == 0 {
        Seq::empty()
    } else {
        hex_digits(v / 16, (width - 1) as nat).push(hex_char((v % 16) as int))
    }
}

/// The hyphenated lower-case text of a UUID with the 128-bit value `id`,
/// in groups of 8, 4, 4, 4 and 12 digits.
pub open spec fn uuid_text(id: u128) -> Seq<char> {
    hex_digits(id as nat / 0x1_0000_0000_0000_0000_0000_0000, 8) + seq!['-']
        + hex_digits(id as nat / 0x1_0000_0000_0000_0000_0000, 4) + seq!['-']
        + hex_digits(id as nat / 0x1_0000_0000_0000_0000, 4) + seq!['-']
        + hex_digits(id as nat / 0x1_0000_0000_0000, 4) + seq!['-']
        + hex_digits(id as nat, 12)
}

/// What `uuid::Uuid::parse_str` gives for a text: the 128-bit value of the
/// UUID it denotes, or, where the text is not a UUID, the text of the error
/// (its `Display`).
pub uninterp spec fn uuid_parse(text: Seq<char>) -> Result<u128, Seq<char>>;

/// A text parses as the identifier `id`.
pub open spec fn parses_to(text: Seq<char>, id: u128) -> bool {
    uuid_parse(text) == Ok::<u128, Seq<char>>(id)
}

/// A text fails to parse, with the error text `reason`.
pub open spec fn fails_with(text: Seq<char>, reason: Seq<char>) -> bool {
    uuid_parse(text) == Err::<u128, Seq<char>>(reason)
}

/// Calls `uuid::Uuid::parse_str`; takes the value of the UUID it returns, or
/// the text of its error.
/// Trusted: the result is `uuid_parse` of the text.
#[verifier::external_body]
fn parse_uuid(text: &str) -> (result: Result<u128, String>)
    ensures
        match result {
            Ok(id) => uuid_parse(text@) matches Ok(v) && v == id,
            Err(reason) => uuid_parse(text@) matches Err(r) && r == reason@,
        },
{
    match uuid::Uuid::parse_str(text) {
        Ok(id) => Ok(id.as_u128()),
        Err(e) => Err(e.to_string()),
    }
}

/// Calls `to_string` (`Display`) on `uuid::Uuid::from_u128(id)`.
/// Trusted: the crate writes the hyphenated lower-case form, and its parser
/// accepts every form the crate writes, so parsing the text gives `id` back.
#[verifier::external_body]
fn format_uuid(id: u128) -> (text: String)
    ensures
        text@ == uuid_text(id),
        uuid_parse(text@) is Ok,
        uuid_parse(text@)->Ok_0 == id,
{
    uuid::Uuid::from_u128(id).to_string()
}

/// The 128-bit value of the version 7 UUID made of a Unix time in
/// milliseconds and ten random bytes: the low 48 bits of the time, the
/// version 7, four bits of `random[0]` and all of `random[1]`, the variant
/// `0b10` with six bits of `random[2]`, then `random[3]` to `random[9]`.
pub open spec fn v7_value(millis: u64, random: Seq<u8>) -> nat {
    (millis as nat % 0x1_0000_0000_0000) * 0x1_0000_0000_0000_0000_0000
        + (0x7000 + (random[0] as nat % 16) * 0x100 + random[1] as nat) * 0x1_0000_0000_0000_0000
        + (0x80 + random[2] as nat % 64) * 0x100_0000_0000_0000
        + random[3] as nat * 0x1_0000_0000_0000
        + random[4] as nat * 0x100_0000_0000
        + random[5] as nat * 0x1_0000_0000
        + random[6] as nat * 0x100_0000
        + random[7] as nat * 0x1_0000
        + random[8] as nat * 0x100
        + random[9] as nat
}

/// Calls `uuid::Builder::from_unix_timestamp_millis` with the time and the
/// random bytes, and takes the value of the UUID it builds.
/// Trusted: the value is laid out as `v7_value` states.
#[verifier::external_body]
fn build_v7(millis: u64, random: &[u8; 10]) -> (id: u128)
    ensures
        id == v7_value(millis, random@),
{
    uuid::Builder::from_unix_timestamp_millis(millis, random).into_uuid().as_u128()
}

/// Parses the text of an identifier; where it is not a UUID, gives the text
/// of the `uuid` crate's error.
pub fn parse_id(text: &str) -> (result: Result<u128, String>)
    ensures
        match result {
            Ok(id) => parses_to(text@, id),
            Err(reason) => fails_with(text@, reason@),
        },
{
    parse_uuid(text)
}

/// The hyphenated lower-case text of an identifier.
pub fn id_text(id: u128) -> (text: String)
    ensures
        text@ == uuid_text(id),
        parses_to(text@, id),
{
    format_uuid(id)
}

/// A time-ordered (version 7) identifier made of a Unix time in
/// milliseconds and ten random bytes.
pub fn new_id(millis: u64, random: &[u8; 10]) -> (id: u128)
    ensures
        id == v7_value(millis, random@),
        id as nat / 0x1_0000_0000_0000_0000_0000 == millis as nat % 0x1_0000_0000_0000,
        (id as nat / 0x1_0000_0000_0000_0000_000) % 16 == 7,
        (id as nat / 0x4000_0000_0000_0000) % 4 == 2,
{
    let id = build_v7(millis, random);
    proof {
        lemma_v7_fields(millis, random@);
    }
    id
}

/// The time, version and variant fields of a version 7 value.
pub proof fn lemma_v7_fields(millis: u64, random: Seq<u8>)
    requires
        random.len() == 10,
    ensures
        v7_value(millis, random) / 0x1_0000_0000_0000_0000_0000 == millis as nat % 0x1_0000_0000_0000,
        (v7_value(millis, random) / 0x1_0000_0000_0000_0000_000) % 16 == 7,
        (v7_value(millis, random) / 0x4000_0000_0000_0000) % 4 == 2,
{
    let t = millis as nat % 0x1_0000_0000_0000;
    let c = (random[0] as nat % 16) * 0x100 + random[1] as nat;
    let v = random[2] as nat % 64;
    let low = random[3] as nat * 0x1_0000_0000_0000 + random[4] as nat * 0x100_0000_0000
        + random[5] as nat * 0x1_0000_0000 + random[6] as nat * 0x100_0000
        + random[7] as nat * 0x1_0000 + random[8] as nat * 0x100 + random[9] as nat;
    assert(low < 0x100_0000_0000_0000);
    assert(c < 0x1000);
    assert(v < 64);
    let x = v7_value(millis, random);
    let t2 = 0x1_0000_0000_0000_0000_0000int;
    let t1 = 0x1_0000_0000_0000_0000int;
    let t0 = 0x100_0000_0000_0000int;
    assert(x == t * t2 + (0x7000 + c) * t1 + (0x80 + v) * t0 + low);
    // The time field: everything below bit 80 is less than 2^80.
    assert(x == t * t2 + ((0x7000 + c) * t1 + (0x80 + v) * t0 + low)
        && (0x7000 + c) * t1 + (0x80 + v) * t0 + low < t2) by (nonlinear_arith)
        requires
            x == t * t2 + (0x7000 + c) * t1 + (0x80 + v) * t0 + low,
            t2 == 0x1_0000_0000_0000_0000_0000int,
            t1 == 0x1_0000_0000_0000_0000int,
            t0 == 0x100_0000_0000_0000int,
            c < 0x1000,
            v < 64,
            low < t0,
    ;
    lemma_fundamental_div_mod_converse(x as int, t2, t as int, x - t * t2);
    // The version field: bits 76 to 79.
    let t76 = 0x1_0000_0000_0000_0000_000int;
    let q76: int = (t * 16 + 7) as int;
    assert(x == q76 * t76 + (c * t1 + (0x80 + v) * t0 + low)
        && c * t1 + (0x80 + v) * t0 + low < t76) by (nonlinear_arith)
        requires
            x == t * t2 + (0x7000 + c) * t1 + (0x80 + v) * t0 + low,
            q76 == t * 16 + 7,
            t2 == 0x1_0000_0000_0000_0000_0000int,
            t76 == 0x1_0000_0000_0000_0000_000int,
            t1 == 0x1_0000_0000_0000_0000int,
            t0 == 0x100_0000_0000_0000int,
            c < 0x1000,
            v < 64,
            low < t0,
    ;
    lemma_fundamental_div_mod_converse(x as int, t76, q76, x - q76 * t76);
    lemma_fundamental_div_mod_converse(q76, 16, t as int, 7);
    // The variant field: bits 62 and 63.
    let t62 = 0x4000_0000_0000_0000int;
    let k: int = (t * 0x1_0000 + 0x7000 + c) as int;
    let q62: int = k * 4 + 2;
    assert(x == q62 * t62 + (v * t0 + low) && v * t0 + low < t62) by (nonlinear_arith)
        requires
            x == t * t2 + (0x7000 + c) * t1 + (0x80 + v) * t0 + low,
            k == t * 0x1_0000 + 0x7000 + c,
            q62 == k * 4 + 2,
            t2 == 0x1_0000_0000_0000_0000_0000int,
            t62 == 0x4000_0000_0000_0000int,
            t1 == 0x1_0000_0000_0000_0000int,
            t0 == 0x100_0000_0000_0000int,
            v < 64,
            low < t0,
    ;
    lemma_fundamental_div_mod_converse(x as int, t62, q62, x - q62 * t62);
    lemma_fundamental_div_mod_converse(q62, 4, k, 2);
}

} // verus!
