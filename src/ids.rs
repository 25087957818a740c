//! Identifiers and clock readings, taken from the outside world.

use vstd::prelude::*;
use vstd::string::StrSliceExecFns;

verus! {

/// Relies on `uuid::Uuid::new_v4` and `Uuid::as_u128`: a fresh random
/// identifier, given as its 128-bit value. Nothing is promised of the value.
#[verifier::external_body]
pub fn new_uuid() -> (r: u128) {
    uuid::Uuid::new_v4().as_u128()
}

/// Relies on `chrono::Utc::now` and `DateTime::timestamp_millis`: the current
/// time in milliseconds since the Unix epoch. Nothing is promised of the value.
#[verifier::external_body]
pub fn now_millis() -> (r: i64) {
    chrono::Utc::now().timestamp_millis()
}

/// The lower-case hexadecimal digit for `d < 16`.
pub open spec fn hex_char(d: nat) -> char {
    if d < 10 {
        crate::text::digit_char(d)
    } else if d == 10 {
        'a'
    } else if d == 11 {
        'b'
    } else if d == 12 {
        'c'
    } else if d == 13 {
        'd'
    } else if d == 14 {
        'e'
    } else {
        'f'
    }
}

/// The last `width` hexadecimal digits of `n`, zero-padded.
pub open spec fn hex_fixed(n: nat, width: nat) -> Seq<char>
    decreases width,
{
    if width == 0 {
        seq![]
    } else {
        hex_fixed(n / 16, (width - 1) as nat).push(hex_char(n % 16))
    }
}

/// The hyphenated lower-case form of an identifier: its 32 hexadecimal
/// digits, big-endian, grouped 8-4-4-4-12.
pub open spec fn uuid_text_of(id: u128) -> Seq<char> {
    let h = hex_fixed(id as nat, 32);
    h.subrange(0, 8) + seq!['-'] + h.subrange(8, 12) + seq!['-'] + h.subrange(12, 16) + seq!['-']
        + h.subrange(16, 20) + seq!['-'] + h.subrange(20, 32)
}

proof fn lemma_hex_fixed_len(n: nat, width: nat)
    ensures
        hex_fixed(n, width).len() == width,
    decreases width,
{
    if width > 0 {
        lemma_hex_fixed_len(n / 16, (width - 1) as nat);
    }
}

fn hex_digit(d: u128) -> (c: char)
    requires
        d < 16,
    ensures
        c == hex_char(d as nat),
{
    if d < 10 {
        if d == 0 { '0' }
        else if d == 1 { '1' }
        else if d == 2 { '2' }
        else if d == 3 { '3' }
        else if d == 4 { '4' }
        else if d == 5 { '5' }
        else if d == 6 { '6' }
        else if d == 7 { '7' }
        else if d == 8 { '8' }
        else { '9' }
    } else if d == 10 { 'a' }
    else if d == 11 { 'b' }
    else if d == 12 { 'c' }
    else if d == 13 { 'd' }
    else if d == 14 { 'e' }
    else { 'f' }
}

fn hex_fixed_string(n: u128, width: u8) -> (r: String)
    ensures
        r@ == hex_fixed(n as nat, width as nat),
    decreases width,
{
    if width == 0 {
        let s = String::new();
        assert(s@ =~= hex_fixed(n as nat, 0));
        s
    } else {
        let mut s = hex_fixed_string(n / 16, width - 1);
        crate::text::push_char(&mut s, hex_digit(n % 16));
        s
    }
}

/// The hyphenated lower-case form of an identifier, as `uuid::Uuid`
/// displays it.
pub fn uuid_text(id: u128) -> (r: String)
    ensures
        r@ == uuid_text_of(id),
        r@.len() == 36,
{
    let h = hex_fixed_string(id, 32);
    proof {
        lemma_hex_fixed_len(id as nat, 32);
    }
    let hs = h.as_str();
    let mut s = crate::text::owned(hs.substring_char(0, 8));
    crate::text::append_str(&mut s, "-");
    crate::text::append_str(&mut s, hs.substring_char(8, 12));
    crate::text::append_str(&mut s, "-");
    crate::text::append_str(&mut s, hs.substring_char(12, 16));
    crate::text::append_str(&mut s, "-");
    crate::text::append_str(&mut s, hs.substring_char(16, 20));
    crate::text::append_str(&mut s, "-");
    crate::text::append_str(&mut s, hs.substring_char(20, 32));
    proof {
        reveal_strlit("-");
        assert(s@ =~= uuid_text_of(id));
    }
    s
}

} // verus!
