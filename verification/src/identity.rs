//! Per-attempt identifier synthesis: the email alias, the phone number, and
//! the generated password.
//!
//! Randomness is injectable: each random quantity is drawn by a small
//! function with a stated range, and the synthesis itself is a deterministic
//! function of the drawn value.

use crate::digits::append_decimal;
use crate::digits::dec_digits;
use crate::digits::is_digit;
use crate::digits::lemma_dec_digits_are_digits;
use crate::digits::lemma_dec_digits_len;
use crate::digits::pow10;
use rand::Rng;
use vstd::prelude::*;
use vstd::string::StrSliceExecFns;
use vstd::string::StringExecFns;

verus! {

/// Relies on std's String::push: it appends exactly the one character.
pub assume_specification[ String::push ](s: &mut String, ch: char)
    ensures
        final(s)@ == old(s)@.push(ch),
;

/// Relies on rand's Rng::gen_range over thread_rng, on an inclusive range:
/// it panics only on an empty range and returns a value inside the range.
#[verifier::external_body]
fn rand_range_u64(lo: u64, hi: u64) -> (r: u64)
    requires
        lo <= hi,
    ensures
        lo <= r <= hi,
{
    rand::thread_rng().gen_range(lo..=hi)
}

/// The password alphabet: upper and lower case letters, decimal digits, and
/// a fixed set of eight symbols.
pub open spec fn password_alphabet() -> Seq<char> {
    "ABCDEFGHIJKLMNOPQRSTUVWXYZabcdefghijklmnopqrstuvwxyz0123456789!@#$%^&*"@
}

pub open spec fn is_password_char(c: char) -> bool {
    password_alphabet().contains(c)
}

/// The alphabet as an executable string, 70 characters long.
pub fn password_alphabet_str() -> (r: &'static str)
    ensures
        r@ == password_alphabet(),
        r@.len() == 70,
{
    let a = "ABCDEFGHIJKLMNOPQRSTUVWXYZabcdefghijklmnopqrstuvwxyz0123456789!@#$%^&*";
    proof {
        reveal_strlit("ABCDEFGHIJKLMNOPQRSTUVWXYZabcdefghijklmnopqrstuvwxyz0123456789!@#$%^&*");
    }
    a
}

/// Builds a password from chosen alphabet positions, one position per output
/// character.
pub fn password_from_indices(indices: &Vec<u8>) -> (r: String)
    requires
        forall|i: int| 0 <= i < indices@.len() ==> indices@[i] < 70,
    ensures
        r@.len() == indices@.len(),
        forall|i: int|
            0 <= i < r@.len() ==> r@[i] == password_alphabet()[indices@[i] as int],
{
    let alphabet = password_alphabet_str();
    let mut s = String::new();
    let mut i: usize = 0;
    while i < indices.len()
        invariant
            i <= indices@.len(),
            s@.len() == i,
            alphabet@ == password_alphabet(),
            alphabet@.len() == 70,
            forall|j: int| 0 <= j < indices@.len() ==> indices@[j] < 70,
            forall|j: int| 0 <= j < i ==> s@[j] == password_alphabet()[indices@[j] as int],
        decreases indices@.len() - i,
    {
        let idx = indices[i];
        let c = alphabet.get_char(idx as usize);
        s.push(c);
        i += 1;
    }
    s
}

/// Generates the run's password when none is configured: exactly 14
/// characters, each drawn uniformly from the alphabet.
pub fn generate_password() -> (r: String)
    ensures
        r@.len() == 14,
        forall|i: int| 0 <= i < r@.len() ==> is_password_char(#[trigger] r@[i]),
{
    let mut indices: Vec<u8> = Vec::new();
    let mut i: usize = 0;
    while i < 14
        invariant
            i <= 14,
            indices@.len() == i,
            forall|j: int| 0 <= j < i ==> indices@[j] < 70,
        decreases 14 - i,
    {
        let d = rand_range_u64(0, 69);
        indices.push(d as u8);
        i += 1;
    }
    let r = password_from_indices(&indices);
    proof {
        reveal_strlit("ABCDEFGHIJKLMNOPQRSTUVWXYZabcdefghijklmnopqrstuvwxyz0123456789!@#$%^&*");
        assert forall|k: int| 0 <= k < r@.len() implies is_password_char(#[trigger] r@[k]) by {
            assert(0 <= indices@[k] < password_alphabet().len());
            assert(password_alphabet()[indices@[k] as int] == r@[k]);
        }
    }
    r
}

pub const MIN_EMAIL_TAG: u64 = 1000000000;

pub const MAX_EMAIL_TAG: u64 = 9999999999;

/// The submitted email: `{name}+{ten-digit tag}@{domain}`.
pub open spec fn email_spec(name: Seq<char>, tag: nat, domain: Seq<char>) -> Seq<char> {
    name + seq!['+'] + dec_digits(tag) + seq!['@'] + domain
}

/// Every tag in the valid range renders as exactly ten decimal digits.
pub proof fn lemma_tag_digits(tag: nat)
    requires
        MIN_EMAIL_TAG <= tag <= MAX_EMAIL_TAG,
    ensures
        dec_digits(tag).len() == 10,
        forall|i: int| 0 <= i < dec_digits(tag).len() ==> is_digit(#[trigger] dec_digits(tag)[i]),
{
    assert(pow10(9) == 1000000000 && pow10(10) == 10000000000) by {
        reveal_with_fuel(pow10, 11);
    }
    lemma_dec_digits_len(tag, 10);
    lemma_dec_digits_are_digits(tag);
}

/// Synthesizes the email submitted for one attempt from the configured name
/// and domain and the drawn tag.
pub fn make_email(name: &str, tag: u64, domain: &str) -> (r: String)
    requires
        MIN_EMAIL_TAG <= tag <= MAX_EMAIL_TAG,
    ensures
        r@ == email_spec(name@, tag as nat, domain@),
        r@.len() == name@.len() + 12 + domain@.len(),
{
    let mut s = name.to_owned();
    s.append("+");
    append_decimal(&mut s, tag);
    s.append("@");
    s.append(domain);
    proof {
        reveal_strlit("+");
        reveal_strlit("@");
        lemma_tag_digits(tag as nat);
        assert(s@ =~= email_spec(name@, tag as nat, domain@));
    }
    s
}

/// The submitted phone number: the fixed area code followed by the six-digit
/// suffix.
pub open spec fn phone_spec(suffix: nat) -> Seq<char> {
    seq!['0', '4', '5', '2'] + dec_digits(suffix)
}

/// Every suffix in the valid range renders as exactly six decimal digits.
pub proof fn lemma_suffix_digits(suffix: nat)
    requires
        100000 <= suffix <= 999999,
    ensures
        dec_digits(suffix).len() == 6,
        forall|i: int|
            0 <= i < dec_digits(suffix).len() ==> is_digit(#[trigger] dec_digits(suffix)[i]),
{
    assert(pow10(5) == 100000 && pow10(6) == 1000000) by {
        reveal_with_fuel(pow10, 7);
    }
    lemma_dec_digits_len(suffix, 6);
    lemma_dec_digits_are_digits(suffix);
}

/// Synthesizes the phone string submitted for one attempt.
pub fn make_phone(suffix: u64) -> (r: String)
    requires
        100000 <= suffix <= 999999,
    ensures
        r@ == phone_spec(suffix as nat),
        r@.len() == 10,
{
    let mut s = String::new();
    s.append("0452");
    append_decimal(&mut s, suffix);
    proof {
        reveal_strlit("0452");
        lemma_suffix_digits(suffix as nat);
        assert(s@ =~= phone_spec(suffix as nat));
    }
    s
}

/// Draws a fresh email alias tag, inside the ten-digit range.
pub fn draw_email_tag() -> (t: u64)
    ensures
        MIN_EMAIL_TAG <= t <= MAX_EMAIL_TAG,
{
    rand_range_u64(MIN_EMAIL_TAG, MAX_EMAIL_TAG)
}

/// Draws a fresh phone suffix, inside the six-digit range.
pub fn draw_phone_suffix() -> (n: u64)
    ensures
        100000 <= n <= 999999,
{
    rand_range_u64(100000, 999999)
}

} // verus!
