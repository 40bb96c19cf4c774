//! Tracking-identifier generation, the second half of the business
//! collaborator.
//!
//! Two strategies exist side by side: a fixed literal identifier, and a
//! randomized identifier mixing drawn letters and digits with the length of
//! a salt string. Which one a deployment uses is selected by
//! [`TrackingStrategy`].

use rand::Rng;
use vstd::prelude::*;
use vstd::string::StrSliceExecFns;
use vstd::string::StringExecFns;

verus! {

/// Which tracking-identifier generation a deployment runs.
#[derive(Debug, Clone, Copy, PartialEq, Eq, Structural)]
pub enum TrackingStrategy {
    /// Always the same literal identifier.
    Fixed,
    /// Letters and digits drawn at random around the salt's length.
    Randomized,
}

#[verifier::external_type_specification]
#[verifier::external_body]
pub struct ExThreadRng(rand::rngs::ThreadRng);

/// Relies on rand::thread_rng: a handle to the calling thread's generator.
/// Nothing is promised of a source of randomness.
#[verifier::external_body]
fn fresh_rng() -> rand::rngs::ThreadRng {
    rand::thread_rng()
}

/// Relies on Rng::gen_range over the half-open range 0..bound: it panics
/// only on an empty range, and the value it returns lies within the range.
#[verifier::external_body]
fn draw_below(rng: &mut rand::rngs::ThreadRng, bound: u32) -> (r: u32)
    requires
        0 < bound,
    ensures
        r < bound,
{
    rng.gen_range(0..bound)
}

/// Relies on String::push: appends exactly the one character.
#[verifier::external_body]
fn push_char(s: &mut String, c: char)
    ensures
        final(s)@ == old(s)@.push(c),
{
    s.push(c);
}

/// The decimal digit character for `d` (of its last decimal digit, for
/// larger values).
pub open spec fn digit_char(d: nat) -> char {
    ((48 + (d % 10)) as u8) as char
}

/// `c` is one of the ten decimal digit characters.
pub open spec fn is_dec_digit(c: char) -> bool {
    exists|d: nat| d < 10 && c == #[trigger] digit_char(d)
}

/// Every character of `s` is a decimal digit.
pub open spec fn digit_seq(s: Seq<char>) -> bool {
    forall|i: int| 0 <= i < s.len() ==> is_dec_digit(#[trigger] s[i])
}

/// The decimal representation of `n`, most significant digit first, without
/// leading zeros (a single zero for `n == 0`).
pub open spec fn dec_rep(n: nat) -> Seq<char>
    decreases n,
{
    if n < 10 {
        seq![digit_char(n)]
    } else {
        dec_rep(n / 10).push(digit_char(n % 10))
    }
}

/// The uppercase letter `code` positions after 'A'.
pub open spec fn letter_char_spec(code: int) -> char {
    ((65 + code) as u8) as char
}

/// `c` is one of the 26 uppercase letters a tracking identifier may start
/// with.
pub open spec fn is_tracking_letter(c: char) -> bool {
    exists|code: int| 0 <= code < 26 && c == #[trigger] letter_char_spec(code)
}

fn digit_of(d: u64) -> (c: char)
    requires
        d < 10,
    ensures
        c == digit_char(d as nat),
{
    let v: u64 = 48 + (d % 10);
    (v as u8) as char
}

fn letter_char(code: u32) -> (c: char)
    requires
        code < 26,
    ensures
        c == letter_char_spec(code as int),
{
    let v: u32 = 65 + code;
    (v as u8) as char
}

/// Render `n` in decimal.
pub fn u64_to_string(n: u64) -> (s: String)
    ensures
        s@ == dec_rep(n as nat),
    decreases n,
{
    if n < 10 {
        let mut s = String::new();
        push_char(&mut s, digit_of(n));
        proof {
            assert(s@ =~= dec_rep(n as nat));
        }
        s
    } else {
        let mut s = u64_to_string(n / 10);
        push_char(&mut s, digit_of(n % 10));
        s
    }
}

/// Draw one uppercase letter, as the randomized strategy begins its
/// identifiers.
pub fn get_random_letter_code(rng: &mut rand::rngs::ThreadRng) -> (c: char)
    ensures
        is_tracking_letter(c),
{
    let code = draw_below(rng, 26);
    let c = letter_char(code);
    proof {
        assert(c == letter_char_spec(code as int));
    }
    c
}

/// Draw a string of `digits` decimal digit characters.
pub fn get_random_number(rng: &mut rand::rngs::ThreadRng, digits: usize) -> (s: String)
    ensures
        s@.len() == digits,
        digit_seq(s@),
{
    let mut s = String::new();
    let mut i: usize = 0;
    while i < digits
        invariant
            i <= digits,
            s@.len() == i,
            digit_seq(s@),
        decreases digits - i,
    {
        let d = draw_below(rng, 10);
        let c = digit_of(d as u64);
        proof {
            assert(c == digit_char(d as nat));
        }
        let ghost prev = s@;
        push_char(&mut s, c);
        proof {
            assert forall|j: int| 0 <= j < s@.len() implies is_dec_digit(#[trigger] s@[j]) by {
                if j < prev.len() {
                    assert(s@[j] == prev[j]);
                } else {
                    assert(s@[j] == c);
                }
            }
        }
        i = i + 1;
    }
    s
}

/// The shape a randomized tracking identifier takes: two letters, a dash,
/// the salt length and three drawn digits, a dash, half the salt length and
/// seven drawn digits.
pub open spec fn tracking_parts(
    l1: char,
    l2: char,
    salt_len: nat,
    n3: Seq<char>,
    n7: Seq<char>,
) -> Seq<char> {
    seq![l1, l2, '-'] + dec_rep(salt_len) + n3 + seq!['-'] + dec_rep(salt_len / 2) + n7
}

/// `id` is a well-formed randomized tracking identifier for a salt of length
/// `salt_len`.
pub open spec fn is_random_tracking_id(id: Seq<char>, salt_len: nat) -> bool {
    exists|l1: char, l2: char, n3: Seq<char>, n7: Seq<char>|
        is_tracking_letter(l1) && is_tracking_letter(l2) && n3.len() == 3 && digit_seq(n3)
            && n7.len() == 7 && digit_seq(n7) && id == #[trigger] tracking_parts(
            l1,
            l2,
            salt_len,
            n3,
            n7,
        )
}

/// The fixed tracking-identifier strategy: the salt is accepted but unused,
/// and every shipment receives the same literal identifier.
pub fn create_tracking_id(_salt: &str) -> (id: String)
    ensures
        id@ == "AB-25123-121234567"@,
{
    String::from_str("AB-25123-121234567")
}

/// The randomized tracking-identifier strategy: two drawn letters, then the
/// salt's length with three drawn digits, then half that length with seven
/// drawn digits.
pub fn create_random_tracking_id(salt: &str) -> (id: String)
    ensures
        is_random_tracking_id(id@, salt@.len()),
{
    let mut rng = fresh_rng();
    let l1 = get_random_letter_code(&mut rng);
    let l2 = get_random_letter_code(&mut rng);
    let n3 = get_random_number(&mut rng, 3);
    let n7 = get_random_number(&mut rng, 7);
    let len = salt.unicode_len();
    let len_str = u64_to_string(len as u64);
    let half_str = u64_to_string((len / 2) as u64);
    let mut id = String::new();
    push_char(&mut id, l1);
    push_char(&mut id, l2);
    push_char(&mut id, '-');
    id.append(len_str.as_str());
    id.append(n3.as_str());
    push_char(&mut id, '-');
    id.append(half_str.as_str());
    id.append(n7.as_str());
    proof {
        assert(id@ =~= tracking_parts(l1, l2, salt@.len(), n3@, n7@));
    }
    id
}

} // verus!
