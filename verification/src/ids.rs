//! Task and message identifiers: UUIDs, held as their 128-bit value.
//! Generating, printing and parsing them is left to the `uuid` crate.
use vstd::prelude::*;
use vstd::arithmetic::div_mod::{lemma_basic_div, lemma_div_basics, lemma_div_denominator, lemma_fundamental_div_mod};
use vstd::arithmetic::power2::{lemma2_to64, lemma_pow2_adds, lemma_pow2_pos, pow2};

verus! {

/// The lower-case hexadecimal digit of `n` (for `n < 16`).
pub open spec fn hex_digit(n: int) -> char {
    if n < 10 {
        (48 + n) as char
    } else {
        (87 + n) as char
    }
}

/// The `k`-th hexadecimal digit of `v`, counted from the most significant one (0 to 31).
pub open spec fn uuid_digit(v: u128, k: int) -> int {
    (v as int / pow2((4 * (31 - k)) as nat) as int) % 16
}

/// Which of the 32 digits stands at position `i` of the hyphenated form.
pub open spec fn hyphenated_digit_index(i: int) -> int {
    if i < 8 {
        i
    } else if i < 13 {
        i - 1
    } else if i < 18 {
        i - 2
    } else if i < 23 {
        i - 3
    } else {
        i - 4
    }
}

/// The hyphenated lower-case text of a UUID, such as `67e55044-10b1-426f-9247-bb680e5fe0c8`:
/// its 32 hexadecimal digits, most significant first, in groups of 8, 4, 4, 4 and 12.
pub open spec fn uuid_text(v: u128) -> Seq<char> {
    Seq::new(
        36,
        |i: int|
            if i == 8 || i == 13 || i == 18 || i == 23 {
                '-'
            } else {
                hex_digit(uuid_digit(v, hyphenated_digit_index(i)))
            },
    )
}

/// The number that the `j` most significant hexadecimal digits of `v` make up (for `j <= 32`).
spec fn leading_digits(v: u128, j: nat) -> int {
    v as int / pow2((4 * (32 - j)) as nat) as int
}

/// Each further digit extends the number that the leading digits make up.
proof fn lemma_leading_digits_step(v: u128, j: nat)
    requires
        j < 32,
    ensures
        leading_digits(v, j + 1) == leading_digits(v, j) * 16 + uuid_digit(v, j as int),
        0 <= uuid_digit(v, j as int) < 16,
{
    let e = (4 * (31 - j)) as nat;
    let p: int = pow2(e) as int;
    lemma_pow2_pos(e);
    lemma_pow2_adds(e, 4);
    lemma2_to64();
    assert(pow2((4 * (32 - j)) as nat) == p * 16) by {
        assert((4 * (32 - j)) as nat == e + 4);
    }
    lemma_div_denominator(v as int, p, 16);
    lemma_fundamental_div_mod(v as int / p, 16);
}

/// No digits make up zero, and all 32 make up the whole value.
proof fn lemma_leading_digits_ends(v: u128)
    ensures
        leading_digits(v, 0) == 0,
        leading_digits(v, 32) == v,
{
    lemma2_to64();
    lemma_pow2_adds(64, 64);
    assert(pow2(128) == 0x1_0000_0000_0000_0000_0000_0000_0000_0000);
    lemma_basic_div(v as int, pow2(128) as int);
    assert((4 * (32 - 32nat)) as nat == 0);
    lemma_div_basics(v as int);
}

/// Values whose digits agree up to `j` have the same leading digits.
proof fn lemma_same_digits_same_prefix(a: u128, b: u128, j: nat)
    requires
        j <= 32,
        forall|k: int| 0 <= k < j ==> uuid_digit(a, k) == uuid_digit(b, k),
    ensures
        leading_digits(a, j) == leading_digits(b, j),
    decreases j,
{
    if j == 0 {
        lemma_leading_digits_ends(a);
        lemma_leading_digits_ends(b);
    } else {
        lemma_same_digits_same_prefix(a, b, (j - 1) as nat);
        lemma_leading_digits_step(a, (j - 1) as nat);
        lemma_leading_digits_step(b, (j - 1) as nat);
    }
}

/// The position of digit `k` (0 to 31) in the hyphenated text.
spec fn digit_position(k: int) -> int {
    if k < 8 {
        k
    } else if k < 12 {
        k + 1
    } else if k < 16 {
        k + 2
    } else if k < 20 {
        k + 3
    } else {
        k + 4
    }
}

/// Different UUIDs have different texts.
pub proof fn lemma_uuid_text_injective(a: u128, b: u128)
    ensures
        uuid_text(a) == uuid_text(b) ==> a == b,
{
    if uuid_text(a) == uuid_text(b) {
        assert forall|k: int| 0 <= k < 32 implies uuid_digit(a, k) == uuid_digit(b, k) by {
            let i = digit_position(k);
            assert(hyphenated_digit_index(i) == k);
            assert(uuid_text(a)[i] == uuid_text(b)[i]);
            lemma_leading_digits_step(a, k as nat);
            lemma_leading_digits_step(b, k as nat);
            let da = uuid_digit(a, k);
            let db = uuid_digit(b, k);
            assert(hex_digit(da) as int == if da < 10 { 48 + da } else { 87 + da });
            assert(hex_digit(db) as int == if db < 10 { 48 + db } else { 87 + db });
        }
        lemma_same_digits_same_prefix(a, b, 32);
        lemma_leading_digits_ends(a);
        lemma_leading_digits_ends(b);
    }
}

/// The UUID that `uuid::Uuid::parse_str` reads from the text `s`, or `None` where it refuses it.
pub uninterp spec fn uuid_parsed(s: Seq<char>) -> Option<u128>;

/// The text of the error that `uuid::Uuid::parse_str` gives for the text `s`, as `Display` writes it.
pub uninterp spec fn uuid_parse_error_text(s: Seq<char>) -> Seq<char>;

/// A new random (version 4) UUID: `uuid::Uuid::new_v4`, as its 128-bit value.
/// Nothing is claimed of the value: it is drawn at random.
#[verifier::external_body]
pub(crate) fn new_uuid() -> (r: u128) {
    uuid::Uuid::new_v4().as_u128()
}

/// The text of a UUID: `uuid::Uuid::to_string` (its `Display`), which writes the hyphenated
/// lower-case form. The claim is that form, and that `uuid::Uuid::parse_str` reads the value
/// back from it, as the crate documents for every format it writes.
#[verifier::external_body]
pub(crate) fn uuid_to_string(v: u128) -> (r: String)
    ensures
        r@ == uuid_text(v),
        uuid_parsed(r@) == Some(v),
{
    uuid::Uuid::from_u128(v).to_string()
}

/// Reads a UUID from text: `uuid::Uuid::parse_str`, and on failure the error's `Display` text.
/// The claim is only that the result is the one the crate gives for this text.
#[verifier::external_body]
pub(crate) fn parse_uuid(s: &str) -> (r: Result<u128, String>)
    ensures
        match r {
            Ok(v) => uuid_parsed(s@) == Some(v),
            Err(e) => uuid_parsed(s@) is None && e@ == uuid_parse_error_text(s@),
        },
{
    match uuid::Uuid::parse_str(s) {
        Ok(u) => Ok(u.as_u128()),
        Err(e) => Err(e.to_string()),
    }
}

} // verus!
