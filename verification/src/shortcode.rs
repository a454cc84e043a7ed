//! Short aliases: eight characters in base 36, derived by hashing a random
//! identifier, a timestamp and the identity of the calling process and thread.

use crate::identifier::{is_random_identifier, random_uuid};
use vstd::prelude::*;
use vstd::string::*;

verus! {

/// The number of characters of an alias.
pub const SHORT_CODE_LENGTH: usize = 8;

/// The digits of base 36, in order of their value.
pub open spec fn alphabet() -> Seq<char> {
    "0123456789abcdefghijklmnopqrstuvwxyz"@
}

/// A decimal digit or a lower-case letter of the Latin alphabet.
pub open spec fn is_code_char(c: char) -> bool {
    ||| '0' <= c <= '9'
    ||| 'a' <= c <= 'z'
}

/// An alias is a text of the fixed length that holds only decimal digits and
/// lower-case letters.
pub open spec fn is_short_code(code: Seq<char>) -> bool {
    &&& code.len() == SHORT_CODE_LENGTH
    &&& forall|i: int| 0 <= i < code.len() ==> is_code_char(#[trigger] code[i])
}

/// The `length` lowest digits of `value` in base 36, lowest first.
pub open spec fn base36_digits(value: nat, length: nat) -> Seq<char>
    decreases length,
{
    if length == 0 {
        Seq::empty()
    } else {
        seq![alphabet()[(value % 36) as int]] + base36_digits(value / 36, (length - 1) as nat)
    }
}

/// The alias that stands for a hash value.
pub open spec fn short_code_of(hash: u64) -> Seq<char> {
    base36_digits(hash as nat, SHORT_CODE_LENGTH as nat)
}

/// The `width` lowest bytes of `value`, lowest first.
pub open spec fn le_bytes(value: nat, width: nat) -> Seq<u8>
    decreases width,
{
    if width == 0 {
        Seq::empty()
    } else {
        seq![(value % 256) as u8] + le_bytes(value / 256, (width - 1) as nat)
    }
}

/// The `width` lowest bytes of `value`, highest first.
pub open spec fn be_bytes(value: nat, width: nat) -> Seq<u8>
    decreases width,
{
    if width == 0 {
        Seq::empty()
    } else {
        be_bytes(value / 256, (width - 1) as nat).push((value % 256) as u8)
    }
}

/// The bytes that are hashed for one alias: the random identifier highest
/// byte first, then the timestamp, the process id and the thread id, each
/// lowest byte first.
pub open spec fn entropy_bytes(
    random: u128,
    timestamp: u128,
    process_id: u32,
    thread_id: u64,
) -> Seq<u8> {
    be_bytes(random as nat, 16) + le_bytes(timestamp as nat, 16) + le_bytes(process_id as nat, 4)
        + le_bytes(thread_id as nat, 8)
}

/// The 64-bit XXH3 hash of a byte string, with the default seed and secret.
pub uninterp spec fn xxh3_of(input: Seq<u8>) -> u64;

/// `xxhash_rust::xxh3::xxh3_64`. The hash is named, not described.
#[verifier::external_body]
fn xxh3_hash(input: &Vec<u8>) -> (hash: u64)
    ensures
        hash == xxh3_of(input@),
{
    xxhash_rust::xxh3::xxh3_64(input.as_slice())
}

/// Every digit of base 36 is a decimal digit or a lower-case letter.
pub proof fn lemma_alphabet()
    ensures
        alphabet().len() == 36,
        forall|i: int| 0 <= i < 36 ==> is_code_char(#[trigger] alphabet()[i]),
        vstd::utf8::is_ascii_chars(alphabet()),
{
    reveal_strlit("0123456789abcdefghijklmnopqrstuvwxyz");
}

/// Digits in base 36 are of the asked length and hold only decimal digits
/// and lower-case letters.
pub proof fn lemma_base36_digits_shape(value: nat, length: nat)
    ensures
        base36_digits(value, length).len() == length,
        forall|i: int|
            0 <= i < length ==> is_code_char(#[trigger] base36_digits(value, length)[i]),
    decreases length,
{
    if length > 0 {
        lemma_alphabet();
        lemma_base36_digits_shape(value / 36, (length - 1) as nat);
        let rest = base36_digits(value / 36, (length - 1) as nat);
        let digits = base36_digits(value, length);
        assert(is_code_char(alphabet()[(value % 36) as int]));
        assert forall|i: int| 0 <= i < length implies is_code_char(#[trigger] digits[i]) by {
            if i > 0 {
                assert(digits[i] == rest[i - 1]);
            }
        }
    }
}

/// Whatever the hash, the alias that stands for it is well formed.
pub proof fn lemma_short_code_shape(hash: u64)
    ensures
        is_short_code(short_code_of(hash)),
{
    lemma_base36_digits_shape(hash as nat, SHORT_CODE_LENGTH as nat);
}

/// Writes a hash value as an alias.
pub fn encode_short_code(hash: u64) -> (code: String)
    ensures
        code@ == short_code_of(hash),
        is_short_code(code@),
{
    let digits = "0123456789abcdefghijklmnopqrstuvwxyz";
    let mut code = String::new();
    let mut rest: u64 = hash;
    let mut written: usize = 0;
    proof {
        lemma_alphabet();
        lemma_short_code_shape(hash);
    }
    while written < SHORT_CODE_LENGTH
        invariant
            written <= SHORT_CODE_LENGTH,
            digits@ == alphabet(),
            digits.is_ascii(),
            digits@.len() == 36,
            code@ + base36_digits(rest as nat, (SHORT_CODE_LENGTH - written) as nat)
                == short_code_of(hash),
        decreases SHORT_CODE_LENGTH - written,
    {
        let value: usize = (rest % 36) as usize;
        let digit = digits.substring_ascii(value, value + 1);
        proof {
            let tail = base36_digits((rest / 36) as nat, (SHORT_CODE_LENGTH - written - 1) as nat);
            assert(digit@ =~= seq![alphabet()[value as int]]);
            assert((code@ + digit@) + tail =~= code@ + (digit@ + tail));
        }
        code.append(digit);
        rest = rest / 36;
        written = written + 1;
    }
    assert(code@ + Seq::<char>::empty() =~= code@);
    code
}

/// Appends the `width` lowest bytes of `value`, lowest first.
fn push_le_bytes(out: &mut Vec<u8>, value: u128, width: usize)
    ensures
        final(out)@ == old(out)@ + le_bytes(value as nat, width as nat),
    decreases width,
{
    if width > 0 {
        out.push((value % 256) as u8);
        push_le_bytes(out, value / 256, width - 1);
        assert(out@ =~= old(out)@ + le_bytes(value as nat, width as nat));
    } else {
        assert(out@ =~= old(out)@ + le_bytes(value as nat, width as nat));
    }
}

/// Appends the `width` lowest bytes of `value`, highest first.
fn push_be_bytes(out: &mut Vec<u8>, value: u128, width: usize)
    ensures
        final(out)@ == old(out)@ + be_bytes(value as nat, width as nat),
    decreases width,
{
    if width > 0 {
        push_be_bytes(out, value / 256, width - 1);
        out.push((value % 256) as u8);
        assert(out@ =~= old(out)@ + be_bytes(value as nat, width as nat));
    } else {
        assert(out@ =~= old(out)@ + be_bytes(value as nat, width as nat));
    }
}

/// The alias for the given entropy: the hash of its bytes, written in base
/// 36.
pub fn short_code_from_entropy(
    random: u128,
    timestamp: u128,
    process_id: u32,
    thread_id: u64,
) -> (code: String)
    ensures
        code@ == short_code_of(xxh3_of(entropy_bytes(random, timestamp, process_id, thread_id))),
        is_short_code(code@),
{
    let mut input: Vec<u8> = Vec::new();
    push_be_bytes(&mut input, random, 16);
    push_le_bytes(&mut input, timestamp, 16);
    push_le_bytes(&mut input, process_id as u128, 4);
    push_le_bytes(&mut input, thread_id as u128, 8);
    assert(input@ =~= entropy_bytes(random, timestamp, process_id, thread_id));
    encode_short_code(xxh3_hash(&input))
}

/// Generates an alias from a fresh random identifier and the given timestamp,
/// process id and thread id. Nothing is checked against the aliases that
/// exist. Whatever the random draw, the alias is well formed.
pub fn generate_short_code(timestamp: u128, process_id: u32, thread_id: u64) -> (code: String)
    ensures
        is_short_code(code@),
        exists|random: u128|
            is_random_identifier(random) && code@ == short_code_of(
                xxh3_of(#[trigger] entropy_bytes(random, timestamp, process_id, thread_id)),
            ),
{
    let random = random_uuid();
    short_code_from_entropy(random, timestamp, process_id, thread_id)
}

} // verus!
