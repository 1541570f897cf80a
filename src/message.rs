use vstd::prelude::*;
use crate::error::ErrorCode;
use crate::key::{base58_key, pubkey_from_string, PublicKey};

verus! {

/// The byte that separates the timestamp from the key in a message.
pub const SEPARATOR: u8 = 95;

/// What a message claims: when it was made, and by whom.
#[derive(Clone, Copy, Debug)]
pub struct ExtractedMessage {
    pub timestamp: u64,
    pub pubkey: PublicKey,
}

pub open spec fn is_digit(b: u8) -> bool {
    48 <= b <= 57
}

/// The value of a string of decimal digits.
pub open spec fn digits_value(s: Seq<u8>) -> nat
    decreases s.len(),
{
    if s.len() == 0 {
        0
    } else {
        digits_value(s.drop_last()) * 10 + (s.last() - 48) as nat
    }
}

/// The digits of a decimal numeral: a leading `+` is allowed and dropped.
pub open spec fn numeral_digits(s: Seq<u8>) -> Seq<u8> {
    if s.len() > 0 && s[0] == 43 {
        s.subrange(1, s.len() as int)
    } else {
        s
    }
}

/// Whether `s` is written as an unsigned decimal numeral: an optional `+`,
/// then one or more digits.
pub open spec fn is_numeral(s: Seq<u8>) -> bool {
    let d = numeral_digits(s);
    d.len() > 0 && forall|i: int| 0 <= i < d.len() ==> is_digit(#[trigger] d[i])
}

/// The `u64` that `s` writes in decimal, if any: `None` where `s` is no
/// numeral or its value exceeds `u64::MAX`.
pub open spec fn numeral_u64(s: Seq<u8>) -> Option<u64> {
    if is_numeral(s) && digits_value(numeral_digits(s)) <= u64::MAX {
        Some(digits_value(numeral_digits(s)) as u64)
    } else {
        None
    }
}

pub open spec fn is_separator_at(m: Seq<u8>, p: int) -> bool {
    0 <= p < m.len() && m[p] == SEPARATOR
}

/// Whether `p` is the one and only separator of `m`.
pub open spec fn is_sole_separator(m: Seq<u8>, p: int) -> bool {
    is_separator_at(m, p) && forall|q: int| #[trigger] is_separator_at(m, q) ==> q == p
}

/// Whether `m` splits into exactly two parts on the separator.
pub open spec fn splits_in_two(m: Seq<u8>) -> bool {
    exists|p: int| is_sole_separator(m, p)
}

pub open spec fn separator_index(m: Seq<u8>) -> int
    recommends
        splits_in_two(m),
{
    choose|p: int| is_sole_separator(m, p)
}

pub open spec fn timestamp_part(m: Seq<u8>) -> Seq<u8> {
    m.subrange(0, separator_index(m))
}

pub open spec fn key_part(m: Seq<u8>) -> Seq<u8> {
    m.subrange(separator_index(m) + 1, m.len() as int)
}

/// What a message decodes to: its timestamp and the bytes of its key, or the
/// first thing wrong with it.
pub open spec fn decode_message(m: Seq<u8>) -> Result<(u64, Seq<u8>), ErrorCode> {
    if !splits_in_two(m) {
        Err(ErrorCode::WrongMessageSplitLength)
    } else {
        match numeral_u64(timestamp_part(m)) {
            None => Err(ErrorCode::TimestampParsingFailed),
            Some(t) => match base58_key(key_part(m)) {
                None => Err(ErrorCode::PubkeyParsingFailed),
                Some(k) => Ok((t, k)),
            },
        }
    }
}

proof fn lemma_digits_value_step(s: Seq<u8>, i: int)
    requires
        0 <= i < s.len(),
    ensures
        digits_value(s.subrange(0, i + 1)) == digits_value(s.subrange(0, i)) * 10 + (s[i]
            - 48) as nat,
{
    assert(s.subrange(0, i + 1).drop_last() =~= s.subrange(0, i));
}

proof fn lemma_digits_value_grows(s: Seq<u8>, i: int, j: int)
    requires
        0 <= i <= j <= s.len(),
        forall|k: int| 0 <= k < s.len() ==> is_digit(#[trigger] s[k]),
    ensures
        digits_value(s.subrange(0, i)) <= digits_value(s.subrange(0, j)),
    decreases j - i,
{
    if i < j {
        lemma_digits_value_grows(s, i, j - 1);
        lemma_digits_value_step(s, j - 1);
    }
}

/// Reads a timestamp written as an unsigned decimal numeral, as `str::parse`
/// reads a `u64`.
pub fn timestamp_from_string(timestamp: &[u8]) -> (r: Result<u64, ErrorCode>)
    ensures
        match r {
            Ok(t) => numeral_u64(timestamp@) == Some(t),
            Err(e) => e == ErrorCode::TimestampParsingFailed && numeral_u64(timestamp@) is None,
        },
{
    let n = timestamp.len();
    let start: usize = if n > 0 && timestamp[0] == 43 { 1 } else { 0 };
    let ghost d = numeral_digits(timestamp@);
    assert(d =~= timestamp@.subrange(start as int, n as int));
    if start == n {
        return Err(ErrorCode::TimestampParsingFailed);
    }
    let mut value: u64 = 0;
    let mut i: usize = start;
    while i < n
        invariant
            start <= i <= n,
            n == timestamp@.len(),
            d == timestamp@.subrange(start as int, n as int),
            d == numeral_digits(timestamp@),
            forall|k: int| 0 <= k < i - start ==> is_digit(#[trigger] d[k]),
            value == digits_value(d.subrange(0, i - start)),
        decreases n - i,
    {
        let b = timestamp[i];
        if !(48 <= b && b <= 57) {
            assert(!is_digit(d[i - start]));
            assert(!is_numeral(timestamp@));
            return Err(ErrorCode::TimestampParsingFailed);
        }
        proof {
            lemma_digits_value_step(d, i - start);
        }
        let next = match value.checked_mul(10) {
            Some(v) => v.checked_add((b - 48) as u64),
            None => None,
        };
        match next {
            Some(v) => {
                value = v;
            },
            None => {
                // The value of the digits read so far is beyond `u64::MAX`,
                // and more digits only make it larger.
                proof {
                    if is_numeral(timestamp@) {
                        lemma_digits_value_grows(d, i - start + 1, d.len() as int);
                        assert(d.subrange(0, d.len() as int) =~= d);
                    }
                }
                return Err(ErrorCode::TimestampParsingFailed);
            },
        }
        i = i + 1;
    }
    assert(d.subrange(0, n - start) =~= d);
    Ok(value)
}

/// The position of the one separator of `message`, or `None` where it has
/// none or more than one.
fn find_sole_separator(message: &[u8]) -> (r: Option<usize>)
    ensures
        match r {
            Some(p) => is_sole_separator(message@, p as int),
            None => !splits_in_two(message@),
        },
{
    let n = message.len();
    let mut found: Option<usize> = None;
    let mut i: usize = 0;
    while i < n
        invariant
            0 <= i <= n,
            n == message@.len(),
            match found {
                Some(p) => is_separator_at(message@, p as int) && p < i && forall|q: int|
                    0 <= q < i && #[trigger] is_separator_at(message@, q) ==> q == p,
                None => forall|q: int| 0 <= q < i ==> !#[trigger] is_separator_at(message@, q),
            },
        decreases n - i,
    {
        if message[i] == SEPARATOR {
            match found {
                Some(p) => {
                    proof {
                        assert forall|x: int| !is_sole_separator(message@, x) by {
                            if is_sole_separator(message@, x) {
                                assert(is_separator_at(message@, p as int));
                                assert(is_separator_at(message@, i as int));
                            }
                        }
                    }
                    return None;
                },
                None => {
                    found = Some(i);
                },
            }
        }
        i = i + 1;
    }
    match found {
        Some(p) => Some(p),
        None => {
            proof {
                assert forall|x: int| !is_sole_separator(message@, x) by {
                    if is_sole_separator(message@, x) {
                        assert(is_separator_at(message@, x));
                    }
                }
            }
            None
        },
    }
}

/// Decodes a message of the form `<timestamp>_<key>`: a decimal `u64`, one
/// `_`, and a key in the platform's textual form.
///
/// The message is taken as bytes. Every byte that the format looks at (the
/// separator, the digits, the base58 alphabet) is ASCII, and in UTF-8, lossy
/// or not, an ASCII byte always stands for its own character, so splitting
/// the bytes splits the text in the same places.
pub fn extract_message(message_bytes: &[u8]) -> (r: Result<ExtractedMessage, ErrorCode>)
    ensures
        match r {
            Ok(e) => decode_message(message_bytes@) == Ok::<(u64, Seq<u8>), ErrorCode>(
                (e.timestamp, e.pubkey@),
            ),
            Err(err) => decode_message(message_bytes@) == Err::<(u64, Seq<u8>), ErrorCode>(err),
        },
{
    let p = match find_sole_separator(message_bytes) {
        Some(p) => p,
        None => {
            return Err(ErrorCode::WrongMessageSplitLength);
        },
    };
    proof {
        let c = separator_index(message_bytes@);
        assert(is_sole_separator(message_bytes@, c));
        assert(is_separator_at(message_bytes@, p as int));
    }
    let n = message_bytes.len();
    assert(p < n);
    let timestamp_str = &message_bytes[0..p];
    let pubkey_str = &message_bytes[p + 1..n];
    assert(timestamp_str@ =~= timestamp_part(message_bytes@));
    assert(pubkey_str@ =~= key_part(message_bytes@));
    let timestamp = timestamp_from_string(timestamp_str)?;
    let pubkey = pubkey_from_string(pubkey_str)?;
    Ok(ExtractedMessage { timestamp, pubkey })
}

proof fn lemma_separator_index_is(m: Seq<u8>, p: int)
    requires
        is_sole_separator(m, p),
    ensures
        splits_in_two(m),
        separator_index(m) == p,
{
    let c = separator_index(m);
    assert(is_sole_separator(m, c));
    assert(is_separator_at(m, p));
}

/// A message without any separator does not split in two.
pub proof fn lemma_no_separator_rejected(m: Seq<u8>)
    requires
        forall|i: int| 0 <= i < m.len() ==> m[i] != SEPARATOR,
    ensures
        decode_message(m) == Err::<(u64, Seq<u8>), ErrorCode>(ErrorCode::WrongMessageSplitLength),
{
    assert forall|p: int| !is_sole_separator(m, p) by {
        if is_sole_separator(m, p) {
            assert(m[p] == SEPARATOR);
        }
    }
}

/// A message with two or more separators does not split in two.
pub proof fn lemma_extra_separator_rejected(m: Seq<u8>, p: int, q: int)
    requires
        0 <= p < m.len(),
        0 <= q < m.len(),
        p != q,
        m[p] == SEPARATOR,
        m[q] == SEPARATOR,
    ensures
        decode_message(m) == Err::<(u64, Seq<u8>), ErrorCode>(ErrorCode::WrongMessageSplitLength),
{
    assert forall|x: int| !is_sole_separator(m, x) by {
        if is_sole_separator(m, x) {
            assert(is_separator_at(m, p));
            assert(is_separator_at(m, q));
        }
    }
}

/// A message whose part before its one separator is no decimal numeral is
/// rejected for its timestamp.
pub proof fn lemma_non_numeric_timestamp_rejected(m: Seq<u8>, p: int)
    requires
        is_sole_separator(m, p),
        !is_numeral(m.subrange(0, p)),
    ensures
        decode_message(m) == Err::<(u64, Seq<u8>), ErrorCode>(ErrorCode::TimestampParsingFailed),
{
    lemma_separator_index_is(m, p);
}

/// A message with a readable timestamp, whose part after its one separator
/// is no textual key, is rejected for its key.
pub proof fn lemma_malformed_key_rejected(m: Seq<u8>, p: int)
    requires
        is_sole_separator(m, p),
        numeral_u64(m.subrange(0, p)) is Some,
        base58_key(m.subrange(p + 1, m.len() as int)) is None,
    ensures
        decode_message(m) == Err::<(u64, Seq<u8>), ErrorCode>(ErrorCode::PubkeyParsingFailed),
{
    lemma_separator_index_is(m, p);
}

} // verus!
