//! Decoding of the runtime public key from its hexadecimal command-line form.
//!
//! The key is given as a hex string, optionally prefixed by `0x`, and must
//! decode to exactly 32 bytes. The decoder below is specified byte for byte:
//! each output byte is the value of one hex-digit pair, read big-endian
//! within the pair, so the whole output is the big-endian interpretation of
//! the digit string.

use vstd::prelude::*;

verus! {

/// True of the ASCII bytes `0`-`9`, `a`-`f` and `A`-`F`.
pub open spec fn is_hex_digit(b: u8) -> bool {
    (48 <= b <= 57) || (97 <= b <= 102) || (65 <= b <= 70)
}

/// Numeric value of a hex digit byte (digits, then lower case, then upper).
pub open spec fn hex_digit_value(b: u8) -> u8
    recommends
        is_hex_digit(b),
{
    if 48 <= b <= 57 {
        (b - 48) as u8
    } else if 97 <= b <= 102 {
        (b - 87) as u8
    } else {
        (b - 55) as u8
    }
}

/// The input with one leading `0x` removed, if present (`0` is byte 48,
/// `x` is byte 120).
pub open spec fn strip_hex_prefix(s: Seq<u8>) -> Seq<u8> {
    if s.len() >= 2 && s[0] == 48 && s[1] == 120 {
        s.skip(2)
    } else {
        s
    }
}

/// Every byte of the sequence is a hex digit.
pub open spec fn all_hex_digits(s: Seq<u8>) -> bool {
    forall|i: int| 0 <= i < s.len() ==> is_hex_digit(s[i])
}

/// The byte encoded big-endian by the hex-digit pair at positions `2i` and
/// `2i + 1`.
pub open spec fn hex_byte_at(s: Seq<u8>, i: int) -> u8
    recommends
        0 <= i,
        2 * i + 1 < s.len(),
        all_hex_digits(s),
{
    (hex_digit_value(s[2 * i]) * 16 + hex_digit_value(s[2 * i + 1])) as u8
}

/// Big-endian value of a byte string.
pub open spec fn be_bytes_value(s: Seq<u8>) -> nat
    decreases s.len(),
{
    if s.len() == 0 {
        0
    } else {
        be_bytes_value(s.drop_last()) * 256 + s.last() as nat
    }
}

/// Big-endian value of a hex-digit string.
pub open spec fn hex_digits_value(s: Seq<u8>) -> nat
    recommends
        all_hex_digits(s),
    decreases s.len(),
{
    if s.len() == 0 {
        0
    } else {
        hex_digits_value(s.drop_last()) * 16 + hex_digit_value(s.last()) as nat
    }
}

/// Why a hex key string was rejected.
#[derive(Clone, Copy, Debug, PartialEq, Eq, Structural)]
pub enum KeyDecodeError {
    /// After stripping an optional `0x` prefix, the digit count is not 64.
    WrongLength,
    /// A character other than a hex digit appears among the 64 digits.
    InvalidDigit,
}

/// A runtime public key: exactly 32 bytes, decoded from hex.
#[derive(Debug)]
pub struct RuntimePublicKey {
    bytes: Vec<u8>,
}

impl View for RuntimePublicKey {
    type V = Seq<u8>;

    closed spec fn view(&self) -> Seq<u8> {
        self.bytes@
    }
}

impl RuntimePublicKey {
    /// The length invariant every constructed key satisfies.
    pub open spec fn wf(&self) -> bool {
        self@.len() == 32
    }

    /// The raw key bytes.
    pub fn as_bytes(&self) -> (r: &[u8])
        ensures
            r@ == self@,
    {
        self.bytes.as_slice()
    }
}

/// Value of one hex digit byte, or `None` if the byte is not a hex digit.
fn hex_value(b: u8) -> (r: Option<u8>)
    ensures
        r is Some <==> is_hex_digit(b),
        is_hex_digit(b) ==> r == Some(hex_digit_value(b)),
{
    if 48 <= b && b <= 57 {
        Some(b - 48)
    } else if 97 <= b && b <= 102 {
        Some(b - 87)
    } else if 65 <= b && b <= 70 {
        Some(b - 55)
    } else {
        None
    }
}

/// Decode a runtime public key from the bytes of its hex string.
///
/// An optional leading `0x` is stripped first. The remaining text must be
/// exactly 64 hex digits; the decoded key holds, byte for byte, the value of
/// each big-endian digit pair. Any other length is `WrongLength`; a 64-digit
/// text with a non-hex character is `InvalidDigit`.
pub fn decode_runtime_public_key(s: &[u8]) -> (r: Result<RuntimePublicKey, KeyDecodeError>)
    ensures
        ({
            let t = strip_hex_prefix(s@);
            &&& (r is Ok <==> t.len() == 64 && all_hex_digits(t))
            &&& t.len() != 64 ==> r == Err::<RuntimePublicKey, KeyDecodeError>(
                KeyDecodeError::WrongLength,
            )
            &&& t.len() == 64 && !all_hex_digits(t) ==> r == Err::<
                RuntimePublicKey,
                KeyDecodeError,
            >(KeyDecodeError::InvalidDigit)
            &&& r matches Ok(k) ==> k.wf() && (forall|i: int|
                0 <= i < 32 ==> k@[i] == hex_byte_at(t, i))
        }),
{
    let t: &[u8] = if s.len() >= 2 && s[0] == 48 && s[1] == 120 {
        vstd::slice::slice_subrange(s, 2, s.len())
    } else {
        s
    };
    proof {
        assert(t@ =~= strip_hex_prefix(s@));
    }
    if t.len() != 64 {
        return Err(KeyDecodeError::WrongLength);
    }
    let mut bytes: Vec<u8> = Vec::new();
    let mut i: usize = 0;
    while i < 32
        invariant
            i <= 32,
            t@ == strip_hex_prefix(s@),
            t@.len() == 64,
            bytes@.len() == i,
            forall|k: int| 0 <= k < 2 * i ==> is_hex_digit(t@[k]),
            forall|j: int| 0 <= j < i ==> bytes@[j] == hex_byte_at(t@, j),
        decreases 32 - i,
    {
        let hi = t[2 * i];
        let lo = t[2 * i + 1];
        let hv = match hex_value(hi) {
            Some(v) => v,
            None => {
                proof {
                    assert(!is_hex_digit(t@[2 * (i as int)]));
                }
                return Err(KeyDecodeError::InvalidDigit);
            },
        };
        let lv = match hex_value(lo) {
            Some(v) => v,
            None => {
                proof {
                    assert(!is_hex_digit(t@[2 * (i as int) + 1]));
                }
                return Err(KeyDecodeError::InvalidDigit);
            },
        };
        bytes.push(hv * 16 + lv);
        i = i + 1;
    }
    Ok(RuntimePublicKey { bytes })
}

/// The decoded bytes carry the big-endian value of the digit string: a byte
/// string whose every byte is the value of the matching big-endian hex-digit
/// pair has, as a whole, the big-endian value of the whole digit string.
pub proof fn lemma_decoded_bytes_are_big_endian(t: Seq<u8>, b: Seq<u8>)
    requires
        t.len() == 2 * b.len(),
        all_hex_digits(t),
        forall|i: int| 0 <= i < b.len() ==> b[i] == hex_byte_at(t, i),
    ensures
        be_bytes_value(b) == hex_digits_value(t),
    decreases b.len(),
{
    if b.len() == 0 {
        assert(t.len() == 0);
    } else {
        let n = b.len() as int;
        let tp = t.take(t.len() - 2);
        let bp = b.drop_last();
        assert forall|i: int| 0 <= i < bp.len() implies bp[i] == hex_byte_at(tp, i) by {
            assert(b[i] == hex_byte_at(t, i));
            assert(tp[2 * i] == t[2 * i]);
            assert(tp[2 * i + 1] == t[2 * i + 1]);
        }
        lemma_decoded_bytes_are_big_endian(tp, bp);
        assert(t.drop_last() =~= tp.push(t[t.len() - 2]));
        assert(t.drop_last().drop_last() =~= tp);
        assert(hex_digits_value(t) == hex_digits_value(t.drop_last()) * 16 + hex_digit_value(
            t.last(),
        ));
        assert(hex_digits_value(t.drop_last()) == hex_digits_value(tp) * 16 + hex_digit_value(
            t[t.len() - 2],
        ));
        assert(b.last() == hex_byte_at(t, n - 1));
        assert(b.last() == hex_digit_value(t[2 * (n - 1)]) * 16 + hex_digit_value(
            t[2 * (n - 1) + 1],
        ));
        assert(2 * (n - 1) == t.len() - 2);
        assert(2 * (n - 1) + 1 == t.len() - 1);
        assert(t[t.len() - 1] == t.last());
        assert(be_bytes_value(b) == be_bytes_value(bp) * 256 + b.last());
        assert((hex_digits_value(tp) * 16) * 16 == hex_digits_value(tp) * 256) by (nonlinear_arith);
    }
}

} // verus!
