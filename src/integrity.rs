//! Integrity checks: a file's SHA-1 digest against an expected hex hash.

use vstd::prelude::*;

verus! {

/// Why an integrity check could not be made.
#[derive(Debug, Clone, Copy, PartialEq, Eq, Structural)]
pub enum IntegrityCheckError {
    /// The file could not be read.
    Io,
    /// The expected hash is not a hex string of whole bytes.
    ParseInt,
}

/// The value of a hex digit, either case.
pub open spec fn hex_value(c: char) -> Option<u8> {
    if '0' <= c && c <= '9' {
        Some((c as u32 - '0' as u32) as u8)
    } else if 'a' <= c && c <= 'f' {
        Some((c as u32 - 'a' as u32 + 10) as u8)
    } else if 'A' <= c && c <= 'F' {
        Some((c as u32 - 'A' as u32 + 10) as u8)
    } else {
        None
    }
}

/// Whether every character is a hex digit and they pair up into bytes.
pub open spec fn is_hex(s: Seq<char>) -> bool {
    &&& s.len() % 2 == 0
    &&& forall|i: int| 0 <= i < s.len() ==> #[trigger] hex_value(s[i]) is Some
}

/// The byte written by the two hex digits at `2 * i`.
pub open spec fn hex_byte(s: Seq<char>, i: int) -> u8 {
    (hex_value(s[2 * i])->Some_0 * 16 + hex_value(s[2 * i + 1])->Some_0) as u8
}

/// The bytes a hex string writes, two digits each.
pub open spec fn hex_bytes(s: Seq<char>) -> Option<Seq<u8>> {
    if is_hex(s) {
        Some(Seq::new((s.len() / 2) as nat, |i: int| hex_byte(s, i)))
    } else {
        None
    }
}

/// The SHA-1 digest of a byte sequence.
pub uninterp spec fn sha1_of(data: Seq<u8>) -> Seq<u8>;

/// Relies on sha1::Sha1 through digest::Digest::digest: the 20-byte SHA-1
/// digest of the data.
#[verifier::external_body]
fn sha1_digest(data: &[u8]) -> (r: Vec<u8>)
    ensures
        r@ == sha1_of(data@),
        r@.len() == 20,
{
    <sha1::Sha1 as sha1::Digest>::digest(data).to_vec()
}

fn hex_digit(c: char) -> (r: Option<u8>)
    ensures
        r == hex_value(c),
{
    if '0' <= c && c <= '9' {
        Some((c as u32 - '0' as u32) as u8)
    } else if 'a' <= c && c <= 'f' {
        Some((c as u32 - 'a' as u32 + 10) as u8)
    } else if 'A' <= c && c <= 'F' {
        Some((c as u32 - 'A' as u32 + 10) as u8)
    } else {
        None
    }
}

/// The bytes of a hex string; an error where it is not one.
pub fn parse_hex(sha: &str) -> (r: Result<Vec<u8>, IntegrityCheckError>)
    ensures
        match hex_bytes(sha@) {
            Some(b) => r is Ok && r->Ok_0@ == b,
            None => r == Err::<Vec<u8>, IntegrityCheckError>(IntegrityCheckError::ParseInt),
        },
{
    let n = sha.unicode_len();
    if n % 2 != 0 {
        return Err(IntegrityCheckError::ParseInt);
    }
    let mut bytes: Vec<u8> = Vec::new();
    let mut i: usize = 0;
    while i < n / 2
        invariant
            n == sha@.len(),
            n % 2 == 0,
            i <= n / 2,
            forall|k: int| 0 <= k < 2 * i ==> #[trigger] hex_value(sha@[k]) is Some,
            bytes@.len() == i,
            forall|k: int| 0 <= k < i ==> bytes@[k] == hex_byte(sha@, k),
        decreases n / 2 - i,
    {
        let hi = hex_digit(sha.get_char(2 * i));
        let lo = hex_digit(sha.get_char(2 * i + 1));
        match (hi, lo) {
            (Some(h), Some(l)) => {
                assert(h < 16 && l < 16);
                bytes.push(h * 16 + l);
                assert forall|k: int| 0 <= k < 2 * (i + 1) implies #[trigger] hex_value(sha@[k]) is Some by {
                    if k >= 2 * i {
                        assert(k == 2 * i || k == 2 * i + 1);
                    }
                }
            },
            _ => {
                assert(!is_hex(sha@)) by {
                    if hi is None {
                        assert(hex_value(sha@[2 * i as int]) is None);
                    } else {
                        assert(hex_value(sha@[2 * i as int + 1]) is None);
                    }
                }
                return Err(IntegrityCheckError::ParseInt);
            },
        }
        i += 1;
    }
    assert(bytes@ =~= Seq::new((sha@.len() / 2) as nat, |k: int| hex_byte(sha@, k)));
    Ok(bytes)
}

/// Whether a digest equals the bytes an expected hex hash writes; `None`
/// where the hash is not hex.
pub open spec fn digest_verdict(digest: Seq<u8>, sha: Seq<char>) -> Option<bool> {
    match hex_bytes(sha) {
        Some(b) => Some(digest == b),
        None => None,
    }
}

/// Compares a digest with an expected hex hash.
pub fn digest_matches(digest: &[u8], sha: &str) -> (r: Result<bool, IntegrityCheckError>)
    ensures
        match digest_verdict(digest@, sha@) {
            Some(v) => r == Ok::<bool, IntegrityCheckError>(v),
            None => r == Err::<bool, IntegrityCheckError>(IntegrityCheckError::ParseInt),
        },
{
    let expected = match parse_hex(sha) {
        Ok(b) => b,
        Err(e) => return Err(e),
    };
    if expected.len() != digest.len() {
        return Ok(false);
    }
    let mut i: usize = 0;
    while i < digest.len()
        invariant
            hex_bytes(sha@) == Some(expected@),
            expected@.len() == digest@.len(),
            i <= digest@.len(),
            forall|k: int| 0 <= k < i ==> digest@[k] == expected@[k],
        decreases digest@.len() - i,
    {
        if digest[i] != expected[i] {
            assert(digest@[i as int] != expected@[i as int]);
            assert(digest@ != expected@);
            return Ok(false);
        }
        i += 1;
    }
    assert(digest@ =~= expected@);
    Ok(true)
}

/// Whether content hashes to the expected hex hash: `Ok(true)` on a match,
/// `Ok(false)` on a mismatch, an error where the hash is not hex.
pub fn check(content: &[u8], sha: &str) -> (r: Result<bool, IntegrityCheckError>)
    ensures
        match digest_verdict(sha1_of(content@), sha@) {
            Some(v) => r == Ok::<bool, IntegrityCheckError>(v),
            None => r == Err::<bool, IntegrityCheckError>(IntegrityCheckError::ParseInt),
        },
{
    let digest = sha1_digest(content);
    digest_matches(digest.as_slice(), sha)
}

} // verus!
