//! Recipient-key normalizer: a key token that arrives as a DID-key
//! identifier (`did:key:` followed by a multibase fingerprint) is reduced
//! to the canonical base58 form of the raw public key, which is what the
//! storage layer keys records by. A token in any other form, including a
//! fingerprint that does not decode, passes through unchanged: malformed
//! input degrades to a pass-through rather than aborting the exchange.

use vstd::prelude::*;

use crate::strings::{str_starts_with};

verus! {

/// What `multibase::decode` yields for a given string; a function of the
/// characters alone.
pub uninterp spec fn spec_multibase_decode(s: Seq<char>) -> Option<Seq<u8>>;

/// What `bs58::encode` prints for given bytes; a function of the bytes
/// alone.
pub uninterp spec fn spec_base58(bytes: Seq<u8>) -> Seq<char>;

/// The base58 symbol set (bitcoin alphabet): digits and letters without
/// `0`, `O`, `I` and `l`. It has no `:`, so no base58 string carries a
/// `did:key:` prefix.
pub open spec fn is_base58_char(c: char) -> bool {
    ('1' <= c && c <= '9') || ('A' <= c && c <= 'H') || ('J' <= c && c <= 'N') || ('P' <= c && c
        <= 'Z') || ('a' <= c && c <= 'k') || ('m' <= c && c <= 'z')
}

/// Relies on multibase::decode: the base tag is the first character and
/// the rest decodes under that base, so success and the decoded bytes
/// depend on the input characters alone.
#[verifier::external_body]
fn multibase_decode(s: &str) -> (r: Option<Vec<u8>>)
    ensures
        r matches Some(bytes) ==> spec_multibase_decode(s@) == Some(bytes@),
        r is None ==> spec_multibase_decode(s@) is None,
{
    match multibase::decode(s) {
        Ok((_base, bytes)) => Some(bytes),
        Err(_) => None,
    }
}

/// Relies on bs58::encode with its default (bitcoin) alphabet: the
/// printed string is a function of the bytes alone, and every character
/// of it comes from that 58-symbol alphabet.
#[verifier::external_body]
fn base58_encode(bytes: &Vec<u8>) -> (r: String)
    ensures
        r@ == spec_base58(bytes@),
        forall|i: int| 0 <= i < r@.len() ==> is_base58_char(#[trigger] r@[i]),
{
    bs58::encode(bytes.as_slice()).into_string()
}

// ----------------------------------------------------------- the fingerprint

/// The multicodec tags of the verification-key kinds this mediator
/// accepts in a fingerprint: the bls12-381 variants, x25519, ed25519,
/// and the p-256/384/521 family.
pub open spec fn is_known_key_code(code: int) -> bool {
    code == 0xea || code == 0xeb || code == 0xec || code == 0xed || code == 0xee || code == 0x1200
        || code == 0x1201 || code == 0x1202
}

/// Strip the varint multicodec tag off decoded fingerprint bytes,
/// keeping the raw key, provided the tag names a known key kind. All
/// known tags fit in a varint of at most two bytes.
pub open spec fn spec_strip_multicodec(bytes: Seq<u8>) -> Option<Seq<u8>> {
    if bytes.len() >= 1 && bytes[0] < 0x80 {
        if is_known_key_code(bytes[0] as int) {
            Some(bytes.skip(1))
        } else {
            None
        }
    } else if bytes.len() >= 2 && bytes[1] < 0x80 {
        if is_known_key_code((bytes[0] - 0x80) + 0x80 * (bytes[1] as int)) {
            Some(bytes.skip(2))
        } else {
            None
        }
    } else {
        None
    }
}

fn strip_multicodec(bytes: &Vec<u8>) -> (r: Option<Vec<u8>>)
    ensures
        r matches Some(raw) ==> spec_strip_multicodec(bytes@) == Some(raw@),
        r is None ==> spec_strip_multicodec(bytes@) is None,
{
    let skip: usize = {
        if bytes.len() >= 1 && bytes[0] < 0x80 {
            let code: u32 = bytes[0] as u32;
            if !known_key_code(code) {
                return None;
            }
            1
        } else if bytes.len() >= 2 && bytes[1] < 0x80 {
            let code: u32 = (bytes[0] as u32 - 0x80) + 0x80 * (bytes[1] as u32);
            if !known_key_code(code) {
                return None;
            }
            2
        } else {
            return None;
        }
    };
    let mut raw: Vec<u8> = Vec::new();
    let mut i: usize = skip;
    while i < bytes.len()
        invariant
            skip <= i <= bytes@.len(),
            raw@ =~= bytes@.subrange(skip as int, i as int),
        decreases bytes@.len() - i,
    {
        raw.push(bytes[i]);
        proof {
            assert(bytes@.subrange(skip as int, i as int + 1) =~= bytes@.subrange(
                skip as int,
                i as int,
            ).push(bytes@[i as int]));
        }
        i += 1;
    }
    proof {
        assert(raw@ =~= bytes@.skip(skip as int));
    }
    Some(raw)
}

fn known_key_code(code: u32) -> (r: bool)
    ensures
        r == is_known_key_code(code as int),
{
    code == 0xea || code == 0xeb || code == 0xec || code == 0xed || code == 0xee || code == 0x1200
        || code == 0x1201 || code == 0x1202
}

// -------------------------------------------------------------- normalization

/// The canonical form of a recipient-key token: for a `did:key:` token
/// whose fingerprint decodes to a known key kind, the base58 print of
/// the raw key; any other token, unchanged.
pub open spec fn spec_normalize(s: Seq<char>) -> Seq<char> {
    if s.len() >= 8 && s.take(8) == "did:key:"@ {
        match spec_multibase_decode(s.skip(8)) {
            Some(bytes) => match spec_strip_multicodec(bytes) {
                Some(raw) => spec_base58(raw),
                None => s,
            },
            None => s,
        }
    } else {
        s
    }
}

/// Normalize a recipient-key token to its canonical base58 storage form.
/// Never fails: whatever cannot be read as a DID-key fingerprint is
/// returned unchanged. The result is always a fixed point, so
/// normalizing twice changes nothing, and the DID-key form of a key
/// normalizes to the same string as its raw base58 form.
pub fn normalize(token: &str) -> (r: String)
    ensures
        r@ == spec_normalize(token@),
        spec_normalize(r@) == r@,
{
    let len = token.unicode_len();
    let prefix = "did:key:";
    if !str_starts_with(token, prefix) {
        proof {
            reveal_strlit("did:key:");
        }
        return token.to_owned();
    }
    proof {
        reveal_strlit("did:key:");
    }
    let fingerprint = token.substring_char(8, len);
    proof {
        assert(fingerprint@ =~= token@.skip(8));
    }
    let bytes = match multibase_decode(fingerprint) {
        Some(b) => b,
        None => {
            return token.to_owned();
        },
    };
    let raw = match strip_multicodec(&bytes) {
        Some(raw) => raw,
        None => {
            return token.to_owned();
        },
    };
    let out = base58_encode(&raw);
    proof {
        lemma_base58_is_fixed_point(out@);
    }
    out
}

/// A string of base58 characters cannot carry the `did:key:` prefix
/// (its fourth character would have to be `:`), so it normalizes to
/// itself.
proof fn lemma_base58_is_fixed_point(s: Seq<char>)
    requires
        forall|i: int| 0 <= i < s.len() ==> is_base58_char(#[trigger] s[i]),
    ensures
        spec_normalize(s) == s,
{
    reveal_strlit("did:key:");
    if s.len() >= 8 && s.take(8) == "did:key:"@ {
        assert(s.take(8)[3] == ':');
        assert(s[3] == ':');
        assert(is_base58_char(s[3]));
        assert(false);
    }
}

} // verus!
