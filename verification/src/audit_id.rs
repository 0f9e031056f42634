//! The audit id a prepare-time denial mints, derived from the preview's
//! intent id.

use vstd::prelude::*;
use vstd::string::StringExecFns;
use sha2::Digest;

verus! {

/// The SHA-256 digest of a byte sequence.
pub uninterp spec fn sha256_digest(data: Seq<u8>) -> Seq<u8>;

/// `sha2::Sha256::digest`: the SHA-256 digest of `data`, which is 32 bytes
/// long (the hash's output size is `U32`).
#[verifier::external_body]
fn sha256(data: &[u8]) -> (digest: Vec<u8>)
    ensures
        digest@ == sha256_digest(data@),
        digest@.len() == 32,
{
    sha2::Sha256::digest(data).to_vec()
}

/// The lowercase hexadecimal digit for a value below sixteen.
pub open spec fn hex_digit(value: u8) -> char {
    if value < 10 {
        (('0' as u8) + value) as char
    } else {
        (('a' as u8) + value - 10) as char
    }
}

/// The lowercase hexadecimal text of a byte sequence: two digits per
/// byte, high nibble first.
pub open spec fn lower_hex(bytes: Seq<u8>) -> Seq<char>
    decreases bytes.len(),
{
    if bytes.len() == 0 {
        Seq::<char>::empty()
    } else {
        let last = bytes.last();
        lower_hex(bytes.drop_last()) + seq![hex_digit(last / 16), hex_digit(last % 16)]
    }
}

/// How many hexadecimal digits of the digest the denial audit id keeps.
pub const DENIAL_AUDIT_DIGEST_DIGITS: usize = 48;

/// The audit id of the denial of the preview with intent id `intent_id`:
/// `h3d-` followed by the first 48 lowercase hexadecimal digits of the
/// SHA-256 digest of the intent id's UTF-8 bytes.
pub open spec fn denial_audit_id(intent_id: Seq<char>) -> Seq<char> {
    "h3d-"@ + lower_hex(sha256_digest(vstd::utf8::encode_utf8(intent_id)).take(24))
}

/// The one-character text for a value below sixteen.
fn hex_digit_text(value: u8) -> (text: &'static str)
    requires
        value < 16,
    ensures
        text@ == seq![hex_digit(value)],
{
    proof {
        reveal_strlit("0");
        reveal_strlit("1");
        reveal_strlit("2");
        reveal_strlit("3");
        reveal_strlit("4");
        reveal_strlit("5");
        reveal_strlit("6");
        reveal_strlit("7");
        reveal_strlit("8");
        reveal_strlit("9");
        reveal_strlit("a");
        reveal_strlit("b");
        reveal_strlit("c");
        reveal_strlit("d");
        reveal_strlit("e");
        reveal_strlit("f");
    }
    match value {
        0 => "0",
        1 => "1",
        2 => "2",
        3 => "3",
        4 => "4",
        5 => "5",
        6 => "6",
        7 => "7",
        8 => "8",
        9 => "9",
        10 => "a",
        11 => "b",
        12 => "c",
        13 => "d",
        14 => "e",
        _ => "f",
    }
}

/// Derives the audit id a prepare-time denial of the preview with intent id
/// `prepared_intent_id` mints.  The same intent id always gives the same
/// audit id, and it is 52 characters long, within the 64 an audit id may
/// have.
pub fn derive_prepare_h3_denial_audit_id(prepared_intent_id: &str) -> (audit_id: String)
    ensures
        audit_id@ == denial_audit_id(prepared_intent_id@),
        audit_id@.len() == 52,
{
    let digest = sha256(prepared_intent_id.as_bytes());
    let mut id = "h3d-".to_owned();
    proof {
        reveal_strlit("h3d-");
        assert(digest@.take(0) =~= Seq::<u8>::empty());
    }
    let mut i: usize = 0;
    while i < 24
        invariant
            digest@.len() == 32,
            i <= 24,
            id@ == "h3d-"@ + lower_hex(digest@.take(i as int)),
            id@.len() == 4 + 2 * i,
        decreases 24 - i,
    {
        let byte = digest[i];
        let ghost before = id@;
        id.append(hex_digit_text(byte / 16));
        id.append(hex_digit_text(byte % 16));
        proof {
            assert(digest@.take(i + 1).drop_last() =~= digest@.take(i as int));
            assert(digest@.take(i + 1).last() == byte);
            assert(id@ =~= "h3d-"@ + lower_hex(digest@.take(i + 1)));
        }
        i = i + 1;
    }
    id
}

/// The value a lowercase hexadecimal digit stands for.
pub open spec fn hex_value(digit: char) -> int {
    if '0' <= digit <= '9' {
        digit as int - '0' as int
    } else {
        digit as int - 'a' as int + 10
    }
}

/// Whether a character is a lowercase hexadecimal digit.
pub open spec fn is_lower_hex_digit(digit: char) -> bool {
    ('0' <= digit <= '9') || ('a' <= digit <= 'f')
}

proof fn lemma_hex_digit_reads_back(value: u8)
    requires
        value < 16,
    ensures
        is_lower_hex_digit(hex_digit(value)),
        hex_value(hex_digit(value)) == value,
{
}

/// The lowercase hexadecimal text of bytes reads back as those bytes: it
/// has two lowercase hexadecimal digits per byte, and the digits at places
/// `2k` and `2k + 1` are the high and low nibble of byte `k`.
pub proof fn lemma_lower_hex_reads_back(bytes: Seq<u8>)
    ensures
        lower_hex(bytes).len() == 2 * bytes.len(),
        forall|k: int|
            0 <= k < bytes.len() ==> {
                &&& is_lower_hex_digit(#[trigger] lower_hex(bytes)[2 * k])
                &&& is_lower_hex_digit(lower_hex(bytes)[2 * k + 1])
                &&& hex_value(lower_hex(bytes)[2 * k]) * 16 + hex_value(lower_hex(bytes)[2 * k + 1])
                    == bytes[k] as int
            },
    decreases bytes.len(),
{
    if bytes.len() > 0 {
        let rest = bytes.drop_last();
        let last = bytes.last();
        lemma_lower_hex_reads_back(rest);
        lemma_hex_digit_reads_back(last / 16);
        lemma_hex_digit_reads_back(last % 16);
        let text = lower_hex(bytes);
        let n = rest.len() as int;
        assert forall|k: int| 0 <= k < bytes.len() implies {
            &&& is_lower_hex_digit(#[trigger] lower_hex(bytes)[2 * k])
            &&& is_lower_hex_digit(lower_hex(bytes)[2 * k + 1])
            &&& hex_value(lower_hex(bytes)[2 * k]) * 16 + hex_value(lower_hex(bytes)[2 * k + 1])
                == bytes[k] as int
        } by {
            if k < n {
                assert(text[2 * k] == lower_hex(rest)[2 * k]);
                assert(text[2 * k + 1] == lower_hex(rest)[2 * k + 1]);
                assert(rest[k] == bytes[k]);
            } else {
                assert(text[2 * k] == hex_digit(last / 16));
                assert(text[2 * k + 1] == hex_digit(last % 16));
                assert(bytes[k] == last);
            }
        }
    }
}

} // verus!
