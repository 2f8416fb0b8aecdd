//! The freshness token: a weak validator derived from the bytes that are
//! served, so that equal bodies always carry equal validators.

use sha1::{Digest, Sha1};
use vstd::prelude::*;
use vstd::string::*;

verus! {

/// The SHA-1 digest of `bytes`.
pub uninterp spec fn sha1_digest(bytes: Seq<u8>) -> Seq<u8>;

/// Computes the SHA-1 digest of `bytes` with `sha1::Sha1::digest`.
///
/// Assumed, not proved: the twenty bytes that come back are the digest that
/// the contracts of this module call `sha1_digest`, which depends on the
/// input bytes alone.
#[verifier::external_body]
fn compute_sha1(bytes: &[u8]) -> (digest: [u8; 20])
    ensures
        digest@ == sha1_digest(bytes@),
{
    Sha1::digest(bytes).into()
}

/// The lower-case hexadecimal digit for a value below 16.
pub open spec fn hex_digit(n: int) -> char {
    if n == 0 {
        '0'
    } else if n == 1 {
        '1'
    } else if n == 2 {
        '2'
    } else if n == 3 {
        '3'
    } else if n == 4 {
        '4'
    } else if n == 5 {
        '5'
    } else if n == 6 {
        '6'
    } else if n == 7 {
        '7'
    } else if n == 8 {
        '8'
    } else if n == 9 {
        '9'
    } else if n == 10 {
        'a'
    } else if n == 11 {
        'b'
    } else if n == 12 {
        'c'
    } else if n == 13 {
        'd'
    } else if n == 14 {
        'e'
    } else {
        'f'
    }
}

/// Two hexadecimal digits per byte, the high nibble first.
pub open spec fn hex_of(bytes: Seq<u8>) -> Seq<char> {
    Seq::new(
        2 * bytes.len(),
        |i: int|
            if i % 2 == 0 {
                hex_digit(bytes[i / 2] as int / 16)
            } else {
                hex_digit(bytes[i / 2] as int % 16)
            },
    )
}

/// The weak validator for a digest: `W/"`, the digest in hexadecimal, `"`.
pub open spec fn etag_of(digest: Seq<u8>) -> Seq<char> {
    seq!['W', '/', '"'] + hex_of(digest) + seq!['"']
}

/// The freshness token of a body: the weak validator of its SHA-1 digest.
pub open spec fn etag_for(bytes: Seq<u8>) -> Seq<char> {
    etag_of(sha1_digest(bytes))
}

/// The one-character string for a hexadecimal digit.
fn hex_digit_str(n: u8) -> (digit: &'static str)
    requires
        n < 16,
    ensures
        digit@ == seq![hex_digit(n as int)],
{
    proof {
        reveal_strlit("0");
        reveal_strlit("1");
        reveal_strlit("2");
        reveal_strlit("3");
        reveal_strlit("4");
        reveal_strlit("5");
        reveal_strlit("6");
        reveal_strlit("7");
        reveal_strlit("8");
        reveal_strlit("9");
        reveal_strlit("a");
        reveal_strlit("b");
        reveal_strlit("c");
        reveal_strlit("d");
        reveal_strlit("e");
        reveal_strlit("f");
    }
    let digit = match n {
        0 => "0",
        1 => "1",
        2 => "2",
        3 => "3",
        4 => "4",
        5 => "5",
        6 => "6",
        7 => "7",
        8 => "8",
        9 => "9",
        10 => "a",
        11 => "b",
        12 => "c",
        13 => "d",
        14 => "e",
        _ => "f",
    };
    assert(digit@ =~= seq![hex_digit(n as int)]);
    digit
}

/// Formats a digest as a weak validator.
pub fn format_etag(digest: &[u8]) -> (tag: String)
    ensures
        tag@ == etag_of(digest@),
{
    let mut tag = String::from_str("W/\"");
    proof {
        reveal_strlit("W/\"");
        assert(tag@ =~= seq!['W', '/', '"'] + hex_of(digest@.take(0)));
    }
    let mut i: usize = 0;
    while i < digest.len()
        invariant
            i <= digest@.len(),
            tag@ == seq!['W', '/', '"'] + hex_of(digest@.take(i as int)),
        decreases digest@.len() - i,
    {
        let byte: u8 = digest[i];
        tag.append(hex_digit_str(byte / 16));
        tag.append(hex_digit_str(byte % 16));
        proof {
            let shorter = digest@.take(i as int);
            let longer = digest@.take(i + 1);
            assert(longer =~= shorter.push(byte));
            assert(hex_of(longer) =~= hex_of(shorter) + seq![
                hex_digit(byte as int / 16),
                hex_digit(byte as int % 16),
            ]);
            assert(tag@ =~= seq!['W', '/', '"'] + hex_of(longer));
        }
        i = i + 1;
    }
    tag.append("\"");
    proof {
        reveal_strlit("\"");
        assert(digest@.take(i as int) =~= digest@);
        assert(tag@ =~= etag_of(digest@));
    }
    tag
}

/// Derives the freshness token of `bytes`: 44 characters, of which 40 are the
/// hexadecimal digits of the twenty digest bytes.
pub fn make_etag(bytes: &[u8]) -> (tag: String)
    ensures
        tag@ == etag_for(bytes@),
        sha1_digest(bytes@).len() == 20,
        tag@.len() == 44,
{
    let digest = compute_sha1(bytes);
    assert(digest@.len() == 20);
    format_etag(digest.as_slice())
}

/// Distinct values below 16 have distinct hexadecimal digits.
proof fn lemma_hex_digit_injective(a: int, b: int)
    requires
        0 <= a < 16,
        0 <= b < 16,
        hex_digit(a) == hex_digit(b),
    ensures
        a == b,
{
}

/// The characters of a validator, position by position.
proof fn lemma_etag_chars(digest: Seq<u8>, i: int)
    requires
        0 <= i < digest.len(),
    ensures
        etag_of(digest).len() == 2 * digest.len() + 4,
        etag_of(digest)[3 + 2 * i] == hex_digit(digest[i] as int / 16),
        etag_of(digest)[4 + 2 * i] == hex_digit(digest[i] as int % 16),
{
    let hex = hex_of(digest);
    assert(hex[2 * i] == hex_digit(digest[i] as int / 16));
    assert(hex[2 * i + 1] == hex_digit(digest[i] as int % 16));
}

/// The token is a function of the body's bytes: equal bodies have equal
/// tokens.
pub proof fn lemma_etag_is_function_of_bytes(a: Seq<u8>, b: Seq<u8>)
    requires
        a == b,
    ensures
        etag_for(a) == etag_for(b),
{
}

/// Formatting loses nothing: two digests with the same validator are the same
/// digest. So two bodies have different tokens exactly when their SHA-1
/// digests differ.
pub proof fn lemma_etag_tells_digests_apart(d1: Seq<u8>, d2: Seq<u8>)
    requires
        etag_of(d1) == etag_of(d2),
    ensures
        d1 == d2,
{
    assert(etag_of(d1).len() == 2 * d1.len() + 4);
    assert(etag_of(d2).len() == 2 * d2.len() + 4);
    assert forall|i: int| 0 <= i < d1.len() implies d1[i] == d2[i] by {
        lemma_etag_chars(d1, i);
        lemma_etag_chars(d2, i);
        lemma_hex_digit_injective(d1[i] as int / 16, d2[i] as int / 16);
        lemma_hex_digit_injective(d1[i] as int % 16, d2[i] as int % 16);
    }
    assert(d1 =~= d2);
}

/// A validator is a single token: it holds no comma, and it starts and ends
/// with a character that is no white space.
pub proof fn lemma_etag_is_one_token(digest: Seq<u8>)
    ensures
        etag_of(digest).len() > 0,
        etag_of(digest).first() == 'W',
        etag_of(digest).last() == '"',
        forall|k: int| 0 <= k < etag_of(digest).len() ==> etag_of(digest)[k] != ',',
{
    let tag = etag_of(digest);
    assert(tag.len() == 2 * digest.len() + 4);
    assert forall|k: int| 0 <= k < tag.len() implies tag[k] != ',' by {
        if 3 <= k < 3 + 2 * digest.len() {
            assert(tag[k] == hex_of(digest)[k - 3]);
        }
    }
}

} // verus!
