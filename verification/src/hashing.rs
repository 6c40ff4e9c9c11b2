use vstd::prelude::*;
use sha2::Digest;
use vstd::utf8::encode_utf8;

verus! {

/// The SHA-256 digest of a byte sequence, as computed by the `sha2` crate.
pub uninterp spec fn sha256_digest(data: Seq<u8>) -> Seq<u8>;

/// Calls `sha2::Sha256::digest` (the `Digest` trait's one-shot form of
/// `new`, `update` and `finalize`) and copies the 32-byte output into a vector.
/// Trusted: the result is the named digest of the input bytes, and it is 32
/// bytes long, as the type `Sha256` fixes its output size to 32 bytes.
#[verifier::external_body]
fn sha256(data: &[u8]) -> (res: Vec<u8>)
    ensures
        res@ == sha256_digest(data@),
        res@.len() == 32,
{
    sha2::Sha256::digest(data).to_vec()
}

/// The lower-case hexadecimal digit for a value below sixteen.
pub open spec fn hex_digit(n: u8) -> char {
    if n < 10 {
        ((48 + n) as u8) as char
    } else {
        ((87 + n) as u8) as char
    }
}

/// Lower-case hexadecimal text of a byte sequence: two digits per byte,
/// high nibble first.
pub open spec fn lower_hex_spec(bytes: Seq<u8>) -> Seq<char> {
    Seq::new(
        2 * bytes.len(),
        |i: int|
            if i % 2 == 0 {
                hex_digit(bytes[i / 2] >> 4)
            } else {
                hex_digit(bytes[i / 2] & 15)
            },
    )
}

fn digit_str(n: u8) -> (s: &'static str)
    requires
        n < 16,
    ensures
        s@ == seq![hex_digit(n)],
{
    if n == 0 { proof { reveal_strlit("0"); } "0" }
    else if n == 1 { proof { reveal_strlit("1"); } "1" }
    else if n == 2 { proof { reveal_strlit("2"); } "2" }
    else if n == 3 { proof { reveal_strlit("3"); } "3" }
    else if n == 4 { proof { reveal_strlit("4"); } "4" }
    else if n == 5 { proof { reveal_strlit("5"); } "5" }
    else if n == 6 { proof { reveal_strlit("6"); } "6" }
    else if n == 7 { proof { reveal_strlit("7"); } "7" }
    else if n == 8 { proof { reveal_strlit("8"); } "8" }
    else if n == 9 { proof { reveal_strlit("9"); } "9" }
    else if n == 10 { proof { reveal_strlit("a"); } "a" }
    else if n == 11 { proof { reveal_strlit("b"); } "b" }
    else if n == 12 { proof { reveal_strlit("c"); } "c" }
    else if n == 13 { proof { reveal_strlit("d"); } "d" }
    else if n == 14 { proof { reveal_strlit("e"); } "e" }
    else { proof { reveal_strlit("f"); } "f" }
}

/// Formats bytes as lower-case hexadecimal, two digits per byte, as the
/// `{:x}` format of a digest output does.
pub fn lower_hex(bytes: &[u8]) -> (s: String)
    ensures
        s@ == lower_hex_spec(bytes@),
{
    let mut s = String::new();
    let n = bytes.len();
    for i in 0..n
        invariant
            n == bytes@.len(),
            s@ =~= lower_hex_spec(bytes@.subrange(0, i as int)),
    {
        let b = bytes[i];
        assert(b >> 4 < 16 && b & 15 < 16) by (bit_vector);
        let ghost prev = s@;
        s.append(digit_str(b >> 4));
        s.append(digit_str(b & 15));
        proof {
            let sub = bytes@.subrange(0, i + 1);
            assert(sub.subrange(0, i as int) =~= bytes@.subrange(0, i as int));
            assert(s@ =~= lower_hex_spec(sub));
        }
    }
    proof {
        assert(bytes@.subrange(0, n as int) =~= bytes@);
    }
    s
}


/// The stored form of a password: the lower-case hexadecimal text of the
/// SHA-256 digest of its UTF-8 bytes.
pub open spec fn password_hash_spec(password: Seq<char>) -> Seq<char> {
    lower_hex_spec(sha256_digest(encode_utf8(password)))
}

/// Hashes a password for storage and comparison: SHA-256 over its UTF-8
/// bytes, written as 64 lower-case hexadecimal digits.
pub fn hash_password(password: &str) -> (hashed: String)
    ensures
        hashed@ == password_hash_spec(password@),
        hashed@.len() == 64,
{
    let bytes = password.as_bytes();
    let digest = sha256(bytes);
    lower_hex(digest.as_slice())
}

/// Whether a character is one of the sixteen lower-case hexadecimal digits.
pub open spec fn is_lower_hex_digit(c: char) -> bool {
    ('0' <= c <= '9') || ('a' <= c <= 'f')
}

proof fn lemma_hex_digit(n: u8)
    requires
        n < 16,
    ensures
        is_lower_hex_digit(hex_digit(n)),
        forall|m: u8| m < 16 && #[trigger] hex_digit(m) == hex_digit(n) ==> m == n,
{
}

proof fn lemma_nibbles(b: u8)
    ensures
        b >> 4 < 16,
        b & 15 < 16,
        b == (b >> 4) * 16 + (b & 15),
{
    assert(b >> 4 < 16 && b & 15 < 16 && b == (b >> 4) * 16 + (b & 15)) by (bit_vector);
}

/// Hexadecimal text has two characters per byte, and every character is a
/// lower-case hexadecimal digit.
pub proof fn lemma_lower_hex_shape(bytes: Seq<u8>)
    ensures
        lower_hex_spec(bytes).len() == 2 * bytes.len(),
        forall|i: int|
            0 <= i < lower_hex_spec(bytes).len() ==> is_lower_hex_digit(
                #[trigger] lower_hex_spec(bytes)[i],
            ),
{
    assert forall|i: int| 0 <= i < lower_hex_spec(bytes).len() implies is_lower_hex_digit(
        #[trigger] lower_hex_spec(bytes)[i],
    ) by {
        lemma_nibbles(bytes[i / 2]);
        lemma_hex_digit(bytes[i / 2] >> 4);
        lemma_hex_digit(bytes[i / 2] & 15);
    }
}

/// Hexadecimal encoding loses nothing: different byte sequences give
/// different texts.
pub proof fn lemma_lower_hex_injective(a: Seq<u8>, b: Seq<u8>)
    requires
        lower_hex_spec(a) == lower_hex_spec(b),
    ensures
        a == b,
{
    assert(a.len() == b.len()) by {
        assert(lower_hex_spec(a).len() == 2 * a.len());
        assert(lower_hex_spec(b).len() == 2 * b.len());
    }
    assert forall|k: int| 0 <= k < a.len() implies a[k] == b[k] by {
        let x = a[k];
        let y = b[k];
        lemma_nibbles(x);
        lemma_nibbles(y);
        assert((2 * k) / 2 == k && (2 * k) % 2 == 0);
        assert((2 * k + 1) / 2 == k && (2 * k + 1) % 2 == 1);
        assert(lower_hex_spec(a)[2 * k] == hex_digit(x >> 4));
        assert(lower_hex_spec(b)[2 * k] == hex_digit(y >> 4));
        assert(lower_hex_spec(a)[2 * k + 1] == hex_digit(x & 15));
        assert(lower_hex_spec(b)[2 * k + 1] == hex_digit(y & 15));
        lemma_hex_digit(x >> 4);
        lemma_hex_digit(x & 15);
    }
    assert(a =~= b);
}

/// Two passwords are stored alike exactly when their UTF-8 bytes have the
/// same SHA-256 digest, and a stored hash consists of lower-case hexadecimal
/// digits only, two for each byte of the digest.
pub proof fn lemma_password_hash_match(p: Seq<char>, q: Seq<char>)
    ensures
        password_hash_spec(p).len() == 2 * sha256_digest(encode_utf8(p)).len(),
        forall|i: int|
            0 <= i < password_hash_spec(p).len() ==> is_lower_hex_digit(
                #[trigger] password_hash_spec(p)[i],
            ),
        (password_hash_spec(p) == password_hash_spec(q)) <==> (sha256_digest(encode_utf8(p))
            == sha256_digest(encode_utf8(q))),
{
    lemma_lower_hex_shape(sha256_digest(encode_utf8(p)));
    if password_hash_spec(p) == password_hash_spec(q) {
        lemma_lower_hex_injective(sha256_digest(encode_utf8(p)), sha256_digest(encode_utf8(q)));
    }
}

} // verus!
