//! The credential hasher: a nonce-salted SHA-1 digest of the password,
//! rendered as lowercase hexadecimal text.
//!
//! The digest itself comes from the `sha1` crate; everything around it — the
//! concatenation of password and nonce and the hexadecimal rendering — is
//! verified here.

use vstd::prelude::*;
use vstd::string::StringExecFns;
use vstd::string::StringSliceAdditionalSpecFns;
use vstd::utf8::encode_utf8;

verus! {

/// The 20-byte SHA-1 digest of a byte sequence.
pub uninterp spec fn sha1_of(data: Seq<u8>) -> Seq<u8>;

/// Relies on the `sha1` crate (RustCrypto): `Digest::digest` returns the
/// 20-byte SHA-1 digest of its input, a function of the input bytes alone.
#[verifier::external_body]
fn sha1_digest(data: &[u8]) -> (r: Vec<u8>)
    ensures
        r@ == sha1_of(data@),
        r@.len() == 20,
{
    let out = <sha1::Sha1 as sha1::Digest>::digest(data);
    out.as_slice().to_vec()
}

/// The lowercase hexadecimal digit for a value below sixteen.
pub open spec fn hex_digit(n: u8) -> char {
    if n == 0 {
        '0'
    } else if n == 1 {
        '1'
    } else if n == 2 {
        '2'
    } else if n == 3 {
        '3'
    } else if n == 4 {
        '4'
    } else if n == 5 {
        '5'
    } else if n == 6 {
        '6'
    } else if n == 7 {
        '7'
    } else if n == 8 {
        '8'
    } else if n == 9 {
        '9'
    } else if n == 10 {
        'a'
    } else if n == 11 {
        'b'
    } else if n == 12 {
        'c'
    } else if n == 13 {
        'd'
    } else if n == 14 {
        'e'
    } else {
        'f'
    }
}

/// The lowercase hexadecimal rendering of a byte sequence, two digits per
/// byte, high nibble first.
pub open spec fn hex_chars(bytes: Seq<u8>) -> Seq<char>
    decreases bytes.len(),
{
    if bytes.len() == 0 {
        Seq::empty()
    } else {
        seq![hex_digit(bytes[0] / 16), hex_digit(bytes[0] % 16)] + hex_chars(bytes.drop_first())
    }
}

proof fn lemma_hex_chars_push(bytes: Seq<u8>, b: u8)
    ensures
        hex_chars(bytes.push(b)) =~= hex_chars(bytes) + seq![hex_digit(b / 16), hex_digit(b % 16)],
    decreases bytes.len(),
{
    if bytes.len() == 0 {
        assert(bytes.push(b).drop_first() =~= Seq::<u8>::empty());
        assert(bytes =~= Seq::<u8>::empty());
    } else {
        assert(bytes.push(b).drop_first() =~= bytes.drop_first().push(b));
        lemma_hex_chars_push(bytes.drop_first(), b);
    }
}

/// The two-character string holding the hexadecimal rendering of one byte.
fn hex_byte_str(b: u8) -> (r: String)
    ensures
        r@ =~= seq![hex_digit(b / 16), hex_digit(b % 16)],
{
    let mut out = String::new();
    out.append(hex_nibble_str(b / 16));
    out.append(hex_nibble_str(b % 16));
    out
}

/// The one-character string holding a hexadecimal digit.
fn hex_nibble_str(n: u8) -> (r: &'static str)
    requires
        n < 16,
    ensures
        r@ =~= seq![hex_digit(n)],
{
    proof {
        reveal_strlit("0");
        reveal_strlit("1");
        reveal_strlit("2");
        reveal_strlit("3");
        reveal_strlit("4");
        reveal_strlit("5");
        reveal_strlit("6");
        reveal_strlit("7");
        reveal_strlit("8");
        reveal_strlit("9");
        reveal_strlit("a");
        reveal_strlit("b");
        reveal_strlit("c");
        reveal_strlit("d");
        reveal_strlit("e");
        reveal_strlit("f");
    }
    if n == 0 {
        "0"
    } else if n == 1 {
        "1"
    } else if n == 2 {
        "2"
    } else if n == 3 {
        "3"
    } else if n == 4 {
        "4"
    } else if n == 5 {
        "5"
    } else if n == 6 {
        "6"
    } else if n == 7 {
        "7"
    } else if n == 8 {
        "8"
    } else if n == 9 {
        "9"
    } else if n == 10 {
        "a"
    } else if n == 11 {
        "b"
    } else if n == 12 {
        "c"
    } else if n == 13 {
        "d"
    } else if n == 14 {
        "e"
    } else {
        "f"
    }
}

/// The lowercase hexadecimal rendering of the given bytes.
pub fn hex_encode(bytes: &[u8]) -> (r: String)
    ensures
        r@ == hex_chars(bytes@),
{
    let mut out = String::new();
    let mut i: usize = 0;
    proof {
        assert(bytes@.take(0) =~= Seq::<u8>::empty());
    }
    while i < bytes.len()
        invariant
            0 <= i <= bytes@.len(),
            out@ == hex_chars(bytes@.take(i as int)),
        decreases bytes@.len() - i,
    {
        let b = bytes[i];
        let pair = hex_byte_str(b);
        out.append(pair.as_str());
        proof {
            lemma_hex_chars_push(bytes@.take(i as int), b);
            assert(bytes@.take(i as int).push(b) =~= bytes@.take(i as int + 1));
        }
        i = i + 1;
    }
    proof {
        assert(bytes@.take(bytes@.len() as int) =~= bytes@);
    }
    out
}

/// The credential token derived from a password and a server nonce: the
/// SHA-1 digest of the password followed by the nonce, in UTF-8 bytes,
/// rendered as forty hexadecimal characters.
pub open spec fn credential_hash(password: Seq<char>, nonce: Seq<char>) -> Seq<char> {
    hex_chars(sha1_of(encode_utf8(password) + encode_utf8(nonce)))
}

/// Derive the password-equivalent token transmitted in a SHA1-type login:
/// the hexadecimal SHA-1 digest of the password concatenated with the nonce.
pub fn sha1_password_hash(password: &str, nonce: &str) -> (r: String)
    ensures
        r@ == credential_hash(password@, nonce@),
{
    let mut data: Vec<u8> = Vec::new();
    append_bytes(&mut data, password.as_bytes());
    append_bytes(&mut data, nonce.as_bytes());
    proof {
        assert(data@ =~= encode_utf8(password@) + encode_utf8(nonce@));
    }
    let digest = sha1_digest(data.as_slice());
    hex_encode(digest.as_slice())
}

/// Law: the credential hash is deterministic — equal password and nonce
/// contents always derive the equal token.
pub proof fn lemma_credential_hash_deterministic(
    password1: Seq<char>,
    nonce1: Seq<char>,
    password2: Seq<char>,
    nonce2: Seq<char>,
)
    requires
        password1 == password2,
        nonce1 == nonce2,
    ensures
        credential_hash(password1, nonce1) == credential_hash(password2, nonce2),
{
}

fn append_bytes(dst: &mut Vec<u8>, src: &[u8])
    ensures
        final(dst)@ == old(dst)@ + src@,
{
    let mut i: usize = 0;
    proof {
        assert(old(dst)@ + src@.take(0) =~= old(dst)@);
    }
    while i < src.len()
        invariant
            0 <= i <= src@.len(),
            dst@ == old(dst)@ + src@.take(i as int),
        decreases src@.len() - i,
    {
        dst.push(src[i]);
        proof {
            assert(old(dst)@ + src@.take(i as int + 1) =~= (old(dst)@ + src@.take(i as int)).push(
                src@[i as int],
            ));
        }
        i = i + 1;
    }
    proof {
        assert(old(dst)@ + src@.take(src@.len() as int) =~= old(dst)@ + src@);
    }
}

} // verus!
