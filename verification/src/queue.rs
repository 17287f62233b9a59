//! Texts that are handed over as bytes: text in base64, the digest of a
//! text in hexadecimal digits, the name of a file in the queue of files to
//! send, and the short key that stands for a token.

use vstd::prelude::*;
use vstd::utf8::{decode_utf8, valid_utf8};
use base64::Engine;
use md5::Digest;
use crate::diff::opt_bytes;
use crate::format::bytes_of;
use crate::text::{append_str, chars_of, string_of};

verus! {

/// The bytes that a text in base64, with the standard alphabet and
/// padding, stands for; nothing where the text is no such base64.
pub uninterp spec fn base64_of(encoded: Seq<char>) -> Option<Seq<u8>>;

/// Decodes base64.
///
/// Trusted: this is `base64::Engine::decode` of the engine
/// `base64::engine::general_purpose::STANDARD`, with its error dropped. The
/// contract only names the result, which depends on nothing but the text.
#[verifier::external_body]
fn decode_base64(encoded: &str) -> (r: Option<Vec<u8>>)
    ensures
        opt_bytes(r) == base64_of(encoded@),
{
    base64::engine::general_purpose::STANDARD.decode(encoded).ok()
}

/// The text that `bytes` are in UTF-8.
///
/// Trusted: this is `String::from_utf8` of the standard library, with its
/// error dropped: it gives the text just where the bytes are UTF-8.
#[verifier::external_body]
fn utf8_text(bytes: Vec<u8>) -> (r: Option<String>)
    ensures
        r is Some <==> valid_utf8(bytes@),
        r matches Some(text) ==> text@ == decode_utf8(bytes@),
{
    String::from_utf8(bytes).ok()
}

/// The text that the decoded bytes `decoded` are: nothing where nothing was
/// decoded, or where the bytes are no UTF-8.
pub open spec fn text_of(decoded: Option<Seq<u8>>) -> Option<Seq<char>> {
    match decoded {
        Some(bytes) => if valid_utf8(bytes) {
            Some(decode_utf8(bytes))
        } else {
            None
        },
        None => None,
    }
}

/// The text that the decoded bytes `decoded` are.
pub fn decoded_text(decoded: Option<Vec<u8>>) -> (r: Option<String>)
    ensures
        r is Some <==> text_of(opt_bytes(decoded)) is Some,
        r matches Some(text) ==> text_of(opt_bytes(decoded)) == Some(text@),
{
    match decoded {
        Some(bytes) => utf8_text(bytes),
        None => None,
    }
}

/// The text that `encoded` holds in base64: nothing where it is no base64
/// or holds no text.
pub fn handle_base64(encoded: &str) -> (r: Option<String>)
    ensures
        r is Some <==> text_of(base64_of(encoded@)) is Some,
        r matches Some(text) ==> text_of(base64_of(encoded@)) == Some(text@),
{
    decoded_text(decode_base64(encoded))
}

/// The hexadecimal digit of a number below 16, in lower case.
pub open spec fn hex_digit(n: nat) -> char {
    if n == 0 {
        '0'
    } else if n == 1 {
        '1'
    } else if n == 2 {
        '2'
    } else if n == 3 {
        '3'
    } else if n == 4 {
        '4'
    } else if n == 5 {
        '5'
    } else if n == 6 {
        '6'
    } else if n == 7 {
        '7'
    } else if n == 8 {
        '8'
    } else if n == 9 {
        '9'
    } else if n == 10 {
        'a'
    } else if n == 11 {
        'b'
    } else if n == 12 {
        'c'
    } else if n == 13 {
        'd'
    } else if n == 14 {
        'e'
    } else {
        'f'
    }
}

/// `bytes` in hexadecimal digits, two for each byte.
pub open spec fn hex_of(bytes: Seq<u8>) -> Seq<char>
    decreases bytes.len(),
{
    if bytes.len() == 0 {
        Seq::empty()
    } else {
        hex_of(bytes.drop_last()).push(hex_digit((bytes.last() / 16) as nat)).push(
            hex_digit((bytes.last() % 16) as nat),
        )
    }
}

fn digit_of(n: u8) -> (c: char)
    requires
        n < 16,
    ensures
        c == hex_digit(n as nat),
{
    if n == 0 {
        '0'
    } else if n == 1 {
        '1'
    } else if n == 2 {
        '2'
    } else if n == 3 {
        '3'
    } else if n == 4 {
        '4'
    } else if n == 5 {
        '5'
    } else if n == 6 {
        '6'
    } else if n == 7 {
        '7'
    } else if n == 8 {
        '8'
    } else if n == 9 {
        '9'
    } else if n == 10 {
        'a'
    } else if n == 11 {
        'b'
    } else if n == 12 {
        'c'
    } else if n == 13 {
        'd'
    } else if n == 14 {
        'e'
    } else {
        'f'
    }
}

/// Writes `bytes` in hexadecimal digits, in lower case, two for each byte.
pub fn hex_lower(bytes: &[u8]) -> (out: String)
    ensures
        out@ == hex_of(bytes@),
        out@.len() == 2 * bytes@.len(),
{
    let mut out: Vec<char> = Vec::new();
    let mut i: usize = 0;
    assert(bytes@.subrange(0, 0) =~= Seq::<u8>::empty());
    while i < bytes.len()
        invariant
            i <= bytes@.len(),
            out@ == hex_of(bytes@.subrange(0, i as int)),
            out@.len() == 2 * i,
        decreases bytes@.len() - i,
    {
        assert(bytes@.subrange(0, i + 1).drop_last() =~= bytes@.subrange(0, i as int));
        assert(bytes@.subrange(0, i + 1).last() == bytes@[i as int]);
        out.push(digit_of(bytes[i] / 16));
        out.push(digit_of(bytes[i] % 16));
        i += 1;
    }
    assert(bytes@.subrange(0, bytes@.len() as int) =~= bytes@);
    string_of(&out)
}

/// The MD5 digest of `bytes`.
pub uninterp spec fn md5_of(bytes: Seq<u8>) -> Seq<u8>;

/// Computes the MD5 digest of `bytes`.
///
/// Trusted: this is `Digest::digest` of `md5::Md5`, whose output is copied
/// into a vector. The contract names the result, which depends on nothing
/// but the bytes, and says that it has the 16 bytes of an MD5 digest.
#[verifier::external_body]
fn md5_digest(bytes: &[u8]) -> (r: Vec<u8>)
    ensures
        r@ == md5_of(bytes@),
        r@.len() == 16,
{
    md5::Md5::digest(bytes).to_vec()
}

/// The name of the queue file for the file at `path`, made at the time
/// that `timestamp` and `millis` give: the time, the MD5 digest of the path
/// in hexadecimal digits, and the ending `.queue`.
pub open spec fn queue_name(timestamp: Seq<char>, millis: Seq<char>, path: Seq<char>) -> Seq<char> {
    timestamp + "-"@ + millis + "."@ + hex_of(md5_of(bytes_of(path))) + ".queue"@
}

/// The name of a queue file with the digest `digest` of the path.
pub fn queue_name_with(timestamp: &str, millis: &str, digest: &[u8]) -> (name: String)
    ensures
        name@ == timestamp@ + "-"@ + millis@ + "."@ + hex_of(digest@) + ".queue"@,
{
    let mut out = chars_of(timestamp);
    append_str(&mut out, "-");
    append_str(&mut out, millis);
    append_str(&mut out, ".");
    append_str(&mut out, hex_lower(digest).as_str());
    append_str(&mut out, ".queue");
    string_of(&out)
}

/// The name of the queue file for the file at `path`, made at the time
/// that `timestamp` and `millis` give.
pub fn queue_file_name(timestamp: &str, millis: &str, path: &str) -> (name: String)
    ensures
        name@ == queue_name(timestamp@, millis@, path@),
{
    let digest = md5_digest(path.as_bytes());
    queue_name_with(timestamp, millis, digest.as_slice())
}

/// The SHA-256 digest of `bytes`.
pub uninterp spec fn sha256_of(bytes: Seq<u8>) -> Seq<u8>;

/// Computes the SHA-256 digest of `bytes`.
///
/// Trusted: this is `Digest::digest` of `sha2::Sha256`, whose output is
/// copied into a vector. The contract names the result, which depends on
/// nothing but the bytes, and says that it has the 32 bytes of such a
/// digest.
#[verifier::external_body]
fn sha256_digest(bytes: &[u8]) -> (r: Vec<u8>)
    ensures
        r@ == sha256_of(bytes@),
        r@.len() == 32,
{
    sha2::Sha256::digest(bytes).to_vec()
}

/// The key that stands for the token `token`: the first 8 bytes of its
/// SHA-256 digest in hexadecimal digits.
pub open spec fn token_key(token: Seq<char>) -> Seq<char> {
    hex_of(sha256_of(bytes_of(token)).subrange(0, 8))
}

/// The key cut from the digest `digest` of a token, which has at least 8 bytes.
pub fn key_of_digest(digest: &[u8]) -> (key: String)
    requires
        digest@.len() >= 8,
    ensures
        key@ == hex_of(digest@.subrange(0, 8)),
{
    let mut head: Vec<u8> = Vec::new();
    let mut i: usize = 0;
    while i < 8
        invariant
            i <= 8 <= digest@.len(),
            head@ == digest@.subrange(0, i as int),
        decreases 8 - i,
    {
        head.push(digest[i]);
        assert(head@ =~= digest@.subrange(0, i + 1));
        i += 1;
    }
    hex_lower(head.as_slice())
}

/// The short key that stands for a token where the token itself must not
/// be written down: 16 hexadecimal digits.
pub fn token_hash(token: &str) -> (key: String)
    ensures
        key@ == token_key(token@),
{
    let digest = sha256_digest(token.as_bytes());
    key_of_digest(digest.as_slice())
}

} // verus!
