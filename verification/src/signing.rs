//! Password hashing and request signing, over the SHA-512 and HMAC of `rust-crypto`.

use crypto::digest::Digest;
use crypto::hmac::Hmac;
use crypto::mac::Mac;
use crypto::sha2::Sha512;
use vstd::prelude::*;
use vstd::utf8::{decode_utf8, encode_utf8, encode_utf8_decode_utf8};

use crate::text::{hex_lower, is_hex_lower, lemma_hex_lower};

verus! {

#[verifier::external_type_specification]
#[verifier::external_body]
pub struct ExSha512(crypto::sha2::Sha512);

#[verifier::external_type_specification]
#[verifier::external_body]
#[verifier::reject_recursive_types(D)]
pub struct ExHmac<D>(crypto::hmac::Hmac<D>);

/// The bytes fed to a SHA-512 state since it was created.
pub uninterp spec fn sha512_fed(d: Sha512) -> Seq<u8>;

/// The SHA-512 digest of a byte string.
pub uninterp spec fn sha512_digest(data: Seq<u8>) -> Seq<u8>;

/// The key an HMAC state was created with.
pub uninterp spec fn hmac_key(h: Hmac<Sha512>) -> Seq<u8>;

/// The message bytes fed to an HMAC state since it was created.
pub uninterp spec fn hmac_fed(h: Hmac<Sha512>) -> Seq<u8>;

/// The block size of SHA-512 in bytes.
pub open spec fn sha512_block_size() -> nat {
    128
}

/// The HMAC key block: the key, or its digest when it is longer than a block,
/// padded with zero bytes to a block.
pub open spec fn hmac_block_key(key: Seq<u8>) -> Seq<u8> {
    let k = if key.len() > sha512_block_size() { sha512_digest(key) } else { key };
    k + Seq::new((sha512_block_size() - k.len()) as nat, |i: int| 0u8)
}

/// Each byte of `k` xor `pad`.
pub open spec fn xor_pad(k: Seq<u8>, pad: u8) -> Seq<u8> {
    k.map_values(|b: u8| b ^ pad)
}

/// HMAC-SHA-512 of `data` under `key`:
/// H((K0 xor opad) ++ H((K0 xor ipad) ++ data)), with ipad 0x36 and opad 0x5c.
pub open spec fn hmac_sha512(key: Seq<u8>, data: Seq<u8>) -> Seq<u8> {
    let k0 = hmac_block_key(key);
    sha512_digest(xor_pad(k0, 0x5c) + sha512_digest(xor_pad(k0, 0x36) + data))
}

/// A fresh SHA-512 state, `Sha512::new`. Trusted: nothing has been fed to it.
#[verifier::external_body]
fn sha512_new() -> (d: Sha512)
    ensures
        sha512_fed(d) == Seq::<u8>::empty(),
{
    Sha512::new()
}

/// `Digest::input_str`: feeds the UTF-8 bytes of `s`.
/// Trusted: the fed bytes grow by exactly those bytes.
#[verifier::external_body]
fn sha512_input_str(d: &mut Sha512, s: &str)
    ensures
        sha512_fed(*final(d)) == sha512_fed(*old(d)) + encode_utf8(s@),
{
    d.input_str(s)
}

/// `Digest::result_str`: the digest of all fed bytes in lowercase hexadecimal.
/// Trusted: `result_str` takes the 64-byte SHA-512 result and hex-encodes it
/// with `rustc_serialize`'s `to_hex`.
#[verifier::external_body]
fn sha512_result_str(d: Sha512) -> (h: String)
    ensures
        h@.len() == 128,
        h@ == hex_lower(sha512_digest(sha512_fed(d))),
{
    let mut d = d;
    d.result_str()
}

/// `Hmac::new` over a SHA-512 state. Trusted: the MAC is keyed with `key` and no
/// message byte is fed yet. `Hmac::new` feeds the state it is given, so the state
/// must be fresh for the result to be the HMAC of `key`.
#[verifier::external_body]
fn hmac_new(d: Sha512, key: &[u8]) -> (h: Hmac<Sha512>)
    requires
        sha512_fed(d) == Seq::<u8>::empty(),
    ensures
        hmac_key(h) == key@,
        hmac_fed(h) == Seq::<u8>::empty(),
{
    Hmac::new(d, key)
}

/// `Mac::input`: feeds message bytes. Trusted: the key stays, the fed bytes grow
/// by `data`. (`input` panics on a finished MAC; the only function here that
/// finishes one, `hmac_code`, consumes it.)
#[verifier::external_body]
fn hmac_input(h: &mut Hmac<Sha512>, data: &[u8])
    ensures
        hmac_key(*final(h)) == hmac_key(*old(h)),
        hmac_fed(*final(h)) == hmac_fed(*old(h)) + data@,
{
    h.input(data)
}

/// `Mac::result` then `MacResult::code`: the 64-byte HMAC-SHA-512 of the fed bytes.
/// Trusted: `Hmac::new` expands the key to the 128-byte block of SHA-512 (hashing
/// it first when longer), feeds key xor 0x36, `input` feeds the message, and the
/// result is the digest of key xor 0x5c followed by the inner digest.
#[verifier::external_body]
fn hmac_code(h: Hmac<Sha512>) -> (code: Vec<u8>)
    ensures
        code@ == hmac_sha512(hmac_key(h), hmac_fed(h)),
        code@.len() == 64,
{
    let mut h = h;
    h.result().code().to_vec()
}

/// The UTF-8 bytes of two texts one after the other are the bytes of the first
/// followed by the bytes of the second.
pub proof fn lemma_encode_utf8_concat(a: Seq<char>, b: Seq<char>)
    ensures
        encode_utf8(a + b) == encode_utf8(a) + encode_utf8(b),
    decreases a.len(),
{
    if a.len() > 0 {
        lemma_encode_utf8_concat(a.drop_first(), b);
        assert((a + b).drop_first() =~= a.drop_first() + b);
        assert((a + b)[0] == a[0]);
        assert(encode_utf8(a + b) == vstd::utf8::encode_scalar(a[0] as u32) + encode_utf8(a.drop_first() + b));
        assert(encode_utf8(a) == vstd::utf8::encode_scalar(a[0] as u32) + encode_utf8(a.drop_first()));
        assert(encode_utf8(a + b) =~= encode_utf8(a) + encode_utf8(b));
    } else {
        assert(a + b =~= b);
        assert(encode_utf8(a) =~= Seq::<u8>::empty());
        assert(encode_utf8(a) + encode_utf8(b) =~= encode_utf8(b));
    }
}

/// The stored form of a password: the lowercase hexadecimal SHA-512 of its UTF-8 bytes.
pub open spec fn password_hash(raw: Seq<char>) -> Seq<char> {
    hex_lower(sha512_digest(encode_utf8(raw)))
}

/// Hashes a password as it is stored in the configuration file.
pub fn hash_passwd(raw_passwd: &String) -> (h: String)
    ensures
        h@ == password_hash(raw_passwd@),
        h@ == hex_lower(sha512_digest(encode_utf8(raw_passwd@))),
        decode_utf8(encode_utf8(raw_passwd@)) == raw_passwd@,
        h@.len() == 128,
        forall|i: int| 0 <= i < h@.len() ==> is_hex_lower(#[trigger] h@[i]),
{
    let mut sha = sha512_new();
    sha512_input_str(&mut sha, raw_passwd.as_str());
    proof {
        assert(Seq::<u8>::empty() + encode_utf8(raw_passwd@) =~= encode_utf8(raw_passwd@));
    }
    let h = sha512_result_str(sha);
    proof {
        lemma_hex_lower(sha512_digest(encode_utf8(raw_passwd@)));
        encode_utf8_decode_utf8(raw_passwd@);
    }
    h
}

/// The bytes that a request signature covers: the login, then the request data if any.
pub open spec fn signed_bytes(login: Seq<char>, data: Option<Seq<char>>) -> Seq<u8> {
    match data {
        Some(d) => encode_utf8(login) + encode_utf8(d),
        None => encode_utf8(login),
    }
}

/// The signature of a request: lowercase hexadecimal HMAC-SHA-512, keyed with the
/// (hashed) password, of the login followed by the request data.
pub open spec fn blih_signature(passwd: Seq<char>, login: Seq<char>, data: Option<Seq<char>>) -> Seq<char> {
    hex_lower(hmac_sha512(encode_utf8(passwd), signed_bytes(login, data)))
}

/// Signs a request for the repository service.
pub fn do_hamxc_login_passwd(passwd: &String, login: &String, data: Option<String>) -> (sig: String)
    ensures
        sig@ == blih_signature(passwd@, login@, match data {
            Some(d) => Some(d@),
            None => None,
        }),
        data is None ==> sig@ == hex_lower(hmac_sha512(encode_utf8(passwd@), encode_utf8(login@))),
        data matches Some(d) ==> sig@ == hex_lower(hmac_sha512(encode_utf8(passwd@), encode_utf8(login@ + d@))),
        sig@.len() == 128,
        forall|i: int| 0 <= i < sig@.len() ==> is_hex_lower(#[trigger] sig@[i]),
{
    proof {
        if data is Some {
            lemma_encode_utf8_concat(login@, data->0@);
        }
    }
    let mut hmac = hmac_new(sha512_new(), passwd.as_str().as_bytes());
    hmac_input(&mut hmac, login.as_str().as_bytes());
    proof {
        assert(Seq::<u8>::empty() + encode_utf8(login@) =~= encode_utf8(login@));
    }
    if let Some(data) = data {
        hmac_input(&mut hmac, data.as_str().as_bytes());
    }
    let code = hmac_code(hmac);
    proof {
        lemma_hex_lower(code@);
    }
    crate::text::bytes_to_hex(code.as_slice())
}


/// The hashed input of a stored password is the UTF-8 text of the whole password:
/// the stored form is the hex SHA-512 of bytes that decode back to exactly the
/// password, so passwords that differ anywhere are hashed from different bytes.
pub proof fn lemma_password_hash_covers_whole(raw: Seq<char>, other: Seq<char>)
    ensures
        password_hash(raw) == hex_lower(sha512_digest(encode_utf8(raw))),
        decode_utf8(encode_utf8(raw)) == raw,
        raw != other ==> encode_utf8(raw) != encode_utf8(other),
{
    encode_utf8_decode_utf8(raw);
    encode_utf8_decode_utf8(other);
}

/// A signature covers the whole login followed by the whole data: it is the hex
/// HMAC-SHA-512, under the password's UTF-8 bytes, of the UTF-8 bytes of the
/// login and data written one after the other; and the covered bytes decode back
/// to exactly that text.
pub proof fn lemma_signature_covers_login_and_data(passwd: Seq<char>, login: Seq<char>, data: Seq<char>)
    ensures
        blih_signature(passwd, login, None) == hex_lower(hmac_sha512(encode_utf8(passwd), encode_utf8(login))),
        blih_signature(passwd, login, Some(data)) == hex_lower(
            hmac_sha512(encode_utf8(passwd), encode_utf8(login + data)),
        ),
        decode_utf8(signed_bytes(login, Some(data))) == login + data,
        decode_utf8(signed_bytes(login, None)) == login,
{
    lemma_encode_utf8_concat(login, data);
    encode_utf8_decode_utf8(login + data);
    encode_utf8_decode_utf8(login);
}

} // verus!
