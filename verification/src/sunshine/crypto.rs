//! Hashing, block encryption and certificates for the pairing protocol.
use aes::cipher::generic_array::GenericArray;
use aes::cipher::{BlockDecrypt, BlockEncrypt, KeyInit};
use aes::Aes128;
use rand::{Rng, RngCore};
use sha2::{Digest, Sha256};
use vstd::prelude::*;
use vstd::slice::slice_subrange;
use vstd::utf8::*;

verus! {

/// The SHA-256 digest of a byte string.
pub uninterp spec fn sha256(data: Seq<u8>) -> Seq<u8>;

/// Calls `sha2::Sha256::digest`: the digest depends on the bytes alone and has 32 bytes.
#[verifier::external_body]
pub(crate) fn sha256_digest(data: &[u8]) -> (r: Vec<u8>)
    ensures
        r@ == sha256(data@),
        r@.len() == 32,
{
    Sha256::digest(data).to_vec()
}

/// One block of 16 bytes, encrypted under an AES-128 key.
pub uninterp spec fn aes128_encrypt_block(key: Seq<u8>, block: Seq<u8>) -> Seq<u8>;

/// One block of 16 bytes, decrypted under an AES-128 key.
pub uninterp spec fn aes128_decrypt_block(key: Seq<u8>, block: Seq<u8>) -> Seq<u8>;

/// Calls `encrypt_block` of `aes::Aes128`: the result depends on key and block alone, has the
/// length of a block, and decrypts to the block.
#[verifier::external_body]
fn encrypt_block(key: &[u8; 16], block: &[u8]) -> (r: Vec<u8>)
    requires
        block@.len() == 16,
    ensures
        r@ == aes128_encrypt_block(key@, block@),
        r@.len() == 16,
        aes128_decrypt_block(key@, r@) == block@,
{
    let cipher = Aes128::new(GenericArray::from_slice(key));
    let mut out = GenericArray::clone_from_slice(block);
    cipher.encrypt_block(&mut out);
    out.to_vec()
}

/// Calls `decrypt_block` of `aes::Aes128`: the result depends on key and block alone, has the
/// length of a block, and encrypts to the block.
#[verifier::external_body]
fn decrypt_block(key: &[u8; 16], block: &[u8]) -> (r: Vec<u8>)
    requires
        block@.len() == 16,
    ensures
        r@ == aes128_decrypt_block(key@, block@),
        r@.len() == 16,
        aes128_encrypt_block(key@, r@) == block@,
{
    let cipher = Aes128::new(GenericArray::from_slice(key));
    let mut out = GenericArray::clone_from_slice(block);
    cipher.decrypt_block(&mut out);
    out.to_vec()
}

/// Whole blocks, each encrypted on its own.
pub open spec fn ecb_encrypt(key: Seq<u8>, data: Seq<u8>) -> Seq<u8>
    decreases data.len(),
{
    if data.len() < 16 {
        Seq::empty()
    } else {
        aes128_encrypt_block(key, data.take(16)) + ecb_encrypt(key, data.skip(16))
    }
}

/// Whole blocks, each decrypted on its own.
pub open spec fn ecb_decrypt(key: Seq<u8>, data: Seq<u8>) -> Seq<u8>
    decreases data.len(),
{
    if data.len() < 16 {
        Seq::empty()
    } else {
        aes128_decrypt_block(key, data.take(16)) + ecb_decrypt(key, data.skip(16))
    }
}

/// Whether a byte string is one or more whole blocks.
pub open spec fn is_whole_blocks(data: Seq<u8>) -> bool {
    data.len() > 0 && data.len() % 16 == 0
}

/// Decrypts whole blocks with AES-128 in ECB mode, without padding. What comes out encrypts to
/// what went in.
pub fn aes128_ecb_decrypt_no_padding(key: &[u8; 16], ciphertext: &[u8]) -> (r: Result<
    Vec<u8>,
    (),
>)
    ensures
        r is Ok <==> is_whole_blocks(ciphertext@),
        match r {
            Ok(v) => v@ == ecb_decrypt(key@, ciphertext@) && v@.len() == ciphertext@.len()
                && ecb_encrypt(key@, v@) == ciphertext@,
            Err(_) => true,
        },
{
    if ciphertext.len() == 0 || ciphertext.len() % 16 != 0 {
        return Err(());
    }
    let mut out: Vec<u8> = Vec::new();
    let mut end: usize = 0;
    proof {
        assert(ciphertext@.take(0) == Seq::<u8>::empty());
    }
    while end < ciphertext.len()
        invariant
            end <= ciphertext.len(),
            end % 16 == 0,
            ciphertext.len() % 16 == 0,
            out@.len() == end,
            out@ == ecb_decrypt(key@, ciphertext@.take(end as int)),
            ecb_encrypt(key@, out@) == ciphertext@.take(end as int),
        decreases ciphertext.len() - end,
    {
        let block = slice_subrange(ciphertext, end, end + 16);
        let mut plain = decrypt_block(key, block);
        let ghost before = out@;
        let ghost head = ciphertext@.take(end as int);
        let ghost added = plain@;
        out.append(&mut plain);
        end = end + 16;
        proof {
            assert(ciphertext@.take(end as int) == head + block@);
            lemma_ecb_append(key@, head, block@);
            lemma_ecb_append(key@, before, added);
        }
    }
    assert(ciphertext@.take(end as int) == ciphertext@);
    Ok(out)
}

/// Encrypts whole blocks with AES-128 in ECB mode, without padding. What comes out decrypts to
/// what went in.
pub fn aes128_ecb_encrypt_no_padding(key: &[u8; 16], plaintext: &[u8]) -> (r: Result<Vec<u8>, ()>)
    ensures
        r is Ok <==> is_whole_blocks(plaintext@),
        match r {
            Ok(v) => v@ == ecb_encrypt(key@, plaintext@) && v@.len() == plaintext@.len()
                && ecb_decrypt(key@, v@) == plaintext@,
            Err(_) => true,
        },
{
    if plaintext.len() == 0 || plaintext.len() % 16 != 0 {
        return Err(());
    }
    let mut out: Vec<u8> = Vec::new();
    let mut end: usize = 0;
    proof {
        assert(plaintext@.take(0) == Seq::<u8>::empty());
    }
    while end < plaintext.len()
        invariant
            end <= plaintext.len(),
            end % 16 == 0,
            plaintext.len() % 16 == 0,
            out@.len() == end,
            out@ == ecb_encrypt(key@, plaintext@.take(end as int)),
            ecb_decrypt(key@, out@) == plaintext@.take(end as int),
        decreases plaintext.len() - end,
    {
        let block = slice_subrange(plaintext, end, end + 16);
        let mut coded = encrypt_block(key, block);
        let ghost before = out@;
        let ghost head = plaintext@.take(end as int);
        let ghost added = coded@;
        out.append(&mut coded);
        end = end + 16;
        proof {
            assert(plaintext@.take(end as int) == head + block@);
            lemma_ecb_append(key@, head, block@);
            lemma_ecb_append(key@, before, added);
        }
    }
    assert(plaintext@.take(end as int) == plaintext@);
    Ok(out)
}

proof fn lemma_ecb_append(key: Seq<u8>, head: Seq<u8>, block: Seq<u8>)
    requires
        head.len() % 16 == 0,
        block.len() == 16,
    ensures
        ecb_encrypt(key, head + block) == ecb_encrypt(key, head) + aes128_encrypt_block(key, block),
        ecb_decrypt(key, head + block) == ecb_decrypt(key, head) + aes128_decrypt_block(key, block),
    decreases head.len(),
{
    let all = head + block;
    if head.len() == 0 {
        assert(all.take(16) == block);
        assert(all.skip(16) == Seq::<u8>::empty());
        assert(ecb_encrypt(key, all.skip(16)) == Seq::<u8>::empty());
        assert(ecb_decrypt(key, all.skip(16)) == Seq::<u8>::empty());
        assert(ecb_encrypt(key, all) == aes128_encrypt_block(key, block));
        assert(ecb_decrypt(key, all) == aes128_decrypt_block(key, block));
    } else {
        lemma_ecb_append(key, head.skip(16), block);
        assert(all.take(16) == head.take(16));
        assert(all.skip(16) == head.skip(16) + block);
    }
}

/// The key that a salt and a PIN give: the first half of the digest of both.
pub open spec fn pin_key(salt: Seq<u8>, pin: Seq<char>) -> Seq<u8> {
    sha256(salt + encode_utf8(pin)).take(16)
}

/// Derives the pairing key from a salt and a PIN.
pub fn derive_pin_key(salt: &[u8], pin: &str) -> (r: [u8; 16])
    ensures
        r@ == pin_key(salt@, pin@),
{
    let mut input: Vec<u8> = Vec::new();
    input.extend_from_slice(salt);
    input.extend_from_slice(pin.as_bytes());
    assert(input@ == salt@ + encode_utf8(pin@));
    let digest = sha256_digest(input.as_slice());
    let mut key: [u8; 16] = [0u8;16];
    let mut i: usize = 0;
    while i < 16
        invariant
            i <= 16,
            digest@.len() == 32,
            forall|j: int| 0 <= j < i ==> key@[j] == digest@[j],
        decreases 16 - i,
    {
        key[i] = digest[i];
        i = i + 1;
    }
    assert(key@ == digest@.take(16));
    key
}

/// The signature bytes of a certificate in DER form, if it parses.
pub uninterp spec fn x509_signature(der: Seq<u8>) -> Option<Seq<u8>>;

/// Calls `x509_parser::prelude::parse_x509_certificate` and takes the bytes of the signature
/// value; fails where the parser does. The result depends on the bytes alone.
#[verifier::external_body]
pub(crate) fn cert_signature(der: &[u8]) -> (r: Result<Vec<u8>, ()>)
    ensures
        match r {
            Ok(v) => x509_signature(der@) == Some(v@),
            Err(_) => x509_signature(der@) is None,
        },
{
    match x509_parser::prelude::parse_x509_certificate(der) {
        Ok((_, cert)) => Ok(cert.signature_value.data.to_vec()),
        Err(_) => Err(()),
    }
}

/// The contents of the first PEM block of a text, if there is one that parses.
pub uninterp spec fn x509_pem_contents(text: Seq<u8>) -> Option<Seq<u8>>;

/// Calls `x509_parser::pem::parse_x509_pem` and takes the block's contents; fails where the
/// parser does. The result depends on the bytes alone.
#[verifier::external_body]
fn pem_contents(text: &[u8]) -> (r: Result<Vec<u8>, ()>)
    ensures
        match r {
            Ok(v) => x509_pem_contents(text@) == Some(v@),
            Err(_) => x509_pem_contents(text@) is None,
        },
{
    match x509_parser::pem::parse_x509_pem(text) {
        Ok((_, pem)) => Ok(pem.contents),
        Err(_) => Err(()),
    }
}

/// The signature bytes of a certificate in PEM form.
pub open spec fn pem_signature(pem: Seq<char>) -> Option<Seq<u8>> {
    match x509_pem_contents(encode_utf8(pem)) {
        Some(der) => x509_signature(der),
        None => None,
    }
}

/// Takes the signature bytes out of a certificate in PEM form.
pub fn cert_signature_from_pem(pem: &str) -> (r: Result<Vec<u8>, ()>)
    ensures
        match r {
            Ok(v) => pem_signature(pem@) == Some(v@),
            Err(_) => pem_signature(pem@) is None,
        },
{
    match pem_contents(pem.as_bytes()) {
        Ok(der) => cert_signature(der.as_slice()),
        Err(_) => Err(()),
    }
}

/// Calls `fill_bytes` of `rand::rng()`: as many bytes as were asked for, of any value.
#[verifier::external_body]
pub(crate) fn random_bytes(len: usize) -> (r: Vec<u8>)
    ensures
        r@.len() == len,
{
    let mut bytes = vec![0u8; len];
    rand::rng().fill_bytes(&mut bytes);
    bytes
}

/// Calls `random` of `rand::rng()` for a 32-bit number: any value.
#[verifier::external_body]
pub(crate) fn random_u32() -> (r: u32) {
    rand::rng().random()
}

/// Calls `random` of `rand::rng()` for a 16-bit number: any value.
#[verifier::external_body]
pub(crate) fn random_u16() -> (r: u16) {
    rand::rng().random()
}

/// A key is the first half of the digest of the salt followed by the PIN's digits.
pub proof fn a_key_is_half_a_digest(salt: Seq<u8>, pin: Seq<char>)
    ensures
        pin_key(salt, pin) == sha256(salt + encode_utf8(pin)).subrange(0, 16)
            || sha256(salt + encode_utf8(pin)).len() < 16,
{
    let d = sha256(salt + encode_utf8(pin));
    if d.len() >= 16 {
        assert(d.take(16) =~= d.subrange(0, 16));
    }
}

/// Every block is encrypted on its own, whatever stands around it: equal blocks give equal blocks.
pub proof fn blocks_are_independent(key: Seq<u8>, data: Seq<u8>, n: int)
    requires
        data.len() % 16 == 0,
        0 <= n,
        16 * n + 16 <= data.len(),
        forall|b: Seq<u8>| b.len() == 16 ==> #[trigger] aes128_encrypt_block(key, b).len() == 16,
        forall|b: Seq<u8>| b.len() == 16 ==> #[trigger] aes128_decrypt_block(key, b).len() == 16,
    ensures
        ecb_encrypt(key, data).len() == data.len(),
        ecb_decrypt(key, data).len() == data.len(),
        ecb_encrypt(key, data).subrange(16 * n, 16 * n + 16) == aes128_encrypt_block(
            key,
            data.subrange(16 * n, 16 * n + 16),
        ),
        ecb_decrypt(key, data).subrange(16 * n, 16 * n + 16) == aes128_decrypt_block(
            key,
            data.subrange(16 * n, 16 * n + 16),
        ),
    decreases data.len(),
{
    lemma_ecb_len(key, data);
    let rest = data.skip(16);
    lemma_ecb_len(key, rest);
    if n == 0 {
        assert(data.subrange(0, 16) =~= data.take(16));
        assert(ecb_encrypt(key, data).subrange(0, 16) =~= aes128_encrypt_block(key, data.take(16)));
        assert(ecb_decrypt(key, data).subrange(0, 16) =~= aes128_decrypt_block(key, data.take(16)));
    } else {
        blocks_are_independent(key, rest, n - 1);
        assert(rest.subrange(16 * (n - 1), 16 * (n - 1) + 16) =~= data.subrange(
            16 * n,
            16 * n + 16,
        ));
        assert(ecb_encrypt(key, data).subrange(16 * n, 16 * n + 16) =~= ecb_encrypt(
            key,
            rest,
        ).subrange(16 * (n - 1), 16 * (n - 1) + 16));
        assert(ecb_decrypt(key, data).subrange(16 * n, 16 * n + 16) =~= ecb_decrypt(
            key,
            rest,
        ).subrange(16 * (n - 1), 16 * (n - 1) + 16));
    }
}

proof fn lemma_ecb_len(key: Seq<u8>, data: Seq<u8>)
    requires
        data.len() % 16 == 0,
        forall|b: Seq<u8>| b.len() == 16 ==> #[trigger] aes128_encrypt_block(key, b).len() == 16,
        forall|b: Seq<u8>| b.len() == 16 ==> #[trigger] aes128_decrypt_block(key, b).len() == 16,
    ensures
        ecb_encrypt(key, data).len() == data.len(),
        ecb_decrypt(key, data).len() == data.len(),
    decreases data.len(),
{
    if data.len() >= 16 {
        lemma_ecb_len(key, data.skip(16));
    }
}

/// Only whole blocks of sixteen bytes are decrypted, one at least.
pub proof fn whole_blocks_have_sixteen_bytes(data: Seq<u8>)
    ensures
        is_whole_blocks(data) <==> data.len() >= 16 && data.len() % 16 == 0,
{
}

} // verus!
