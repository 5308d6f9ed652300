use vstd::prelude::*;
use crate::login::Error;
use vstd::string::StringSliceAdditionalSpecFns;
use vstd::utf8::encode_utf8;

verus! {

/// The alphabet that padding characters and initialisation vectors are drawn
/// from: `ABCDEFGHJKMNPQRSTWXYZabcdefhijkmnprstwxyz2345678` as ASCII codes.
pub open spec fn aes_chars_spec() -> Seq<u8> {
    seq![
        65u8, 66u8, 67u8, 68u8, 69u8, 70u8, 71u8, 72u8, 74u8, 75u8, 77u8, 78u8, 80u8, 81u8,
        82u8, 83u8, 84u8, 87u8, 88u8, 89u8, 90u8, 97u8, 98u8, 99u8, 100u8, 101u8, 102u8, 104u8,
        105u8, 106u8, 107u8, 109u8, 110u8, 112u8, 114u8, 115u8, 116u8, 119u8, 120u8, 121u8, 122u8, 50u8,
        51u8, 52u8, 53u8, 54u8, 55u8, 56u8,
    ]
}

/// The cipher alphabet as bytes.
pub fn aes_chars() -> (r: [u8; 48])
    ensures
        r@ == aes_chars_spec(),
{
    [
        65u8, 66u8, 67u8, 68u8, 69u8, 70u8, 71u8, 72u8, 74u8, 75u8, 77u8, 78u8, 80u8, 81u8,
        82u8, 83u8, 84u8, 87u8, 88u8, 89u8, 90u8, 97u8, 98u8, 99u8, 100u8, 101u8, 102u8, 104u8,
        105u8, 106u8, 107u8, 109u8, 110u8, 112u8, 114u8, 115u8, 116u8, 119u8, 120u8, 121u8, 122u8, 50u8,
        51u8, 52u8, 53u8, 54u8, 55u8, 56u8,
    ]
}

/// Length of the random prefix placed before the password.
pub const PREFIX_LEN: usize = 64;

/// Length of an AES block, and of the initialisation vector.
pub const IV_LEN: usize = 16;

/// Whether `n` is a valid AES key length in bytes.
pub open spec fn valid_key_len(n: nat) -> bool {
    n == 16 || n == 24 || n == 32
}

/// Ciphertext of `plain` under AES-CBC with key `key`, vector `iv` and PKCS#7 padding.
pub uninterp spec fn aes_cbc_pkcs7(plain: Seq<u8>, key: Seq<u8>, iv: Seq<u8>) -> Seq<u8>;

/// Standard (padded) base64 text of `bytes`.
pub uninterp spec fn base64_of(bytes: Seq<u8>) -> Seq<char>;

/// Relies on `soft_aes::aes::aes_enc_cbc` with `"PKCS7"` padding: it fails
/// exactly when the key is not 16, 24 or 32 bytes long, and otherwise returns
/// the padded plaintext's length in bytes.
#[verifier::external_body]
fn aes_encrypt_cbc(plain: &[u8], key: &[u8], iv: &[u8]) -> (r: Option<Vec<u8>>)
    requires
        iv@.len() == IV_LEN,
    ensures
        r is Some <==> valid_key_len(key@.len()),
        r matches Some(c) ==> c@ == aes_cbc_pkcs7(plain@, key@, iv@)
            && c@.len() == 16 * (plain@.len() / 16 + 1),
{
    let iv: &[u8; 16] = iv.try_into().unwrap();
    soft_aes::aes::aes_enc_cbc(plain, key, iv, Some("PKCS7")).ok()
}

/// Relies on `base64::Engine::encode` of the standard engine, which panics
/// only when the encoded length overflows `usize`.
#[verifier::external_body]
fn base64_encode(bytes: &[u8]) -> (r: String)
    requires
        bytes@.len() <= usize::MAX / 2,
    ensures
        r@ == base64_of(bytes@),
{
    base64::Engine::encode(&base64::engine::general_purpose::STANDARD, bytes)
}

/// Relies on `rand::seq::IndexedRandom::choose` with the thread-local
/// generator: one element of a non-empty slice.
#[verifier::external_body]
fn choose_byte(alphabet: &[u8]) -> (r: u8)
    requires
        alphabet@.len() > 0,
    ensures
        alphabet@.contains(r),
{
    *rand::seq::IndexedRandom::choose(alphabet, &mut rand::rng()).unwrap()
}

/// Whether every byte of `s` is drawn from the cipher alphabet.
pub open spec fn from_alphabet(s: Seq<u8>) -> bool {
    forall|i: int| 0 <= i < s.len() ==> aes_chars_spec().contains(#[trigger] s[i])
}

/// `len` characters drawn at random from the cipher alphabet.
pub fn random_string(len: usize) -> (r: Vec<u8>)
    ensures
        r@.len() == len,
        from_alphabet(r@),
{
    let alphabet = aes_chars();
    let mut r: Vec<u8> = Vec::new();
    let mut i: usize = 0;
    while i < len
        invariant
            i <= len,
            alphabet@ == aes_chars_spec(),
            r@.len() == i,
            from_alphabet(r@),
        decreases len - i,
    {
        let c = choose_byte(&alphabet);
        r.push(c);
        i = i + 1;
    }
    r
}

/// The bytes that are encrypted: the random prefix followed by the password's UTF-8 bytes.
pub open spec fn cipher_input(prefix: Seq<u8>, password: Seq<char>) -> Seq<u8> {
    prefix + encode_utf8(password)
}

/// Encrypts `prefix` followed by `password` under AES-CBC with the salt's
/// bytes as key and `iv` as vector, PKCS#7 padded, and encodes the result in
/// base64. Fails with `Encrypt` exactly when the salt is not a valid key.
pub fn encrypt_password(password: &str, salt: &str, prefix: &[u8], iv: &[u8]) -> (r: Result<String, Error>)
    requires
        iv@.len() == IV_LEN,
        prefix@.len() + password.spec_bytes().len() <= usize::MAX / 4,
    ensures
        r is Ok <==> valid_key_len(salt.spec_bytes().len()),
        r matches Ok(s) ==> s@ == base64_of(
            aes_cbc_pkcs7(cipher_input(prefix@, password@), salt.spec_bytes(), iv@),
        ),
        r matches Err(e) ==> e == Error::Encrypt,
{
    let pw = password.as_bytes();
    let mut plain: Vec<u8> = Vec::new();
    let mut i: usize = 0;
    while i < prefix.len()
        invariant
            i <= prefix@.len(),
            plain@ == prefix@.subrange(0, i as int),
        decreases prefix@.len() - i,
    {
        plain.push(prefix[i]);
        i = i + 1;
    }
    let mut j: usize = 0;
    while j < pw.len()
        invariant
            j <= pw@.len(),
            pw@ == password.spec_bytes(),
            plain@ == prefix@ + pw@.subrange(0, j as int),
        decreases pw@.len() - j,
    {
        plain.push(pw[j]);
        j = j + 1;
    }
    assert(pw@.subrange(0, pw@.len() as int) == pw@);
    assert(prefix@.subrange(0, prefix@.len() as int) == prefix@);
    let ct = aes_encrypt_cbc(plain.as_slice(), salt.as_bytes(), iv);
    if let Some(c) = &ct {
        assert(c@.len() <= usize::MAX / 2) by (nonlinear_arith)
            requires
                c@.len() == 16 * (plain@.len() / 16 + 1),
                plain@.len() <= usize::MAX / 4,
        ;
    }
    cipher_text(ct)
}

/// The transmitted form of a ciphertext: its base64 text, or `Encrypt` when
/// the cipher refused the key.
pub fn cipher_text(ciphertext: Option<Vec<u8>>) -> (r: Result<String, Error>)
    requires
        ciphertext matches Some(c) ==> c@.len() <= usize::MAX / 2,
    ensures
        match ciphertext {
            Some(c) => r matches Ok(s) && s@ == base64_of(c@),
            None => r == Err::<String, Error>(Error::Encrypt),
        },
{
    match ciphertext {
        Some(c) => Ok(base64_encode(c.as_slice())),
        None => Err(Error::Encrypt),
    }
}

/// The password transform of the login form: a fresh random prefix and
/// vector are drawn from the alphabet and `encrypt_password` is applied.
pub fn transform_password(password: &str, salt: &str) -> (r: Result<String, Error>)
    requires
        password.spec_bytes().len() <= usize::MAX / 8,
    ensures
        r is Ok <==> valid_key_len(salt.spec_bytes().len()),
        r matches Ok(s) ==> exists|prefix: Seq<u8>, iv: Seq<u8>|
            prefix.len() == PREFIX_LEN && iv.len() == IV_LEN && from_alphabet(prefix)
                && from_alphabet(iv) && s@ == base64_of(
                aes_cbc_pkcs7(cipher_input(prefix, password@), salt.spec_bytes(), iv),
            ),
        r matches Err(e) ==> e == Error::Encrypt,
{
    let prefix = random_string(PREFIX_LEN);
    let iv = random_string(IV_LEN);
    let r = encrypt_password(password, salt, prefix.as_slice(), iv.as_slice());
    if let Ok(s) = &r {
        assert(s@ == base64_of(
            aes_cbc_pkcs7(cipher_input(prefix@, password@), salt.spec_bytes(), iv@),
        ));
    }
    r
}

} // verus!
