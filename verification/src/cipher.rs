//! The second stage: the unprotected device key opens the licence key.

use crate::codec::base64_standard_decoding;
use crate::codec::decode_base64_standard;
use crate::codec::decode_hex;
use crate::codec::hex_bytes;
use crate::codec::is_hex_text;
use crate::error::result_view;
use crate::error::ErrorView;
use crate::error::ExtractorError;
use vstd::prelude::*;
use vstd::string::StringSliceAdditionalSpecFns;

verus! {

/// The length of the unprotected device key: an AES-128 key.
pub const KEY_LEN: usize = 16;

/// The length of the header that precedes the content key in the decrypted
/// licence key. It is part of the vendor's format.
pub const HEADER_LEN: usize = 26;

/// What `Cipher::cbc_decrypt` of the libaes crate returns for a cipher made by
/// `Cipher::new_128` from `key`: `data` decrypted with AES-128 in CBC mode
/// from the initialisation vector `iv`, as far as that crate keeps it (it
/// takes off what it reads as padding).
pub uninterp spec fn aes128_cbc_plaintext(key: Seq<u8>, iv: Seq<u8>, data: Seq<u8>) -> Seq<u8>;

/// The initialisation vector: sixteen zero bytes.
pub open spec fn zero_iv() -> Seq<u8> {
    Seq::new(16, |i: int| 0u8)
}

/// Calls `Cipher::new_128` and then `Cipher::cbc_decrypt` of the libaes
/// crate. The contract names the plaintext and claims two things that the
/// crate's source shows: the plaintext is never longer than the data, and
/// data that is not a whole number of 16-byte blocks gives an empty
/// plaintext.
#[verifier::external_body]
fn cbc_decrypt_128(key: &[u8; 16], iv: &[u8; 16], data: &[u8]) -> (plain: Vec<u8>)
    ensures
        plain@ == aes128_cbc_plaintext(key@, iv@, data@),
        plain@.len() <= data@.len(),
        data@.len() % 16 != 0 ==> plain@.len() == 0,
{
    libaes::Cipher::new_128(key).cbc_decrypt(iv, data)
}

/// A plaintext without its header; a plaintext shorter than the header has
/// none.
pub open spec fn without_header(plain: Seq<u8>) -> Result<Seq<u8>, ErrorView> {
    if plain.len() < HEADER_LEN {
        Err(ErrorView::PlaintextTooShort)
    } else {
        Ok(plain.skip(HEADER_LEN as int))
    }
}

/// The content key that `intermediate_key` opens in the base64 text
/// `license_key`: the key must have 16 bytes, the text must be base64, and
/// what AES-128 in CBC mode decrypts from it, with a zero initialisation
/// vector, must hold the header.
pub open spec fn unwrapped_key(intermediate_key: Seq<u8>, license_key: Seq<u8>) -> Result<
    Seq<u8>,
    ErrorView,
> {
    if intermediate_key.len() != KEY_LEN {
        Err(
            ErrorView::InvalidKeyLength {
                expected: KEY_LEN as nat,
                actual: intermediate_key.len(),
            },
        )
    } else {
        match base64_standard_decoding(license_key) {
            None => Err(ErrorView::InvalidBase64),
            Some(data) => without_header(aes128_cbc_plaintext(intermediate_key, zero_iv(), data)),
        }
    }
}

/// The content key for a device key given as hexadecimal text.
pub open spec fn decrypted_key(key_hex: Seq<u8>, adept_key: Seq<u8>) -> Result<Seq<u8>, ErrorView> {
    if is_hex_text(key_hex) {
        unwrapped_key(hex_bytes(key_hex), adept_key)
    } else {
        Err(ErrorView::InvalidHex)
    }
}

/// Whatever the licence key holds, a device key is refused for its length
/// exactly when it does not have 16 bytes.
pub proof fn lemma_key_length_gate(intermediate_key: Seq<u8>, license_key: Seq<u8>)
    ensures
        intermediate_key.len() != 16 ==> unwrapped_key(intermediate_key, license_key) == Err::<
            Seq<u8>,
            ErrorView,
        >(ErrorView::InvalidKeyLength { expected: 16, actual: intermediate_key.len() }),
        intermediate_key.len() == 16 ==> !(unwrapped_key(intermediate_key, license_key) matches Err(
            ErrorView::InvalidKeyLength { .. },
        )),
{
}

/// Takes the header off a decrypted licence key. Fails with
/// [`ExtractorError::PlaintextTooShort`] exactly when there are fewer than 26
/// bytes.
pub fn strip_header(plain: Vec<u8>) -> (r: Result<Vec<u8>, ExtractorError>)
    ensures
        result_view(r) == without_header(plain@),
{
    let mut header = plain;
    if header.len() < HEADER_LEN {
        Err(ExtractorError::PlaintextTooShort)
    } else {
        let key = header.split_off(HEADER_LEN);
        assert(key@ =~= plain@.skip(HEADER_LEN as int));
        Ok(key)
    }
}

/// Copies sixteen bytes into a block.
fn key_block(key: &[u8]) -> (block: [u8; 16])
    requires
        key@.len() == 16,
    ensures
        block@ == key@,
{
    let mut block = [0u8; 16];
    let mut i: usize = 0;
    while i < 16
        invariant
            i <= 16,
            key@.len() == 16,
            forall|j: int| 0 <= j < i ==> block@[j] == key@[j],
        decreases 16 - i,
    {
        block[i] = key[i];
        i += 1;
    }
    assert(block@ =~= key@);
    block
}

/// Opens the licence key with the unprotected device key.
///
/// The device key must have exactly 16 bytes, else the result is
/// [`ExtractorError::InvalidKeyLength`] and nothing is decoded or decrypted.
/// `private_license_key` is base64 text; where it is malformed the result is
/// [`ExtractorError::InvalidBase64`]. Its bytes are decrypted with AES-128 in
/// CBC mode under the device key and a zero initialisation vector, and the
/// first 26 bytes of the plaintext are dropped; a plaintext with fewer gives
/// [`ExtractorError::PlaintextTooShort`].
pub fn unwrap_key(intermediate_key: &[u8], private_license_key: &str) -> (r: Result<
    Vec<u8>,
    ExtractorError,
>)
    ensures
        result_view(r) == unwrapped_key(intermediate_key@, private_license_key.spec_bytes()),
        intermediate_key@.len() != 16 ==> result_view(r) == Err::<Seq<u8>, ErrorView>(
            ErrorView::InvalidKeyLength { expected: 16, actual: intermediate_key@.len() },
        ),
        intermediate_key@.len() == 16 ==> match base64_standard_decoding(
            private_license_key.spec_bytes(),
        ) {
            None => result_view(r) == Err::<Seq<u8>, ErrorView>(ErrorView::InvalidBase64),
            Some(data) => {
                &&& r matches Ok(key) ==> key@.len() + 26 <= data.len()
                &&& data.len() % 16 != 0 || data.len() < 26 ==> result_view(r) == Err::<
                    Seq<u8>,
                    ErrorView,
                >(ErrorView::PlaintextTooShort)
            },
        },
{
    if intermediate_key.len() != KEY_LEN {
        return Err(
            ExtractorError::InvalidKeyLength { expected: KEY_LEN, actual: intermediate_key.len() },
        );
    }
    let data = match decode_base64_standard(private_license_key) {
        Ok(data) => data,
        Err(e) => {
            return Err(e);
        },
    };
    let key = key_block(intermediate_key);
    let iv = [0u8; 16];
    assert(iv@ =~= zero_iv());
    let plain = cbc_decrypt_128(&key, &iv, data.as_slice());
    strip_header(plain)
}

/// Opens the licence key `adept_key` (base64 text) with the unprotected
/// device key `key_hex` (hexadecimal text). Fails with
/// [`ExtractorError::InvalidHex`] where `key_hex` is not hexadecimal, and
/// otherwise as [`unwrap_key`] does.
pub fn aes_decrypt(key_hex: &str, adept_key: &str) -> (r: Result<Vec<u8>, ExtractorError>)
    ensures
        result_view(r) == decrypted_key(key_hex.spec_bytes(), adept_key.spec_bytes()),
{
    let decrypted_key = match decode_hex(key_hex) {
        Ok(key) => key,
        Err(e) => {
            return Err(e);
        },
    };
    unwrap_key(decrypted_key.as_slice(), adept_key)
}

} // verus!
