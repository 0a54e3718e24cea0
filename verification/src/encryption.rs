//! Travel rule information, encrypted for its receiver.
use ecies::SecpError;
use vstd::prelude::*;

use crate::error;
use crate::error::{Error, ErrorView};
use crate::hexadecimal;
use crate::signature;

verus! {

/// What `ecies::encrypt` can make of a message for a public key: any of some ciphertexts, or
/// an error.
pub uninterp spec fn ecies_ciphertexts(public_key: Seq<u8>, message: Seq<u8>) -> Result<
    Set<Seq<u8>>,
    SecpError,
>;

/// What `ecies::decrypt` makes of a ciphertext with a secret key, under the two settings of the
/// library: whether the ephemeral key in a ciphertext is compressed, and whether the points
/// that the symmetric key is derived from are.
pub uninterp spec fn ecies_decrypted(
    ephemeral_key_compressed: bool,
    hkdf_key_compressed: bool,
    secret_key: Seq<u8>,
    ciphertext: Seq<u8>,
) -> Result<Seq<u8>, SecpError>;

/// Whether a ciphertext decrypts to a message under some settings, with each secret key that a
/// public key belongs to.
pub open spec fn decrypts_under(
    ephemeral_key_compressed: bool,
    hkdf_key_compressed: bool,
    public_key: Seq<u8>,
    message: Seq<u8>,
    ciphertext: Seq<u8>,
) -> bool {
    forall|secret_key: Seq<u8>| #[trigger]
        signature::is_key_pair(secret_key, public_key) ==> ecies_decrypted(
            ephemeral_key_compressed,
            hkdf_key_compressed,
            secret_key,
            ciphertext,
        ) == Ok::<Seq<u8>, SecpError>(message)
}

/// Whether a ciphertext decrypts to a message, under the settings that it was made with.
pub open spec fn decrypts_back(
    public_key: Seq<u8>,
    message: Seq<u8>,
    ciphertext: Seq<u8>,
) -> bool {
    exists|ephemeral_key_compressed: bool, hkdf_key_compressed: bool| #[trigger]
        decrypts_under(
            ephemeral_key_compressed,
            hkdf_key_compressed,
            public_key,
            message,
            ciphertext,
        )
}

/// Calls `ecies::encrypt`. Whether it succeeds, and its error, depend on the key and the
/// message alone. Which of the ciphertexts of the message for the key comes back is random. It
/// decrypts to the message with a secret key that the public one belongs to, under the settings
/// of the library at the time: both curve libraries read the same bytes as the same keys.
#[verifier::external_body]
fn encrypt(public_key: &[u8], message: &[u8]) -> (res: Result<Vec<u8>, SecpError>)
    ensures
        match res {
            Ok(ciphertext) => ecies_ciphertexts(public_key@, message@) matches Ok(set)
                && set.contains(ciphertext@) && decrypts_back(
                public_key@,
                message@,
                ciphertext@,
            ),
            Err(e) => ecies_ciphertexts(public_key@, message@) == Err::<Set<Seq<u8>>, SecpError>(e),
        },
{
    ecies::encrypt(public_key, message)
}

/// Calls `ecies::decrypt`. The result depends on the key, the ciphertext and the settings of
/// the library, which any part of the process may change.
#[verifier::external_body]
fn decrypt(secret_key: &[u8], ciphertext: &[u8]) -> (res: Result<Vec<u8>, SecpError>)
    ensures
        exists|ephemeral_key_compressed: bool, hkdf_key_compressed: bool|
            decrypted_view(res) == #[trigger] ecies_decrypted(
                ephemeral_key_compressed,
                hkdf_key_compressed,
                secret_key@,
                ciphertext@,
            ),
{
    ecies::decrypt(secret_key, ciphertext)
}

/// The view of what came of a decryption.
pub open spec fn decrypted_view(res: Result<Vec<u8>, SecpError>) -> Result<Seq<u8>, SecpError> {
    match res {
        Ok(message) => Ok(message@),
        Err(e) => Err(e),
    }
}

/// Whether decrypting a ciphertext may give a result, under settings of the library that are
/// not known.
pub open spec fn may_decrypt_to(
    secret_key: Seq<u8>,
    ciphertext: Seq<u8>,
    res: Result<Seq<u8>, SecpError>,
) -> bool {
    exists|ephemeral_key_compressed: bool, hkdf_key_compressed: bool|
        res == #[trigger] ecies_decrypted(
            ephemeral_key_compressed,
            hkdf_key_compressed,
            secret_key,
            ciphertext,
        )
}

/// Whether travel rule information can be had back from its encrypted text: the text is
/// hexadecimal, and its bytes decrypt to the information.
pub open spec fn is_recoverable(
    tr_info: Seq<char>,
    public_key: Seq<u8>,
    encrypted: Seq<char>,
) -> bool {
    hexadecimal::hex_bytes(encrypted) matches Some(ciphertext) && decrypts_back(
        public_key,
        vstd::utf8::encode_utf8(tr_info),
        ciphertext,
    )
}

/// Recoverable information is what its encrypted text decrypts to, with the secret key that the
/// public one belongs to, under the settings that it was encrypted with.
pub proof fn information_is_recovered(
    tr_info: Seq<char>,
    public_key: Seq<u8>,
    encrypted: Seq<char>,
    secret_key: Seq<u8>,
)
    requires
        is_recoverable(tr_info, public_key, encrypted),
        signature::is_key_pair(secret_key, public_key),
    ensures
        hexadecimal::hex_bytes(encrypted) matches Some(ciphertext) && may_decrypt_to(
            secret_key,
            ciphertext,
            Ok(vstd::utf8::encode_utf8(tr_info)),
        ),
{
    let ciphertext = hexadecimal::hex_bytes(encrypted)->0;
    let message = vstd::utf8::encode_utf8(tr_info);
    let (e, h) = choose|e: bool, h: bool| #[trigger]
        decrypts_under(e, h, public_key, message, ciphertext);
    assert(ecies_decrypted(e, h, secret_key, ciphertext) == Ok::<Seq<u8>, SecpError>(message));
}

/// What encrypting travel rule information may give: the hexadecimal text of one of its
/// ciphertexts, or the error of the encryption.
pub open spec fn may_encrypt_to(
    tr_info: Seq<char>,
    public_key: Seq<u8>,
    res: Result<Seq<char>, ErrorView>,
) -> bool {
    match ecies_ciphertexts(public_key, vstd::utf8::encode_utf8(tr_info)) {
        Ok(set) => exists|ciphertext: Seq<u8>| #[trigger]
            set.contains(ciphertext) && res == Ok::<Seq<char>, ErrorView>(
                hexadecimal::hex_text(ciphertext),
            ),
        Err(e) => res == Err::<Seq<char>, ErrorView>(ErrorView::EciesSecp256k1Error(e)),
    }
}

/// Encrypts travel rule information.
///
/// The information can be had back with the secret key that the public one belongs to.
pub fn encrypt_tr_info(tr_info: &str, receiver_encryption_pub_key: &[u8]) -> (res: Result<
    String,
    Error,
>)
    ensures
        may_encrypt_to(
            tr_info@,
            receiver_encryption_pub_key@,
            error::outcome(res),
        ),
        res matches Ok(encrypted) ==> is_recoverable(
            tr_info@,
            receiver_encryption_pub_key@,
            encrypted@,
        ),
{
    match encrypt(receiver_encryption_pub_key, tr_info.as_bytes()) {
        Ok(cipher_text) => {
            proof {
                hexadecimal::hex_bytes_of_hex_text(cipher_text@);
            }
            Ok(hexadecimal::encode(cipher_text.as_slice()))
        },
        Err(e) => Err(Error::EciesSecp256k1Error(e)),
    }
}

/// The result of a decryption with its error as one of the library.
pub open spec fn decryption_outcome(res: Result<Seq<u8>, SecpError>) -> Result<
    Seq<u8>,
    ErrorView,
> {
    match res {
        Ok(message) => Ok(message),
        Err(e) => Err(ErrorView::EciesSecp256k1Error(e)),
    }
}

/// Decrypts the bytes of encrypted travel rule information.
pub fn decrypt_tr_info(ciphertext: &[u8], encryption_private_key: &[u8]) -> (res: Result<
    Vec<u8>,
    Error,
>)
    ensures
        exists|decrypted: Result<Seq<u8>, SecpError>|
            may_decrypt_to(encryption_private_key@, ciphertext@, decrypted) && error::outcome(res)
                == #[trigger] decryption_outcome(decrypted),
{
    let decrypted = decrypt(encryption_private_key, ciphertext);
    let ghost view = decrypted_view(decrypted);
    assert(may_decrypt_to(encryption_private_key@, ciphertext@, view));
    let res = match decrypted {
        Ok(message) => Ok(message),
        Err(e) => Err(Error::EciesSecp256k1Error(e)),
    };
    assert(error::outcome(res) == decryption_outcome(view));
    res
}

} // verus!
