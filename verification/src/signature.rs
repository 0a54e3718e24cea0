//! Signatures on payloads: ECDSA over secp256k1, of the SHA-256 digest, as the hexadecimal
//! text of its DER form.
use bitcoin::secp256k1::ecdsa::Signature;
use bitcoin::secp256k1::hashes::sha256;
use bitcoin::secp256k1::Error as CurveError;
use bitcoin::secp256k1::{Message, PublicKey, Secp256k1, SecretKey};
use vstd::prelude::*;

use crate::error;
use crate::error::{Error, ErrorView};
use crate::hexadecimal;

verus! {

/// The number that some bytes denote, the most significant byte first.
pub open spec fn big_endian(bytes: Seq<u8>) -> nat
    decreases bytes.len(),
{
    if bytes.len() == 0 {
        0
    } else {
        256 * big_endian(bytes.drop_last()) + bytes.last() as nat
    }
}

/// Whether some bytes are a secret key: 32 of them, denoting a number above zero and below
/// the order of the curve.
pub open spec fn is_secret_key(bytes: Seq<u8>) -> bool {
    &&& bytes.len() == 32
    &&& 0 < big_endian(bytes)
    &&& big_endian(bytes)
        < 0xFFFFFFFFFFFFFFFFFFFFFFFFFFFFFFFEBAAEDCE6AF48A03BBFD25E8CD0364141nat
}

/// The digest that `Message::from_hashed_data::<sha256::Hash>` makes of a payload.
pub uninterp spec fn sha256_digest(payload: Seq<u8>) -> Seq<u8>;

/// The DER form of what `Secp256k1::sign_ecdsa` makes of a digest and a secret key.
pub uninterp spec fn ecdsa_der(digest: Seq<u8>, secret_key: Seq<u8>) -> Seq<u8>;

/// What `SecretKey::from_slice` reports of bytes that are no secret key.
pub uninterp spec fn secret_key_error(bytes: Seq<u8>) -> CurveError;

/// The compressed form of what `PublicKey::from_secret_key` derives from a secret key.
pub uninterp spec fn public_key_of(secret_key: Seq<u8>) -> Seq<u8>;

/// The compact form of the signature that `Signature::from_der` reads, or its error.
pub uninterp spec fn signature_of_der(bytes: Seq<u8>) -> Result<
    Seq<u8>,
    CurveError,
>;

/// The compressed form of the key that `PublicKey::from_slice` reads, or its error.
pub uninterp spec fn public_key_of_bytes(bytes: Seq<u8>) -> Result<
    Seq<u8>,
    CurveError,
>;

/// Whether `Secp256k1::verify_ecdsa` accepts a signature, in compact form, of a digest under
/// a public key, in compressed form.
pub uninterp spec fn ecdsa_verifies(
    digest: Seq<u8>,
    signature: Seq<u8>,
    public_key: Seq<u8>,
) -> bool;

/// Calls `Message::from_hashed_data` with SHA-256: a digest of 32 bytes that depends on the
/// payload alone.
#[verifier::external_body]
fn digest_of(payload: &[u8]) -> (res: Vec<u8>)
    ensures
        res@ == sha256_digest(payload@),
        res@.len() == 32,
{
    Message::from_hashed_data::<sha256::Hash>(payload).as_ref().to_vec()
}

/// Calls `Secp256k1::sign_ecdsa` with the key that `SecretKey::from_slice` reads, and writes
/// the signature as DER. A key is refused exactly if it is not 32 bytes long, zero, or not
/// below the order of the curve. Signing is deterministic. The signature is at most 72 bytes
/// long, can be read back, and verifies under the public key that belongs to the secret one.
#[verifier::external_body]
fn sign_digest(digest: &[u8], secret_key: &[u8]) -> (res: Result<
    Vec<u8>,
    CurveError,
>)
    requires
        digest@.len() == 32,
    ensures
        match res {
            Ok(der) => {
                &&& is_secret_key(secret_key@)
                &&& der@ == ecdsa_der(digest@, secret_key@)
                &&& der@.len() <= 72
                &&& signature_of_der(der@) matches Ok(signature) && ecdsa_verifies(
                    digest@,
                    signature,
                    public_key_of(secret_key@),
                )
            },
            Err(e) => !is_secret_key(secret_key@) && e == secret_key_error(secret_key@),
        },
{
    let key = SecretKey::from_slice(secret_key)?;
    let message = Message::from_digest_slice(digest)?;
    Ok(Secp256k1::new().sign_ecdsa(&message, &key).serialize_der().to_vec())
}

/// Calls `PublicKey::from_secret_key` with the key that `SecretKey::from_slice` reads, and
/// writes the public key in its compressed form. A key is refused exactly if it is not 32 bytes
/// long, zero, or not below the order of the curve. The public key depends on the secret one
/// alone, and its compressed form is read as that key.
#[verifier::external_body]
fn derive_public_key(secret_key: &[u8]) -> (res: Result<Vec<u8>, CurveError>)
    ensures
        match res {
            Ok(key) => {
                &&& is_secret_key(secret_key@)
                &&& key@ == public_key_of(secret_key@)
                &&& public_key_of_bytes(key@) == Ok::<Seq<u8>, CurveError>(key@)
            },
            Err(e) => !is_secret_key(secret_key@) && e == secret_key_error(secret_key@),
        },
{
    let key = SecretKey::from_slice(secret_key)?;
    Ok(PublicKey::from_secret_key(&Secp256k1::new(), &key).serialize().to_vec())
}

/// Calls `Signature::from_der`, and writes the signature in its compact form. The result
/// depends on the bytes alone.
#[verifier::external_body]
fn read_signature(der: &[u8]) -> (res: Result<Vec<u8>, CurveError>)
    ensures
        match res {
            Ok(signature) => signature_of_der(der@) == Ok::<
                Seq<u8>,
                CurveError,
            >(signature@),
            Err(e) => signature_of_der(der@) == Err::<Seq<u8>, CurveError>(e),
        },
{
    Ok(Signature::from_der(der)?.serialize_compact().to_vec())
}

/// Calls `PublicKey::from_slice`, and writes the key in its compressed form. The result
/// depends on the bytes alone.
#[verifier::external_body]
fn read_public_key(bytes: &[u8]) -> (res: Result<Vec<u8>, CurveError>)
    ensures
        match res {
            Ok(key) => public_key_of_bytes(bytes@) == Ok::<
                Seq<u8>,
                CurveError,
            >(key@),
            Err(e) => public_key_of_bytes(bytes@) == Err::<Seq<u8>, CurveError>(e),
        },
{
    Ok(PublicKey::from_slice(bytes)?.serialize().to_vec())
}

/// Calls `Secp256k1::verify_ecdsa` on a digest, a compact signature and a compressed key.
/// Whether it accepts depends on these alone.
#[verifier::external_body]
fn verify_digest(digest: &[u8], signature: &[u8], public_key: &[u8]) -> (res: Result<
    (),
    CurveError,
>)
    ensures
        res is Ok == ecdsa_verifies(digest@, signature@, public_key@),
{
    let message = Message::from_digest_slice(digest)?;
    let signature = Signature::from_compact(signature)?;
    let key = PublicKey::from_slice(public_key)?;
    Secp256k1::new().verify_ecdsa(&message, &signature, &key)
}

/// The signature on a payload, or why there is none: the hexadecimal text of the DER form
/// of the ECDSA signature on the SHA-256 digest.
pub open spec fn signed(payload: Seq<u8>, private_key: Seq<u8>) -> Result<Seq<char>, ErrorView> {
    if is_secret_key(private_key) {
        Ok(hexadecimal::hex_text(ecdsa_der(sha256_digest(payload), private_key)))
    } else {
        Err(ErrorView::Secp256k1Error(secret_key_error(private_key)))
    }
}

/// What checking a signature gives. The text must be hexadecimal, its bytes must be the DER
/// form of a signature, and the key's bytes must be a public key, in this order; then the
/// signature must be one of the payload's digest under the key.
pub open spec fn verified(payload: Seq<u8>, signature: Seq<char>, public_key: Seq<u8>) -> Result<
    (),
    ErrorView,
> {
    match hexadecimal::hex_bytes(signature) {
        None => Err(ErrorView::SignatureFormatError),
        Some(der) => match signature_of_der(der) {
            Err(e) => Err(ErrorView::Secp256k1Error(e)),
            Ok(compact) => match public_key_of_bytes(public_key) {
                Err(e) => Err(ErrorView::Secp256k1Error(e)),
                Ok(key) => if ecdsa_verifies(sha256_digest(payload), compact, key) {
                    Ok(())
                } else {
                    Err(ErrorView::InvalidSignature)
                },
            },
        },
    }
}

/// Whether the bytes of a private key are a secret key, and those of a public key are of the
/// key that belongs to it, in any form that is read as that key.
pub open spec fn is_key_pair(private_key: Seq<u8>, public_key: Seq<u8>) -> bool {
    is_secret_key(private_key) && public_key_of_bytes(public_key) == Ok::<Seq<u8>, CurveError>(
        public_key_of(private_key),
    )
}

/// Whether a signature on a payload is accepted under each public key that belongs to the
/// private one.
pub open spec fn verifies_for_signer(
    payload: Seq<u8>,
    signature: Seq<char>,
    private_key: Seq<u8>,
) -> bool {
    forall|public_key: Seq<u8>| #[trigger]
        is_key_pair(private_key, public_key) ==> verified(payload, signature, public_key) is Ok
}

/// The public key that belongs to a private one, in compressed form: the one to publish for
/// those who check signatures or encrypt.
pub fn public_key_for(private_key_bytes: &[u8]) -> (res: Result<Vec<u8>, Error>)
    ensures
        match res {
            Ok(key) => {
                &&& is_secret_key(private_key_bytes@)
                &&& key@ == public_key_of(private_key_bytes@)
                &&& is_key_pair(private_key_bytes@, key@)
            },
            Err(e) => {
                &&& !is_secret_key(private_key_bytes@)
                &&& e@ == ErrorView::Secp256k1Error(secret_key_error(private_key_bytes@))
            },
        },
{
    match derive_public_key(private_key_bytes) {
        Ok(key) => Ok(key),
        Err(e) => Err(Error::Secp256k1Error(e)),
    }
}

/// Signs a payload.
///
/// The signature verifies under the public key that belongs to the private one.
pub fn sign_payload(payload: &[u8], private_key_bytes: &[u8]) -> (res: Result<String, Error>)
    ensures
        error::outcome(res) == signed(payload@, private_key_bytes@),
        res matches Ok(signature) ==> verifies_for_signer(
            payload@,
            signature@,
            private_key_bytes@,
        ) && signature@.len() <= 144,
{
    let digest = digest_of(payload);
    match sign_digest(digest.as_slice(), private_key_bytes) {
        Ok(der) => {
            proof {
                hexadecimal::hex_bytes_of_hex_text(der@);
            }
            Ok(hexadecimal::encode(der.as_slice()))
        },
        Err(e) => Err(Error::Secp256k1Error(e)),
    }
}

/// Checks the signature on a payload.
pub fn verify_ecdsa(payload: &[u8], signature: &str, pub_key_bytes: &[u8]) -> (res: Result<
    (),
    Error,
>)
    ensures
        error::outcome(res) == verified(payload@, signature@, pub_key_bytes@),
{
    let sig_bytes = match hexadecimal::decode(signature) {
        Ok(bytes) => bytes,
        Err(_) => {
            return Err(Error::SignatureFormatError);
        },
    };
    let digest = digest_of(payload);
    let sig = match read_signature(sig_bytes.as_slice()) {
        Ok(sig) => sig,
        Err(e) => {
            return Err(Error::Secp256k1Error(e));
        },
    };
    let key = match read_public_key(pub_key_bytes) {
        Ok(key) => key,
        Err(e) => {
            return Err(Error::Secp256k1Error(e));
        },
    };
    match verify_digest(digest.as_slice(), sig.as_slice(), key.as_slice()) {
        Ok(()) => Ok(()),
        Err(_) => Err(Error::InvalidSignature),
    }
}

} // verus!
