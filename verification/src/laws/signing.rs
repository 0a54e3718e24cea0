//! Laws on signatures and encryption.
use bitcoin::secp256k1::Error as CurveError;
use ecies::SecpError;
use vstd::prelude::*;

use crate::encryption;
use crate::encryption::{decrypt_tr_info, encrypt_tr_info};
use crate::error::Error;
use crate::hexadecimal;
use crate::json;
use crate::json::Json;
use crate::protocol;
use crate::protocol::lnurl_request::UmaLnurlpRequest;
use crate::protocol::lnurl_response::LnurlpResponse;
use crate::protocol::pay_request::PayRequest;
use crate::protocol::payer_data::CompliancePayerDataView;
use crate::signature;
use crate::signature::{public_key_for, sign_payload, verify_ecdsa};
use crate::text;
use crate::uma::pay::verify_pay_req_signature;
use crate::uma::request::verify_uma_lnurlp_query_signature;
use crate::uma::response::verify_uma_lnurlp_response_signature;

verus! {

/// A signature on a payload is accepted exactly if its text is the hexadecimal text of a
/// signature in DER form, the key is a public key, and the curve library accepts the signature
/// of the payload's digest under the key.
pub proof fn accepted_exactly_if_it_verifies(
    payload: &[u8],
    signature: &str,
    public_key: &[u8],
    res: Result<(), Error>,
)
    requires
        call_ensures(verify_ecdsa, (payload, signature, public_key), res),
    ensures
        res is Ok <==> (hexadecimal::hex_bytes(signature@) matches Some(der)
            && signature::signature_of_der(der) matches Ok(sig)
            && signature::public_key_of_bytes(public_key@) matches Ok(key)
            && signature::ecdsa_verifies(signature::sha256_digest(payload@), sig, key)),
{
}

/// A refused signature is refused with the first fault: its text, its DER form, the key, and
/// last that it is not of the payload.
pub proof fn refused_for_the_first_fault(
    payload: &[u8],
    signature: &str,
    public_key: &[u8],
    error: Error,
)
    requires
        call_ensures(verify_ecdsa, (payload, signature, public_key), Err(error)),
    ensures
        hexadecimal::hex_bytes(signature@) is None <==> error is SignatureFormatError,
        hexadecimal::hex_bytes(signature@) matches Some(der) ==> {
            &&& signature::signature_of_der(der) matches Err(e) ==> error
                == Error::Secp256k1Error(e)
            &&& signature::signature_of_der(der) is Ok ==> {
                &&& signature::public_key_of_bytes(public_key@) matches Err(e) ==> error
                    == Error::Secp256k1Error(e)
                &&& signature::public_key_of_bytes(public_key@) is Ok ==> error is InvalidSignature
            }
        },
{
}

/// Signing succeeds exactly with a secret key, and gives the lower-case hexadecimal text of the
/// DER form of the signature on the payload's digest.
pub proof fn signing_gives_the_signature(
    payload: &[u8],
    private_key: &[u8],
    res: Result<String, Error>,
)
    requires
        call_ensures(sign_payload, (payload, private_key), res),
    ensures
        res is Ok <==> signature::is_secret_key(private_key@),
        res matches Ok(s) ==> s@ == hexadecimal::hex_text(
            signature::ecdsa_der(signature::sha256_digest(payload@), private_key@),
        ),
        res matches Err(e) ==> e == Error::Secp256k1Error(
            signature::secret_key_error(private_key@),
        ),
{
}

/// What one signs oneself is accepted under one's own public key.
pub proof fn own_signature_is_accepted(
    payload: &[u8],
    private_key: &[u8],
    public_key: Vec<u8>,
    signed: String,
    key: &[u8],
    signature: &str,
    res: Result<(), Error>,
)
    requires
        call_ensures(public_key_for, (private_key,), Ok(public_key)),
        call_ensures(sign_payload, (payload, private_key), Ok(signed)),
        key@ == public_key@,
        signature@ == signed@,
        call_ensures(verify_ecdsa, (payload, signature, key), res),
    ensures
        res is Ok,
{
    assert(signature::is_key_pair(private_key@, public_key@));
}

/// A public key is derived exactly from a secret key, and is the compressed form of the key
/// that belongs to it.
pub proof fn public_key_belongs_to_the_private_one(
    private_key: &[u8],
    res: Result<Vec<u8>, Error>,
)
    requires
        call_ensures(public_key_for, (private_key,), res),
    ensures
        res is Ok <==> signature::is_secret_key(private_key@),
        res matches Ok(key) ==> key@ == signature::public_key_of(private_key@)
            && signature::public_key_of_bytes(key@) == Ok::<Seq<u8>, CurveError>(key@),
        res matches Err(e) ==> e == Error::Secp256k1Error(
            signature::secret_key_error(private_key@),
        ),
{
}

/// Encrypted information is the hexadecimal text of one of the ciphertexts of its UTF-8 bytes
/// for the key, and the encryption fails exactly where the curve library does.
pub proof fn encryption_gives_a_ciphertext(
    tr_info: &str,
    public_key: &[u8],
    res: Result<String, Error>,
)
    requires
        call_ensures(encrypt_tr_info, (tr_info, public_key), res),
    ensures
        ({
            let possible = encryption::ecies_ciphertexts(
                public_key@,
                vstd::utf8::encode_utf8(tr_info@),
            );
            &&& res is Ok <==> possible is Ok
            &&& res matches Ok(encrypted) ==> exists|ciphertext: Seq<u8>| #[trigger]
                possible->Ok_0.contains(ciphertext) && encrypted@ == hexadecimal::hex_text(
                    ciphertext,
                )
            &&& res matches Err(e) ==> e == Error::EciesSecp256k1Error(possible->Err_0)
        }),
{
}

/// Encrypted information decrypts to its own UTF-8 bytes, with each secret key that the public
/// one belongs to, under the settings that it was encrypted with.
pub proof fn encrypted_information_decrypts(
    tr_info: &str,
    public_key: &[u8],
    encrypted: String,
    private_key: Seq<u8>,
)
    requires
        call_ensures(encrypt_tr_info, (tr_info, public_key), Ok(encrypted)),
        signature::is_secret_key(private_key),
        signature::public_key_of_bytes(public_key@) == Ok::<Seq<u8>, CurveError>(
            signature::public_key_of(private_key),
        ),
    ensures
        hexadecimal::hex_bytes(encrypted@) matches Some(ciphertext) && exists|e: bool, h: bool|
            #[trigger] encryption::ecies_decrypted(e, h, private_key, ciphertext) == Ok::<
                Seq<u8>,
                SecpError,
            >(vstd::utf8::encode_utf8(tr_info@)),
{
    assert(signature::is_key_pair(private_key, public_key@));
    encryption::information_is_recovered(tr_info@, public_key@, encrypted@, private_key);
}

/// Decryption gives what the curve library gives with that key, of that ciphertext, under some
/// settings.
pub proof fn decryption_gives_the_message(
    ciphertext: &[u8],
    private_key: &[u8],
    res: Result<Vec<u8>, Error>,
)
    requires
        call_ensures(decrypt_tr_info, (ciphertext, private_key), res),
    ensures
        exists|e: bool, h: bool|
            match (#[trigger] encryption::ecies_decrypted(e, h, private_key@, ciphertext@)) {
                Ok(message) => res matches Ok(bytes) && bytes@ == message,
                Err(failure) => res matches Err(error) && error == Error::EciesSecp256k1Error(
                    failure,
                ),
            },
{
    let decrypted = choose|decrypted: Result<Seq<u8>, SecpError>|
        encryption::may_decrypt_to(private_key@, ciphertext@, decrypted)
            && crate::error::outcome(res) == #[trigger] encryption::decryption_outcome(decrypted);
    let (e, h) = choose|e: bool, h: bool|
        decrypted == #[trigger] encryption::ecies_decrypted(e, h, private_key@, ciphertext@);
    assert(encryption::ecies_decrypted(e, h, private_key@, ciphertext@) == decrypted);
}

/// The signature on a request is accepted exactly if it is one of `address|nonce|timestamp`
/// under the key, whatever else the request says.
pub proof fn request_accepted_exactly_if_signed(
    query: UmaLnurlpRequest,
    public_key: &[u8],
    res: Result<(), Error>,
)
    requires
        call_ensures(verify_uma_lnurlp_query_signature, (query, public_key), res),
    ensures
        res is Ok <==> (hexadecimal::hex_bytes(query.signature@) matches Some(der)
            && signature::signature_of_der(der) matches Ok(sig)
            && signature::public_key_of_bytes(public_key@) matches Ok(key)
            && signature::ecdsa_verifies(
            signature::sha256_digest(
                vstd::utf8::encode_utf8(
                    query.receiver_address@ + seq!['|'] + query.nonce@ + seq!['|']
                        + text::decimal_int(query.timestamp as int),
                ),
            ),
            sig,
            key,
        )),
{
}

/// The signature on an answer is accepted exactly if the answer has all that the protocol asks
/// for and the signature is one of `identifier|nonce|timestamp` under the key, whatever else the
/// answer says.
pub proof fn answer_accepted_exactly_if_signed(
    response: &LnurlpResponse,
    public_key: &[u8],
    res: Result<(), Error>,
)
    requires
        call_ensures(verify_uma_lnurlp_response_signature, (response, public_key), res),
    ensures
        res is Ok <==> {
            &&& response.currencies is Some
            &&& response.required_payer_data is Some
            &&& response.uma_version is Some
            &&& response.compliance matches Some(c)
            &&& hexadecimal::hex_bytes(c.signature@) matches Some(der)
            &&& signature::signature_of_der(der) matches Ok(sig)
            &&& signature::public_key_of_bytes(public_key@) matches Ok(key)
            &&& signature::ecdsa_verifies(
                signature::sha256_digest(
                    vstd::utf8::encode_utf8(
                        c.receiver_identifier@ + seq!['|'] + c.nonce@ + seq!['|']
                            + text::decimal_int(c.timestamp as int),
                    ),
                ),
                sig,
                key,
            )
        },
        res matches Err(e) ==> (e is InvalidResponse <==> (response.currencies is None
            || response.required_payer_data is None || response.uma_version is None
            || response.compliance is None)),
{
}

/// The signature on a pay request is accepted exactly if the payer data holds an identifier and
/// compliance data, and the signature in them is one of `identifier|nonce|timestamp` under the
/// key, whatever else the request says.
pub proof fn pay_request_accepted_exactly_if_signed(
    request: &PayRequest,
    public_key: &[u8],
    res: Result<(), Error>,
)
    requires
        call_ensures(verify_pay_req_signature, (request, public_key), res),
    ensures
        res is Ok <==> {
            &&& request.payer_data matches Some(data)
            &&& json::json_view(data.0) matches Json::Object(m)
            &&& m.dom().contains("identifier"@)
            &&& m["identifier"@] matches Json::Text(identifier)
            &&& m.dom().contains("compliance"@)
            &&& CompliancePayerDataView::read(m["compliance"@]) matches Some(c)
            &&& hexadecimal::hex_bytes(c.signature) matches Some(der)
            &&& signature::signature_of_der(der) matches Ok(sig)
            &&& signature::public_key_of_bytes(public_key@) matches Ok(key)
            &&& signature::ecdsa_verifies(
                signature::sha256_digest(
                    vstd::utf8::encode_utf8(
                        identifier + seq!['|'] + c.signature_nonce + seq!['|']
                            + text::decimal_int(c.signature_timestamp as int),
                    ),
                ),
                sig,
                key,
            )
        },
        request.payer_data is None ==> (res matches Err(e) && e == Error::ProtocolError(
            protocol::Error::MissingPayerData,
        )),
{
}

/// Checking a request, an answer or a pay request that holds a signature on a payload gives what
/// checking that signature on that payload gives, errors and all.
pub proof fn messages_are_checked_by_their_signatures(
    query: UmaLnurlpRequest,
    response: &LnurlpResponse,
    request: &PayRequest,
    public_key: &[u8],
    of_query: Result<(), Error>,
    of_response: Result<(), Error>,
    of_request: Result<(), Error>,
    identifier: Seq<char>,
    nonce: Seq<char>,
    timestamp: i64,
    payload: &[u8],
    signature: &str,
    checked: Result<(), Error>,
)
    requires
        call_ensures(verify_uma_lnurlp_query_signature, (query, public_key), of_query),
        call_ensures(verify_uma_lnurlp_response_signature, (response, public_key), of_response),
        call_ensures(verify_pay_req_signature, (request, public_key), of_request),
        call_ensures(verify_ecdsa, (payload, signature, public_key), checked),
        payload@ == vstd::utf8::encode_utf8(
            identifier + seq!['|'] + nonce + seq!['|'] + text::decimal_int(timestamp as int),
        ),
    ensures
        query.receiver_address@ == identifier && query.nonce@ == nonce && query.timestamp
            == timestamp && query.signature@ == signature@ ==> same_verdict(of_query, checked),
        response.currencies is Some && response.required_payer_data is Some
            && response.uma_version is Some ==> (response.compliance matches Some(c) ==> (
        c.receiver_identifier@ == identifier && c.nonce@ == nonce && c.timestamp == timestamp
            && c.signature@ == signature@ ==> same_verdict(of_response, checked))),
        request.payer_data matches Some(data) ==> (json::json_view(data.0) matches Json::Object(m)
            ==> (m.dom().contains("identifier"@) && m["identifier"@] == Json::Text(identifier)
            && m.dom().contains("compliance"@) ==> (CompliancePayerDataView::read(
            m["compliance"@],
        ) matches Some(c) ==> (c.signature_nonce == nonce && c.signature_timestamp == timestamp
            && c.signature == signature@ ==> same_verdict(of_request, checked))))),
{
}

/// Whether two checks end alike: both accept, or both refuse for the same reason.
pub open spec fn same_verdict(a: Result<(), Error>, b: Result<(), Error>) -> bool {
    match (a, b) {
        (Ok(_), Ok(_)) => true,
        (Err(e), Err(f)) => e@ == f@,
        _ => false,
    }
}

/// A pay request without an identifier, without compliance data or with compliance data that
/// cannot be read is refused for the first of these.
pub proof fn incomplete_pay_request_is_refused(
    request: &PayRequest,
    public_key: &[u8],
    res: Result<(), Error>,
)
    requires
        call_ensures(verify_pay_req_signature, (request, public_key), res),
    ensures
        request.payer_data matches Some(data) ==> {
            let j = json::json_view(data.0);
            let named = {
                &&& j matches Json::Object(m)
                &&& m.dom().contains("identifier"@)
                &&& m["identifier"@] is Text
            };
            let claimed = {
                &&& j matches Json::Object(m)
                &&& m.dom().contains("compliance"@)
                &&& !(m["compliance"@] is Null)
            };
            &&& !named ==> (res matches Err(e) && e == Error::ProtocolError(
                protocol::Error::MissingPayerDataIdentifier,
            ))
            &&& named && !claimed ==> (res matches Err(e) && e == Error::ProtocolError(
                protocol::Error::MissingPayerDataCompliance,
            ))
            &&& named && claimed && CompliancePayerDataView::read(
                j->Object_0["compliance"@],
            ) is None ==> (res matches Err(e) && e == Error::ProtocolError(
                protocol::Error::InvalidPayerDataCompliance,
            ))
        },
{
}

} // verus!
