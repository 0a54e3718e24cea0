//! The answer to the request that opens a payment.
use vstd::prelude::*;

use crate::ambient;
use crate::error;
use crate::error::{Error, ErrorView};
use crate::protocol::counter_party_data::CounterPartyDataOptions;
use crate::protocol::currency;
use crate::protocol::currency::{Currency, CurrencyView};
use crate::protocol::kyc_status::KycStatus;
use crate::protocol::lnurl_request::{LnurlpRequest, LnurlpRequestView};
use crate::protocol::lnurl_response::{
    LnurlComplianceResponse, LnurlComplianceResponseView, LnurlpResponse, LnurlpResponseView,
};
use crate::signature;
use crate::text;
use crate::uma::nonce;
use crate::version;

verus! {

/// Compliance data about a receiver with its signature, or why there is none.
pub open spec fn signed_compliance(
    receiver_address: Seq<char>,
    private_key: Seq<u8>,
    is_subject_to_travel_rule: bool,
    kyc_status: KycStatus,
    nonce: Seq<char>,
    timestamp: i64,
) -> Result<LnurlComplianceResponseView, ErrorView> {
    match signature::signed(text::payload_bytes(receiver_address, nonce, timestamp), private_key) {
        Err(e) => Err(e),
        Ok(signature) => Ok(
            LnurlComplianceResponseView {
                kyc_status,
                signature,
                nonce,
                timestamp,
                is_subject_to_travel_rule,
                receiver_identifier: receiver_address,
            },
        ),
    }
}

/// What a receiver offers in its answer.
pub struct OfferView {
    pub callback: Seq<char>,
    pub encoded_metadata: Seq<char>,
    pub min_sendable_sats: i64,
    pub max_sendable_sats: i64,
    pub payer_data_options: Seq<(Seq<char>, bool)>,
    pub currency_options: Seq<CurrencyView>,
    pub comment_chars_allowed: Option<i64>,
    pub nostr_pubkey: Option<Seq<char>>,
}

/// The answer to a request, or why there is none. The signature comes first; then the version
/// of the request is asked for, and the lower of it and the latest is taken. Amounts in
/// satoshis become millisatoshis. Nostr is allowed where its public key is given.
pub open spec fn answer(
    query: LnurlpRequestView,
    private_key: Seq<u8>,
    requires_travel_rule_info: bool,
    kyc_status: KycStatus,
    offer: OfferView,
    nonce: Seq<char>,
    timestamp: i64,
) -> Result<LnurlpResponseView, ErrorView> {
    match signed_compliance(
        query.receiver_address,
        private_key,
        requires_travel_rule_info,
        kyc_status,
        nonce,
        timestamp,
    ) {
        Err(e) => Err(e),
        Ok(compliance) => match query.uma_version {
            None => Err(ErrorView::InvalidVersion),
            Some(query_version) => match version::lower_version(query_version, "1.0"@) {
                None => Err(ErrorView::InvalidVersion),
                Some(uma_version) => Ok(
                    LnurlpResponseView {
                        tag: "payRequest"@,
                        callback: offer.callback,
                        min_sendable: (offer.min_sendable_sats * 1000) as i64,
                        max_sendable: (offer.max_sendable_sats * 1000) as i64,
                        encoded_metadata: offer.encoded_metadata,
                        currencies: Some(offer.currency_options),
                        required_payer_data: Some(offer.payer_data_options),
                        compliance: Some(compliance),
                        uma_version: Some(uma_version),
                        comment_chars_allowed: offer.comment_chars_allowed,
                        nostr_pubkey: offer.nostr_pubkey,
                        allows_nostr: if offer.nostr_pubkey is Some {
                            Some(true)
                        } else {
                            None
                        },
                    },
                ),
            },
        },
    }
}

/// Whether a request gets an answer: the key signs, and the request is in a version that can
/// be compared with the latest.
pub open spec fn is_answerable(query: LnurlpRequestView, private_key: Seq<u8>) -> bool {
    signature::is_secret_key(private_key) && (query.uma_version matches Some(v)
        && version::lower_version(v, "1.0"@) is Some)
}

/// Whether an answer has all that the protocol asks for, and its signature is accepted under
/// each public key that belongs to a private one.
pub open spec fn answer_verifies(response: LnurlpResponseView, private_key: Seq<u8>) -> bool {
    response.uma() matches Some(uma) && signature::verifies_for_signer(
        uma.compliance.signable(),
        uma.compliance.signature,
        private_key,
    )
}

/// What checking the signature on an answer gives.
pub open spec fn verified_answer(response: LnurlpResponseView, public_key: Seq<u8>) -> Result<
    (),
    ErrorView,
> {
    match response.uma() {
        None => Err(ErrorView::InvalidResponse),
        Some(uma) => signature::verified(
            uma.compliance.signable(),
            uma.compliance.signature,
            public_key,
        ),
    }
}

/// An answer that verifies for its signer is accepted under the signer's public key.
pub proof fn verified_answer_for_signer(
    response: LnurlpResponseView,
    private_key: Seq<u8>,
    public_key: Seq<u8>,
)
    requires
        answer_verifies(response, private_key),
        signature::is_key_pair(private_key, public_key),
    ensures
        verified_answer(response, public_key) is Ok,
{
}

/// The version of an answer is no later than that of the request and the latest one.
pub proof fn answer_version_is_least(
    query: LnurlpRequestView,
    private_key: Seq<u8>,
    requires_travel_rule_info: bool,
    kyc_status: KycStatus,
    offer: OfferView,
    nonce: Seq<char>,
    timestamp: i64,
)
    ensures
        answer(
            query,
            private_key,
            requires_travel_rule_info,
            kyc_status,
            offer,
            nonce,
            timestamp,
        ) matches Ok(response) ==> {
            let chosen = version::version_of(response.uma_version->0)->0;
            &&& chosen.at_most(version::version_of(query.uma_version->0)->0)
            &&& chosen.at_most(version::version_of("1.0"@)->0)
        },
{
    if let Some(v) = query.uma_version {
        version::lower_version_is_least(v, "1.0"@);
    }
}

/// Makes compliance data about a receiver and signs it, with a nonce and a time that are
/// given.
fn get_signed_compliance_response(
    query: &LnurlpRequest,
    private_key_bytes: &[u8],
    is_subject_to_travel_rule: bool,
    receiver_kyc_status: KycStatus,
    nonce: &str,
    timestamp: i64,
) -> (res: Result<LnurlComplianceResponse, Error>)
    ensures
        error::outcome(res) == signed_compliance(
            query@.receiver_address,
            private_key_bytes@,
            is_subject_to_travel_rule,
            receiver_kyc_status,
            nonce@,
            timestamp,
        ),
        res matches Ok(compliance) ==> signature::verifies_for_signer(
            compliance@.signable(),
            compliance@.signature,
            private_key_bytes@,
        ),
{
    let payload = text::payload(query.receiver_address.as_str(), nonce, timestamp);
    match signature::sign_payload(payload.as_slice(), private_key_bytes) {
        Ok(signature) => Ok(
            LnurlComplianceResponse {
                kyc_status: receiver_kyc_status,
                signature,
                nonce: nonce.to_owned(),
                timestamp,
                is_subject_to_travel_rule,
                receiver_identifier: query.receiver_address.clone(),
            },
        ),
        Err(e) => Err(e),
    }
}

/// Makes the signed answer to a request, with a nonce and a time that are given.
///
/// The answer has all that the protocol asks for, and its signature verifies under the public
/// key that belongs to the private one.
pub fn lnurlp_response_with(
    query: &LnurlpRequest,
    private_key_bytes: &[u8],
    requires_travel_rule_info: bool,
    callback: &str,
    encoded_metadata: &str,
    min_sendable_sats: i64,
    max_sendable_sats: i64,
    payer_data_options: &CounterPartyDataOptions,
    currency_options: &[Currency],
    receiver_kyc_status: KycStatus,
    comment_chars_allowed: Option<i64>,
    nostr_pubkey: Option<String>,
    nonce: &str,
    timestamp: i64,
) -> (res: Result<LnurlpResponse, Error>)
    requires
        is_answerable(query@, private_key_bytes@) ==> i64::MIN <= min_sendable_sats * 1000
            <= i64::MAX && i64::MIN <= max_sendable_sats * 1000 <= i64::MAX,
    ensures
        error::outcome(res) == answer(
            query@,
            private_key_bytes@,
            requires_travel_rule_info,
            receiver_kyc_status,
            (OfferView {
                callback: callback@,
                encoded_metadata: encoded_metadata@,
                min_sendable_sats,
                max_sendable_sats,
                payer_data_options: payer_data_options@,
                currency_options: currency::currency_views(currency_options@),
                comment_chars_allowed,
                nostr_pubkey: text::opt_text(nostr_pubkey),
            }),
            nonce@,
            timestamp,
        ),
        res matches Ok(response) ==> answer_verifies(response@, private_key_bytes@),
{
    let compliance = match get_signed_compliance_response(
        query,
        private_key_bytes,
        requires_travel_rule_info,
        receiver_kyc_status,
        nonce,
        timestamp,
    ) {
        Ok(compliance) => compliance,
        Err(e) => {
            return Err(e);
        },
    };
    let query_version = match &query.uma_version {
        Some(query_version) => query_version,
        None => {
            return Err(Error::InvalidVersion);
        },
    };
    let latest = version::uma_protocol_version();
    let uma_version = match version::select_lower_version(query_version.as_str(), latest.as_str()) {
        Ok(uma_version) => uma_version,
        Err(_) => {
            return Err(Error::InvalidVersion);
        },
    };
    let allows_nostr: Option<bool> = if nostr_pubkey.is_some() {
        Some(true)
    } else {
        None
    };
    Ok(
        LnurlpResponse {
            tag: "payRequest".to_owned(),
            callback: callback.to_owned(),
            min_sendable: min_sendable_sats * 1000,
            max_sendable: max_sendable_sats * 1000,
            encoded_metadata: encoded_metadata.to_owned(),
            currencies: Some(currency::copy_currencies(currency_options)),
            required_payer_data: Some(payer_data_options.clone()),
            compliance: Some(compliance),
            uma_version: Some(uma_version),
            comment_chars_allowed,
            nostr_pubkey,
            allows_nostr,
        },
    )
}

/// Makes the signed answer to a request.
pub fn get_lnurlp_response(
    query: &LnurlpRequest,
    private_key_bytes: &[u8],
    requires_travel_rule_info: bool,
    callback: &str,
    encoded_metadata: &str,
    min_sendable_sats: i64,
    max_sendable_sats: i64,
    payer_data_options: &CounterPartyDataOptions,
    currency_options: &[Currency],
    receiver_kyc_status: KycStatus,
    comment_chars_allowed: Option<i64>,
    nostr_pubkey: Option<String>,
) -> (res: Result<LnurlpResponse, Error>)
    requires
        is_answerable(query@, private_key_bytes@) ==> i64::MIN <= min_sendable_sats * 1000
            <= i64::MAX && i64::MIN <= max_sendable_sats * 1000 <= i64::MAX,
    ensures
        exists|nonce: Seq<char>, timestamp: i64|
            nonce::is_nonce(nonce) && ambient::is_clock_reading(timestamp) && error::outcome(
                res,
            ) == #[trigger] answer(
                query@,
                private_key_bytes@,
                requires_travel_rule_info,
                receiver_kyc_status,
                (OfferView {
                    callback: callback@,
                    encoded_metadata: encoded_metadata@,
                    min_sendable_sats,
                    max_sendable_sats,
                    payer_data_options: payer_data_options@,
                    currency_options: currency::currency_views(currency_options@),
                    comment_chars_allowed,
                    nostr_pubkey: text::opt_text(nostr_pubkey),
                }),
                nonce,
                timestamp,
            ),
        res matches Ok(response) ==> answer_verifies(response@, private_key_bytes@),
{
    let timestamp: i64 = ambient::now();
    let nonce = nonce::generate_nonce();
    lnurlp_response_with(
        query,
        private_key_bytes,
        requires_travel_rule_info,
        callback,
        encoded_metadata,
        min_sendable_sats,
        max_sendable_sats,
        payer_data_options,
        currency_options,
        receiver_kyc_status,
        comment_chars_allowed,
        nostr_pubkey,
        nonce.as_str(),
        timestamp,
    )
}

/// Checks the signature on an answer, with the public key of the VASP that gave it.
///
/// # Arguments
///
/// * `response` - the signed response to verify.
/// * `other_vasp_pub_key` - the bytes of the signing public key of the VASP making this
///   request.
pub fn verify_uma_lnurlp_response_signature(
    response: &LnurlpResponse,
    other_vasp_pub_key: &[u8],
) -> (res: Result<(), Error>)
    ensures
        error::outcome(res) == verified_answer(response@, other_vasp_pub_key@),
{
    match response.as_uma_response() {
        Some(uma_response) => {
            let payload = uma_response.signable_payload();
            signature::verify_ecdsa(
                payload.as_slice(),
                uma_response.compliance.signature.as_str(),
                other_vasp_pub_key,
            )
        },
        None => Err(Error::InvalidResponse),
    }
}

} // verus!
