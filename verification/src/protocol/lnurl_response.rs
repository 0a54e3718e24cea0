//! The answer to a request about a receiver.
use vstd::prelude::*;

use crate::protocol::counter_party_data;
use crate::protocol::counter_party_data::CounterPartyDataOptions;
use crate::protocol::currency;
use crate::protocol::currency::{Currency, CurrencyView};
use crate::protocol::kyc_status::KycStatus;
use crate::text;

verus! {

/// What a receiver tells for the compliance checks of the sender.
#[derive(Debug)]
pub struct LnurlComplianceResponse {
    pub kyc_status: KycStatus,
    /// The hexadecimal signature on the identifier, the nonce and the timestamp.
    pub signature: String,
    pub nonce: String,
    /// The time of the signature, in seconds since the epoch.
    pub timestamp: i64,
    /// Whether the receiving VASP is bound by the travel rule.
    pub is_subject_to_travel_rule: bool,
    /// The address of the receiver.
    pub receiver_identifier: String,
}

/// An [`LnurlComplianceResponse`] with its strings as sequences of characters.
pub struct LnurlComplianceResponseView {
    pub kyc_status: KycStatus,
    pub signature: Seq<char>,
    pub nonce: Seq<char>,
    pub timestamp: i64,
    pub is_subject_to_travel_rule: bool,
    pub receiver_identifier: Seq<char>,
}

/// The answer to a request about a receiver.
#[derive(Debug)]
pub struct LnurlpResponse {
    pub tag: String,
    /// The URL that the pay request is sent to.
    pub callback: String,
    /// The least amount that can be sent, in millisatoshis.
    pub min_sendable: i64,
    /// The greatest amount that can be sent, in millisatoshis.
    pub max_sendable: i64,
    /// The metadata of the receiver, as JSON text.
    pub encoded_metadata: String,
    pub currencies: Option<Vec<Currency>>,
    /// The data about the payer that the receiver asks for.
    pub required_payer_data: Option<CounterPartyDataOptions>,
    pub compliance: Option<LnurlComplianceResponse>,
    /// The version of the protocol that both sides speak.
    pub uma_version: Option<String>,
    pub comment_chars_allowed: Option<i64>,
    pub nostr_pubkey: Option<String>,
    pub allows_nostr: Option<bool>,
}

/// An [`LnurlpResponse`] with its strings as sequences of characters.
#[verifier::ext_equal]
pub struct LnurlpResponseView {
    pub tag: Seq<char>,
    pub callback: Seq<char>,
    pub min_sendable: i64,
    pub max_sendable: i64,
    pub encoded_metadata: Seq<char>,
    pub currencies: Option<Seq<CurrencyView>>,
    pub required_payer_data: Option<Seq<(Seq<char>, bool)>>,
    pub compliance: Option<LnurlComplianceResponseView>,
    pub uma_version: Option<Seq<char>>,
    pub comment_chars_allowed: Option<i64>,
    pub nostr_pubkey: Option<Seq<char>>,
    pub allows_nostr: Option<bool>,
}

/// An [`LnurlpResponse`] that has all that the protocol asks for.
#[derive(Debug)]
pub struct UmaLnurlpResponse {
    pub tag: String,
    pub callback: String,
    pub min_sendable: i64,
    pub max_sendable: i64,
    pub encoded_metadata: String,
    pub currencies: Vec<Currency>,
    pub required_payer_data: CounterPartyDataOptions,
    pub compliance: LnurlComplianceResponse,
    pub uma_version: String,
    pub comment_chars_allowed: Option<i64>,
    pub nostr_pubkey: Option<String>,
    pub allows_nostr: Option<bool>,
}

/// A [`UmaLnurlpResponse`] with its strings as sequences of characters.
#[verifier::ext_equal]
pub struct UmaLnurlpResponseView {
    pub tag: Seq<char>,
    pub callback: Seq<char>,
    pub min_sendable: i64,
    pub max_sendable: i64,
    pub encoded_metadata: Seq<char>,
    pub currencies: Seq<CurrencyView>,
    pub required_payer_data: Seq<(Seq<char>, bool)>,
    pub compliance: LnurlComplianceResponseView,
    pub uma_version: Seq<char>,
    pub comment_chars_allowed: Option<i64>,
    pub nostr_pubkey: Option<Seq<char>>,
    pub allows_nostr: Option<bool>,
}

impl View for LnurlComplianceResponse {
    type V = LnurlComplianceResponseView;

    open spec fn view(&self) -> LnurlComplianceResponseView {
        LnurlComplianceResponseView {
            kyc_status: self.kyc_status,
            signature: self.signature@,
            nonce: self.nonce@,
            timestamp: self.timestamp,
            is_subject_to_travel_rule: self.is_subject_to_travel_rule,
            receiver_identifier: self.receiver_identifier@,
        }
    }
}

impl Clone for LnurlComplianceResponse {
    fn clone(&self) -> (res: Self)
        ensures
            res@ == self@,
    {
        LnurlComplianceResponse {
            kyc_status: self.kyc_status,
            signature: self.signature.clone(),
            nonce: self.nonce.clone(),
            timestamp: self.timestamp,
            is_subject_to_travel_rule: self.is_subject_to_travel_rule,
            receiver_identifier: self.receiver_identifier.clone(),
        }
    }
}

/// The view of currencies that may be missing.
pub open spec fn opt_currencies(o: Option<Vec<Currency>>) -> Option<Seq<CurrencyView>> {
    match o {
        Some(v) => Some(currency::currency_views(v@)),
        None => None,
    }
}

/// The view of compliance data that may be missing.
pub open spec fn opt_compliance(o: Option<LnurlComplianceResponse>) -> Option<
    LnurlComplianceResponseView,
> {
    match o {
        Some(c) => Some(c@),
        None => None,
    }
}

impl View for LnurlpResponse {
    type V = LnurlpResponseView;

    open spec fn view(&self) -> LnurlpResponseView {
        LnurlpResponseView {
            tag: self.tag@,
            callback: self.callback@,
            min_sendable: self.min_sendable,
            max_sendable: self.max_sendable,
            encoded_metadata: self.encoded_metadata@,
            currencies: opt_currencies(self.currencies),
            required_payer_data: counter_party_data::opt_options(self.required_payer_data),
            compliance: opt_compliance(self.compliance),
            uma_version: text::opt_text(self.uma_version),
            comment_chars_allowed: self.comment_chars_allowed,
            nostr_pubkey: text::opt_text(self.nostr_pubkey),
            allows_nostr: self.allows_nostr,
        }
    }
}

impl View for UmaLnurlpResponse {
    type V = UmaLnurlpResponseView;

    open spec fn view(&self) -> UmaLnurlpResponseView {
        UmaLnurlpResponseView {
            tag: self.tag@,
            callback: self.callback@,
            min_sendable: self.min_sendable,
            max_sendable: self.max_sendable,
            encoded_metadata: self.encoded_metadata@,
            currencies: currency::currency_views(self.currencies@),
            required_payer_data: self.required_payer_data@,
            compliance: self.compliance@,
            uma_version: self.uma_version@,
            comment_chars_allowed: self.comment_chars_allowed,
            nostr_pubkey: text::opt_text(self.nostr_pubkey),
            allows_nostr: self.allows_nostr,
        }
    }
}

impl LnurlComplianceResponseView {
    /// The bytes that are signed: `identifier|nonce|timestamp`.
    pub open spec fn signable(self) -> Seq<u8> {
        text::payload_bytes(self.receiver_identifier, self.nonce, self.timestamp)
    }
}

impl LnurlpResponseView {
    /// The answer as one that has all that the protocol asks for.
    pub open spec fn uma(self) -> Option<UmaLnurlpResponseView> {
        match (self.currencies, self.required_payer_data, self.compliance, self.uma_version) {
            (
                Some(currencies),
                Some(required_payer_data),
                Some(compliance),
                Some(uma_version),
            ) => Some(
                UmaLnurlpResponseView {
                    tag: self.tag,
                    callback: self.callback,
                    min_sendable: self.min_sendable,
                    max_sendable: self.max_sendable,
                    encoded_metadata: self.encoded_metadata,
                    currencies,
                    required_payer_data,
                    compliance,
                    uma_version,
                    comment_chars_allowed: self.comment_chars_allowed,
                    nostr_pubkey: self.nostr_pubkey,
                    allows_nostr: self.allows_nostr,
                },
            ),
            _ => None,
        }
    }
}

impl LnurlpResponse {
    /// The answer as one that has all that the protocol asks for.
    pub fn as_uma_response(&self) -> (res: Option<UmaLnurlpResponse>)
        ensures
            match res {
                Some(r) => self@.uma() == Some(r@),
                None => self@.uma() is None,
            },
    {
        match (&self.currencies, &self.required_payer_data, &self.compliance, &self.uma_version) {
            (
                Some(currencies),
                Some(required_payer_data),
                Some(compliance),
                Some(uma_version),
            ) => Some(
                UmaLnurlpResponse {
                    tag: self.tag.clone(),
                    callback: self.callback.clone(),
                    min_sendable: self.min_sendable,
                    max_sendable: self.max_sendable,
                    encoded_metadata: self.encoded_metadata.clone(),
                    currencies: currency::copy_currencies(currencies.as_slice()),
                    required_payer_data: required_payer_data.clone(),
                    compliance: compliance.clone(),
                    uma_version: uma_version.clone(),
                    comment_chars_allowed: self.comment_chars_allowed,
                    nostr_pubkey: text::copy_opt(&self.nostr_pubkey),
                    allows_nostr: self.allows_nostr,
                },
            ),
            _ => None,
        }
    }
}

impl UmaLnurlpResponse {
    /// The bytes that are signed: `identifier|nonce|timestamp`.
    pub fn signable_payload(&self) -> (res: Vec<u8>)
        ensures
            res@ == self@.compliance.signable(),
    {
        text::payload(
            self.compliance.receiver_identifier.as_str(),
            self.compliance.nonce.as_str(),
            self.compliance.timestamp,
        )
    }
}

} // verus!
