//! Laws on the answer to the request that opens a payment.
use vstd::prelude::*;

use crate::ambient;
use crate::error::Error;
use crate::hexadecimal;
use crate::protocol::counter_party_data::CounterPartyDataOptions;
use crate::protocol::currency;
use crate::protocol::currency::Currency;
use crate::protocol::kyc_status::KycStatus;
use crate::protocol::lnurl_request::LnurlpRequest;
use crate::protocol::lnurl_response::LnurlpResponse;
use crate::signature;
use crate::text;
use crate::uma::response::{get_lnurlp_response, lnurlp_response_with};
use crate::version;

verus! {

/// An answer with a given nonce and time tells what the receiver offers: each text, amount and
/// setting as it was given, with satoshis as millisatoshis.
pub proof fn answer_tells_the_offer(
    query: &LnurlpRequest,
    private_key_bytes: &[u8],
    requires_travel_rule_info: bool,
    callback: &str,
    encoded_metadata: &str,
    min_sendable_sats: i64,
    max_sendable_sats: i64,
    payer_data_options: &CounterPartyDataOptions,
    currency_options: &[Currency],
    receiver_kyc_status: KycStatus,
    comment_chars_allowed: Option<i64>,
    nostr_pubkey: Option<String>,
    nonce: &str,
    timestamp: i64,
    response: LnurlpResponse,
)
    requires
        i64::MIN <= min_sendable_sats * 1000 <= i64::MAX,
        i64::MIN <= max_sendable_sats * 1000 <= i64::MAX,
        call_ensures(
            lnurlp_response_with,
            (
                query,
                private_key_bytes,
                requires_travel_rule_info,
                callback,
                encoded_metadata,
                min_sendable_sats,
                max_sendable_sats,
                payer_data_options,
                currency_options,
                receiver_kyc_status,
                comment_chars_allowed,
                nostr_pubkey,
                nonce,
                timestamp,
            ),
            Ok(response),
        ),
    ensures
        response.tag@ == "payRequest"@,
        response.callback@ == callback@,
        response.encoded_metadata@ == encoded_metadata@,
        response.min_sendable == min_sendable_sats * 1000,
        response.max_sendable == max_sendable_sats * 1000,
        response.comment_chars_allowed == comment_chars_allowed,
        response.nostr_pubkey is Some <==> nostr_pubkey is Some,
        nostr_pubkey matches Some(key) ==> response.nostr_pubkey->0@ == key@,
        response.allows_nostr == (if nostr_pubkey is Some {
            Some(true)
        } else {
            None
        }),
{
}

/// An answer with a given nonce and time tells each currency and each piece of payer data as
/// they were given, in their order.
pub proof fn answer_tells_the_options(
    query: &LnurlpRequest,
    private_key_bytes: &[u8],
    requires_travel_rule_info: bool,
    callback: &str,
    encoded_metadata: &str,
    min_sendable_sats: i64,
    max_sendable_sats: i64,
    payer_data_options: &CounterPartyDataOptions,
    currency_options: &[Currency],
    receiver_kyc_status: KycStatus,
    comment_chars_allowed: Option<i64>,
    nostr_pubkey: Option<String>,
    nonce: &str,
    timestamp: i64,
    response: LnurlpResponse,
)
    requires
        call_ensures(
            lnurlp_response_with,
            (
                query,
                private_key_bytes,
                requires_travel_rule_info,
                callback,
                encoded_metadata,
                min_sendable_sats,
                max_sendable_sats,
                payer_data_options,
                currency_options,
                receiver_kyc_status,
                comment_chars_allowed,
                nostr_pubkey,
                nonce,
                timestamp,
            ),
            Ok(response),
        ),
    ensures
        response.currencies matches Some(v) && v@.len() == currency_options@.len(),
        forall|i: int|
            0 <= i < currency_options@.len() ==> {
                let told = response.currencies->0@[i];
                let given = #[trigger] currency_options@[i];
                &&& told.code@ == given.code@
                &&& told.name@ == given.name@
                &&& told.symbol@ == given.symbol@
                &&& told.millisatoshi_per_unit_bits == given.millisatoshi_per_unit_bits
                &&& told.min_sendable == given.min_sendable
                &&& told.max_sendable == given.max_sendable
                &&& told.decimals == given.decimals
            },
        response.required_payer_data matches Some(o) && o.options@.len()
            == payer_data_options.options@.len(),
        forall|i: int|
            0 <= i < payer_data_options.options@.len() ==> {
                let told = response.required_payer_data->0.options@[i];
                let given = #[trigger] payer_data_options.options@[i];
                &&& told.name@ == given.name@
                &&& told.mandatory == given.mandatory
            },
{
    let told = response.currencies->0@;
    assert(currency::currency_views(told) == currency::currency_views(currency_options@));
    assert(told.len() == currency::currency_views(told).len());
    assert forall|i: int| 0 <= i < currency_options@.len() implies told[i]@
        == (#[trigger] currency_options@[i])@ by {
        assert(currency::currency_views(told)[i] == told[i]@);
    }
    let asked = response.required_payer_data->0;
    assert(asked@ == payer_data_options@);
    assert(asked.options@.len() == asked@.len());
    assert forall|i: int| 0 <= i < payer_data_options.options@.len() implies asked.options@[i]@
        == (#[trigger] payer_data_options.options@[i])@ by {
        assert(asked@[i] == asked.options@[i]@);
    }
}

/// An answer with a given nonce and time tells the status and the flag of the receiver as
/// they were given, the address of the request, the nonce and the time, and is signed over these
/// with the private key.
pub proof fn answer_tells_compliance(
    query: &LnurlpRequest,
    private_key_bytes: &[u8],
    requires_travel_rule_info: bool,
    callback: &str,
    encoded_metadata: &str,
    min_sendable_sats: i64,
    max_sendable_sats: i64,
    payer_data_options: &CounterPartyDataOptions,
    currency_options: &[Currency],
    receiver_kyc_status: KycStatus,
    comment_chars_allowed: Option<i64>,
    nostr_pubkey: Option<String>,
    nonce: &str,
    timestamp: i64,
    response: LnurlpResponse,
)
    requires
        call_ensures(
            lnurlp_response_with,
            (
                query,
                private_key_bytes,
                requires_travel_rule_info,
                callback,
                encoded_metadata,
                min_sendable_sats,
                max_sendable_sats,
                payer_data_options,
                currency_options,
                receiver_kyc_status,
                comment_chars_allowed,
                nostr_pubkey,
                nonce,
                timestamp,
            ),
            Ok(response),
        ),
    ensures
        response.compliance matches Some(c) && {
            &&& c.kyc_status == receiver_kyc_status
            &&& c.is_subject_to_travel_rule == requires_travel_rule_info
            &&& c.receiver_identifier@ == query.receiver_address@
            &&& c.nonce@ == nonce@
            &&& c.timestamp == timestamp
            &&& c.signature@ == hexadecimal::hex_text(
                signature::ecdsa_der(
                    signature::sha256_digest(
                        vstd::utf8::encode_utf8(
                            query.receiver_address@ + seq!['|'] + nonce@ + seq!['|']
                                + text::decimal_int(timestamp as int),
                        ),
                    ),
                    private_key_bytes@,
                ),
            )
        },
{
}

/// An answer with a given nonce and time is in the version of the request where that is no
/// later than the latest, 1.0, and in the latest otherwise.
pub proof fn answer_is_in_the_lower_version(
    query: &LnurlpRequest,
    private_key_bytes: &[u8],
    requires_travel_rule_info: bool,
    callback: &str,
    encoded_metadata: &str,
    min_sendable_sats: i64,
    max_sendable_sats: i64,
    payer_data_options: &CounterPartyDataOptions,
    currency_options: &[Currency],
    receiver_kyc_status: KycStatus,
    comment_chars_allowed: Option<i64>,
    nostr_pubkey: Option<String>,
    nonce: &str,
    timestamp: i64,
    response: LnurlpResponse,
)
    requires
        call_ensures(
            lnurlp_response_with,
            (
                query,
                private_key_bytes,
                requires_travel_rule_info,
                callback,
                encoded_metadata,
                min_sendable_sats,
                max_sendable_sats,
                payer_data_options,
                currency_options,
                receiver_kyc_status,
                comment_chars_allowed,
                nostr_pubkey,
                nonce,
                timestamp,
            ),
            Ok(response),
        ),
    ensures
        ({
            &&& query.uma_version matches Some(asked)
            &&& text::cut_at_only(asked@, '.') matches Some((major, minor))
            &&& text::parsed_i64(major) matches Some(a)
            &&& text::parsed_i64(minor) matches Some(b)
            &&& response.uma_version matches Some(told)
            &&& told@ == if a < 1 || (a == 1 && b <= 0) {
                asked@
            } else {
                "1.0"@
            }
        }),
{
    lemma_latest_version();
}

/// An answer with a given nonce and time is given exactly if the private key is one and the
/// request has a version of the form `major.minor`. A bad key is reported first.
pub proof fn answer_is_given_exactly_if(
    query: &LnurlpRequest,
    private_key_bytes: &[u8],
    requires_travel_rule_info: bool,
    callback: &str,
    encoded_metadata: &str,
    min_sendable_sats: i64,
    max_sendable_sats: i64,
    payer_data_options: &CounterPartyDataOptions,
    currency_options: &[Currency],
    receiver_kyc_status: KycStatus,
    comment_chars_allowed: Option<i64>,
    nostr_pubkey: Option<String>,
    nonce: &str,
    timestamp: i64,
    res: Result<LnurlpResponse, Error>,
)
    requires
        call_ensures(
            lnurlp_response_with,
            (
                query,
                private_key_bytes,
                requires_travel_rule_info,
                callback,
                encoded_metadata,
                min_sendable_sats,
                max_sendable_sats,
                payer_data_options,
                currency_options,
                receiver_kyc_status,
                comment_chars_allowed,
                nostr_pubkey,
                nonce,
                timestamp,
            ),
            res,
        ),
    ensures
        ({
            let readable = {
                &&& query.uma_version matches Some(asked)
                &&& text::cut_at_only(asked@, '.') matches Some((major, minor))
                &&& text::parsed_i64(major) is Some
                &&& text::parsed_i64(minor) is Some
            };
            &&& res is Ok <==> signature::is_secret_key(private_key_bytes@) && readable
            &&& res matches Err(e) ==> if signature::is_secret_key(private_key_bytes@) {
                e is InvalidVersion
            } else {
                e == Error::Secp256k1Error(signature::secret_key_error(private_key_bytes@))
            }
        }),
{
    lemma_latest_version();
}

/// An answer of now tells what the receiver offers: each text, amount and
/// setting as it was given, with satoshis as millisatoshis.
pub proof fn answer_of_now_tells_the_offer(
    query: &LnurlpRequest,
    private_key_bytes: &[u8],
    requires_travel_rule_info: bool,
    callback: &str,
    encoded_metadata: &str,
    min_sendable_sats: i64,
    max_sendable_sats: i64,
    payer_data_options: &CounterPartyDataOptions,
    currency_options: &[Currency],
    receiver_kyc_status: KycStatus,
    comment_chars_allowed: Option<i64>,
    nostr_pubkey: Option<String>,
    response: LnurlpResponse,
)
    requires
        i64::MIN <= min_sendable_sats * 1000 <= i64::MAX,
        i64::MIN <= max_sendable_sats * 1000 <= i64::MAX,
        call_ensures(
            get_lnurlp_response,
            (
                query,
                private_key_bytes,
                requires_travel_rule_info,
                callback,
                encoded_metadata,
                min_sendable_sats,
                max_sendable_sats,
                payer_data_options,
                currency_options,
                receiver_kyc_status,
                comment_chars_allowed,
                nostr_pubkey,
            ),
            Ok(response),
        ),
    ensures
        response.tag@ == "payRequest"@,
        response.callback@ == callback@,
        response.encoded_metadata@ == encoded_metadata@,
        response.min_sendable == min_sendable_sats * 1000,
        response.max_sendable == max_sendable_sats * 1000,
        response.comment_chars_allowed == comment_chars_allowed,
        response.nostr_pubkey is Some <==> nostr_pubkey is Some,
        nostr_pubkey matches Some(key) ==> response.nostr_pubkey->0@ == key@,
        response.allows_nostr == (if nostr_pubkey is Some {
            Some(true)
        } else {
            None
        }),
{
}

/// An answer of now tells each currency and each piece of payer data as
/// they were given, in their order.
pub proof fn answer_of_now_tells_the_options(
    query: &LnurlpRequest,
    private_key_bytes: &[u8],
    requires_travel_rule_info: bool,
    callback: &str,
    encoded_metadata: &str,
    min_sendable_sats: i64,
    max_sendable_sats: i64,
    payer_data_options: &CounterPartyDataOptions,
    currency_options: &[Currency],
    receiver_kyc_status: KycStatus,
    comment_chars_allowed: Option<i64>,
    nostr_pubkey: Option<String>,
    response: LnurlpResponse,
)
    requires
        call_ensures(
            get_lnurlp_response,
            (
                query,
                private_key_bytes,
                requires_travel_rule_info,
                callback,
                encoded_metadata,
                min_sendable_sats,
                max_sendable_sats,
                payer_data_options,
                currency_options,
                receiver_kyc_status,
                comment_chars_allowed,
                nostr_pubkey,
            ),
            Ok(response),
        ),
    ensures
        response.currencies matches Some(v) && v@.len() == currency_options@.len(),
        forall|i: int|
            0 <= i < currency_options@.len() ==> {
                let told = response.currencies->0@[i];
                let given = #[trigger] currency_options@[i];
                &&& told.code@ == given.code@
                &&& told.name@ == given.name@
                &&& told.symbol@ == given.symbol@
                &&& told.millisatoshi_per_unit_bits == given.millisatoshi_per_unit_bits
                &&& told.min_sendable == given.min_sendable
                &&& told.max_sendable == given.max_sendable
                &&& told.decimals == given.decimals
            },
        response.required_payer_data matches Some(o) && o.options@.len()
            == payer_data_options.options@.len(),
        forall|i: int|
            0 <= i < payer_data_options.options@.len() ==> {
                let told = response.required_payer_data->0.options@[i];
                let given = #[trigger] payer_data_options.options@[i];
                &&& told.name@ == given.name@
                &&& told.mandatory == given.mandatory
            },
{
    let told = response.currencies->0@;
    assert(currency::currency_views(told) == currency::currency_views(currency_options@));
    assert(told.len() == currency::currency_views(told).len());
    assert forall|i: int| 0 <= i < currency_options@.len() implies told[i]@
        == (#[trigger] currency_options@[i])@ by {
        assert(currency::currency_views(told)[i] == told[i]@);
    }
    let asked = response.required_payer_data->0;
    assert(asked@ == payer_data_options@);
    assert(asked.options@.len() == asked@.len());
    assert forall|i: int| 0 <= i < payer_data_options.options@.len() implies asked.options@[i]@
        == (#[trigger] payer_data_options.options@[i])@ by {
        assert(asked@[i] == asked.options@[i]@);
    }
}

/// An answer of now tells the status and the flag of the receiver as they were given and the
/// address of the request. Its nonce was drawn, its time was read from the clock, and it is
/// signed over these with the private key.
pub proof fn answer_of_now_tells_compliance(
    query: &LnurlpRequest,
    private_key_bytes: &[u8],
    requires_travel_rule_info: bool,
    callback: &str,
    encoded_metadata: &str,
    min_sendable_sats: i64,
    max_sendable_sats: i64,
    payer_data_options: &CounterPartyDataOptions,
    currency_options: &[Currency],
    receiver_kyc_status: KycStatus,
    comment_chars_allowed: Option<i64>,
    nostr_pubkey: Option<String>,
    response: LnurlpResponse,
)
    requires
        call_ensures(
            get_lnurlp_response,
            (
                query,
                private_key_bytes,
                requires_travel_rule_info,
                callback,
                encoded_metadata,
                min_sendable_sats,
                max_sendable_sats,
                payer_data_options,
                currency_options,
                receiver_kyc_status,
                comment_chars_allowed,
                nostr_pubkey,
            ),
            Ok(response),
        ),
    ensures
        response.compliance matches Some(c) && {
            &&& exists|n: u64| #[trigger]
                ambient::is_drawn(n) && c.nonce@ == text::decimal(n as nat)
            &&& ambient::is_clock_reading(c.timestamp)
            &&& c.kyc_status == receiver_kyc_status
            &&& c.is_subject_to_travel_rule == requires_travel_rule_info
            &&& c.receiver_identifier@ == query.receiver_address@
            &&& c.signature@ == hexadecimal::hex_text(
                signature::ecdsa_der(
                    signature::sha256_digest(
                        vstd::utf8::encode_utf8(
                            query.receiver_address@ + seq!['|'] + c.nonce@ + seq!['|']
                                + text::decimal_int(c.timestamp as int),
                        ),
                    ),
                    private_key_bytes@,
                ),
            )
        },
{
}

/// An answer of now is in the version of the request where that is no
/// later than the latest, 1.0, and in the latest otherwise.
pub proof fn answer_of_now_is_in_the_lower_version(
    query: &LnurlpRequest,
    private_key_bytes: &[u8],
    requires_travel_rule_info: bool,
    callback: &str,
    encoded_metadata: &str,
    min_sendable_sats: i64,
    max_sendable_sats: i64,
    payer_data_options: &CounterPartyDataOptions,
    currency_options: &[Currency],
    receiver_kyc_status: KycStatus,
    comment_chars_allowed: Option<i64>,
    nostr_pubkey: Option<String>,
    response: LnurlpResponse,
)
    requires
        call_ensures(
            get_lnurlp_response,
            (
                query,
                private_key_bytes,
                requires_travel_rule_info,
                callback,
                encoded_metadata,
                min_sendable_sats,
                max_sendable_sats,
                payer_data_options,
                currency_options,
                receiver_kyc_status,
                comment_chars_allowed,
                nostr_pubkey,
            ),
            Ok(response),
        ),
    ensures
        ({
            &&& query.uma_version matches Some(asked)
            &&& text::cut_at_only(asked@, '.') matches Some((major, minor))
            &&& text::parsed_i64(major) matches Some(a)
            &&& text::parsed_i64(minor) matches Some(b)
            &&& response.uma_version matches Some(told)
            &&& told@ == if a < 1 || (a == 1 && b <= 0) {
                asked@
            } else {
                "1.0"@
            }
        }),
{
    lemma_latest_version();
}

/// An answer of now is given exactly if the private key is one and the
/// request has a version of the form `major.minor`. A bad key is reported first.
pub proof fn answer_of_now_is_given_exactly_if(
    query: &LnurlpRequest,
    private_key_bytes: &[u8],
    requires_travel_rule_info: bool,
    callback: &str,
    encoded_metadata: &str,
    min_sendable_sats: i64,
    max_sendable_sats: i64,
    payer_data_options: &CounterPartyDataOptions,
    currency_options: &[Currency],
    receiver_kyc_status: KycStatus,
    comment_chars_allowed: Option<i64>,
    nostr_pubkey: Option<String>,
    res: Result<LnurlpResponse, Error>,
)
    requires
        call_ensures(
            get_lnurlp_response,
            (
                query,
                private_key_bytes,
                requires_travel_rule_info,
                callback,
                encoded_metadata,
                min_sendable_sats,
                max_sendable_sats,
                payer_data_options,
                currency_options,
                receiver_kyc_status,
                comment_chars_allowed,
                nostr_pubkey,
            ),
            res,
        ),
    ensures
        ({
            let readable = {
                &&& query.uma_version matches Some(asked)
                &&& text::cut_at_only(asked@, '.') matches Some((major, minor))
                &&& text::parsed_i64(major) is Some
                &&& text::parsed_i64(minor) is Some
            };
            &&& res is Ok <==> signature::is_secret_key(private_key_bytes@) && readable
            &&& res matches Err(e) ==> if signature::is_secret_key(private_key_bytes@) {
                e is InvalidVersion
            } else {
                e == Error::Secp256k1Error(signature::secret_key_error(private_key_bytes@))
            }
        }),
{
    lemma_latest_version();
}

proof fn lemma_latest_version()
    ensures
        version::version_of("1.0"@) == Some((version::Version { major: 1, minor: 0 })),
{
    reveal_strlit("1.0");
    assert("1.0"@ =~= seq!['1'] + seq!['.'] + seq!['0']);
    text::cut_at_first_of_joined(seq!['1'], '.', seq!['0']);
    assert(text::decimal_int(1) =~= seq!['1']);
    assert(text::decimal_int(0) =~= seq!['0']);
    text::parsed_i64_of_decimal(1);
    text::parsed_i64_of_decimal(0);
}

} // verus!
