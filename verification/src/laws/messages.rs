//! Laws on the messages, on versions, addresses, numbers and the texts of errors.
use vstd::prelude::*;

use crate::ambient;
use crate::error;
use crate::error::Error;
use crate::json;
use crate::json::Json;
use crate::protocol;
use crate::protocol::counter_party_data::{CounterPartyDataOption, CounterPartyDataOptions};
use crate::protocol::currency;
use crate::protocol::currency::Currency;
use crate::protocol::kyc_status::KycStatus;
use crate::protocol::lnurl_request::{LnurlpRequest, UmaLnurlpRequest};
use crate::protocol::lnurl_response::{
    LnurlComplianceResponse, LnurlpResponse, UmaLnurlpResponse,
};
use crate::protocol::pay_request::PayRequest;
use crate::protocol::payer_data::{
    CompliancePayerData, CompliancePayerDataView, PayerData, TravelRuleFormat,
};
use crate::text;
use crate::text::decimal_text;
use crate::uma::address::get_vasp_domain_from_uma_address;
use crate::uma::nonce::generate_nonce;
use crate::version;
use crate::version::{
    is_version_supported, select_lower_version, uma_protocol_version, Version,
};

verus! {

/// A request has all that the protocol asks for exactly if it has a nonce, a signature, a
/// domain, a time and a version, and it then has the same ones. A missing flag for the travel
/// rule counts as unset.
pub proof fn complete_request_has_the_fields(request: &LnurlpRequest, uma: Option<UmaLnurlpRequest>)
    requires
        call_ensures(LnurlpRequest::as_uma_request, (request,), uma),
    ensures
        uma is Some <==> request.nonce is Some && request.signature is Some
            && request.vasp_domain is Some && request.timestamp is Some
            && request.uma_version is Some,
        uma matches Some(r) ==> {
            &&& r.receiver_address@ == request.receiver_address@
            &&& r.nonce@ == request.nonce->0@
            &&& r.signature@ == request.signature->0@
            &&& r.vasp_domain@ == request.vasp_domain->0@
            &&& r.timestamp == request.timestamp->0
            &&& r.uma_version@ == request.uma_version->0@
            &&& r.is_subject_to_travel_rule == (request.is_subject_to_travel_rule == Some(true))
        },
{
}

/// An answer has all that the protocol asks for exactly if it has currencies, a list of payer
/// data, compliance data and a version, and it then has the same ones.
pub proof fn complete_answer_has_the_fields(
    response: &LnurlpResponse,
    uma: Option<UmaLnurlpResponse>,
)
    requires
        call_ensures(LnurlpResponse::as_uma_response, (response,), uma),
    ensures
        uma is Some <==> response.currencies is Some && response.required_payer_data is Some
            && response.compliance is Some && response.uma_version is Some,
        uma matches Some(r) ==> {
            &&& r.tag@ == response.tag@
            &&& r.callback@ == response.callback@
            &&& r.min_sendable == response.min_sendable
            &&& r.max_sendable == response.max_sendable
            &&& r.encoded_metadata@ == response.encoded_metadata@
            &&& r.uma_version@ == response.uma_version->0@
            &&& r.comment_chars_allowed == response.comment_chars_allowed
            &&& r.allows_nostr == response.allows_nostr
            &&& r.nostr_pubkey is Some <==> response.nostr_pubkey is Some
            &&& r.nostr_pubkey matches Some(key) ==> key@ == response.nostr_pubkey->0@
            &&& r.compliance.kyc_status == response.compliance->0.kyc_status
            &&& r.compliance.signature@ == response.compliance->0.signature@
            &&& r.compliance.nonce@ == response.compliance->0.nonce@
            &&& r.compliance.timestamp == response.compliance->0.timestamp
            &&& r.compliance.is_subject_to_travel_rule
                == response.compliance->0.is_subject_to_travel_rule
            &&& r.compliance.receiver_identifier@ == response.compliance->0.receiver_identifier@
            &&& r.currencies@.len() == response.currencies->0@.len()
            &&& forall|i: int|
                0 <= i < r.currencies@.len() ==> {
                    let told = #[trigger] r.currencies@[i];
                    let given = response.currencies->0@[i];
                    &&& told.code@ == given.code@
                    &&& told.name@ == given.name@
                    &&& told.symbol@ == given.symbol@
                    &&& told.millisatoshi_per_unit_bits == given.millisatoshi_per_unit_bits
                    &&& told.min_sendable == given.min_sendable
                    &&& told.max_sendable == given.max_sendable
                    &&& told.decimals == given.decimals
                }
            &&& r.required_payer_data.options@.len()
                == response.required_payer_data->0.options@.len()
            &&& forall|i: int|
                0 <= i < r.required_payer_data.options@.len() ==> {
                    let told = #[trigger] r.required_payer_data.options@[i];
                    let given = response.required_payer_data->0.options@[i];
                    &&& told.name@ == given.name@
                    &&& told.mandatory == given.mandatory
                }
        },
{
    if let Some(r) = uma {
        let told = r.currencies@;
        let given = response.currencies->0@;
        assert(currency::currency_views(told) == currency::currency_views(given));
        assert(told.len() == currency::currency_views(told).len());
        assert forall|i: int| 0 <= i < told.len() implies (#[trigger] told[i])@ == given[i]@ by {
            assert(currency::currency_views(told)[i] == told[i]@);
            assert(currency::currency_views(given)[i] == given[i]@);
        }
        let asked = r.required_payer_data;
        let wanted = response.required_payer_data->0;
        assert(asked@ == wanted@);
        assert(asked.options@.len() == asked@.len());
        assert forall|i: int| 0 <= i < asked.options@.len() implies (#[trigger] asked.options@[i])@
            == wanted.options@[i]@ by {
            assert(asked@[i] == asked.options@[i]@);
            assert(wanted@[i] == wanted.options@[i]@);
        }
    }
}

/// What is signed of a request is `address|nonce|timestamp`, and a request without a nonce or a
/// time is refused.
pub proof fn request_payload_is_address_nonce_time(request: &LnurlpRequest, res: Result<
    Vec<u8>,
    protocol::Error,
>)
    requires
        call_ensures(LnurlpRequest::signable_payload, (request,), res),
    ensures
        match (request.nonce, request.timestamp) {
            (Some(nonce), Some(timestamp)) => res matches Ok(payload) && payload@
                == vstd::utf8::encode_utf8(
                request.receiver_address@ + seq!['|'] + nonce@ + seq!['|'] + text::decimal_int(
                    timestamp as int,
                ),
            ),
            (None, _) => res matches Err(e) && e is MissingNonce,
            (Some(_), None) => res matches Err(e) && e is MissingTimestamp,
        },
{
}

/// What is signed of a complete request is `address|nonce|timestamp`.
pub proof fn complete_request_payload_is_address_nonce_time(
    request: &UmaLnurlpRequest,
    payload: Vec<u8>,
)
    requires
        call_ensures(UmaLnurlpRequest::signable_payload, (request,), payload),
    ensures
        payload@ == vstd::utf8::encode_utf8(
            request.receiver_address@ + seq!['|'] + request.nonce@ + seq!['|'] + text::decimal_int(
                request.timestamp as int,
            ),
        ),
{
}

/// What is signed of a complete answer is `identifier|nonce|timestamp` of its compliance data.
pub proof fn answer_payload_is_identifier_nonce_time(
    response: &UmaLnurlpResponse,
    payload: Vec<u8>,
)
    requires
        call_ensures(UmaLnurlpResponse::signable_payload, (response,), payload),
    ensures
        payload@ == vstd::utf8::encode_utf8(
            response.compliance.receiver_identifier@ + seq!['|'] + response.compliance.nonce@
                + seq!['|'] + text::decimal_int(response.compliance.timestamp as int),
        ),
{
}

/// What is signed of a pay request is `identifier|nonce|timestamp` of its payer data, and one
/// without these is refused for the first that is missing.
pub proof fn pay_request_payload_is_identifier_nonce_time(request: &PayRequest, res: Result<
    Vec<u8>,
    protocol::Error,
>)
    requires
        call_ensures(PayRequest::signable_payload, (request,), res),
    ensures
        match request.payer_data {
            None => res matches Err(e) && e is MissingPayerData,
            Some(data) => match json::text_member(json::json_view(data.0), "identifier"@) {
                None => res matches Err(e) && e is MissingPayerDataIdentifier,
                Some(identifier) => match json::member(json::json_view(data.0), "compliance"@) {
                    None => res matches Err(e) && e is MissingPayerDataCompliance,
                    Some(Json::Null) => res matches Err(e) && e is MissingPayerDataCompliance,
                    Some(v) => match CompliancePayerDataView::read(v) {
                        None => res matches Err(e) && e is InvalidPayerDataCompliance,
                        Some(c) => res matches Ok(payload) && payload@ == vstd::utf8::encode_utf8(
                            identifier + seq!['|'] + c.signature_nonce + seq!['|']
                                + text::decimal_int(c.signature_timestamp as int),
                        ),
                    },
                },
            },
        },
{
}

/// Payer data is made of exactly the four members, each as it was given, with null for what was
/// not.
pub proof fn payer_data_holds_what_was_given(
    identifier: &str,
    name: Option<&str>,
    email: Option<&str>,
    compliance: &CompliancePayerData,
    data: PayerData,
    compliance_value: serde_json::Value,
)
    requires
        call_ensures(PayerData::new, (identifier, name, email, compliance), data),
        call_ensures(CompliancePayerData::to_json, (compliance,), compliance_value),
    ensures
        json::json_view(data.0) matches Json::Object(m) && {
            &&& forall|key: Seq<char>| #[trigger]
                m.dom().contains(key) <==> key == "identifier"@ || key == "name"@ || key
                    == "email"@ || key == "compliance"@
            &&& m["identifier"@] == Json::Text(identifier@)
            &&& m["name"@] == match name {
                Some(name) => Json::Text(name@),
                None => Json::Null,
            }
            &&& m["email"@] == match email {
                Some(email) => Json::Text(email@),
                None => Json::Null,
            }
            &&& m["compliance"@] == json::json_view(compliance_value)
        },
{
    crate::protocol::payer_data::payer_member_names_differ();
}

/// Compliance data is sent as exactly nine members, each as its field, with null for what is
/// missing.
pub proof fn compliance_is_sent_with_each_field(
    data: &CompliancePayerData,
    value: serde_json::Value,
)
    requires
        call_ensures(CompliancePayerData::to_json, (data,), value),
    ensures
        ({
            &&& json::json_view(value) matches Json::Object(c)
            &&& forall|key: Seq<char>| #[trigger]
                c.dom().contains(key) <==> key == "utxos"@ || key == "nodePubKey"@ || key
                    == "kycStatus"@ || key == "encryptedTravelRuleInfo"@ || key
                    == "travelRuleFormat"@ || key == "signature"@ || key == "signatureNonce"@
                    || key == "signatureTimestamp"@ || key == "utxoCallback"@
            &&& c["utxos"@] matches Json::List(utxos)
            &&& utxos.len() == data.utxos@.len()
            &&& forall|i: int|
                0 <= i < utxos.len() ==> #[trigger] utxos[i] == Json::Text(data.utxos@[i]@)
            &&& c["nodePubKey"@] == match data.node_pubkey {
                Some(key) => Json::Text(key@),
                None => Json::Null,
            }
            &&& c["kycStatus"@] == Json::Text(
                match data.kyc_status {
                    KycStatus::Unknown => "UNKNOWN"@,
                    KycStatus::NotVerified => "NOT_VERIFIED"@,
                    KycStatus::Pending => "PENDING"@,
                    KycStatus::Verified => "VERIFIED"@,
                },
            )
            &&& c["encryptedTravelRuleInfo"@] == match data.encrypted_travel_rule_info {
                Some(info) => Json::Text(info@),
                None => Json::Null,
            }
            &&& c["travelRuleFormat"@] == match data.travel_rule_format {
                Some(f) => Json::Text(
                    match f.version {
                        Some(version) => f.format@ + "@"@ + version@,
                        None => f.format@,
                    },
                ),
                None => Json::Null,
            }
            &&& c["signature"@] == Json::Text(data.signature@)
            &&& c["signatureNonce"@] == Json::Text(data.signature_nonce@)
            &&& c["signatureTimestamp"@] == Json::Number(
                text::decimal_int(data.signature_timestamp as int),
            )
            &&& c["utxoCallback"@] == Json::Text(data.utxo_callback@)
        }),
{
    CompliancePayerDataView::member_names_differ();
    let utxos = json::json_view(value)->Object_0["utxos"@]->List_0;
    assert(utxos.len() == data.utxos@.len());
    assert forall|i: int| 0 <= i < utxos.len() implies #[trigger] utxos[i] == Json::Text(
        data.utxos@[i]@,
    ) by {
        assert(text::texts(data.utxos@)[i] == data.utxos@[i]@);
    }
}

/// Compliance data that was read is what the members say: each text as it stands, the time as
/// the integer that is written, and nothing for a member that is missing or null.
pub proof fn read_compliance_is_what_the_members_say(
    value: &serde_json::Value,
    data: CompliancePayerData,
)
    requires
        call_ensures(CompliancePayerData::from_json, (value,), Some(data)),
    ensures
        ({
            &&& json::json_view(*value) matches Json::Object(c)
            &&& c.dom().contains("utxos"@) && c["utxos"@] is List
            &&& c["utxos"@]->List_0.len() == data.utxos@.len()
            &&& forall|i: int|
                0 <= i < data.utxos@.len() ==> c["utxos"@]->List_0[i] == Json::Text(
                    (#[trigger] data.utxos@[i])@,
                )
            &&& c.dom().contains("signature"@) && c["signature"@] == Json::Text(data.signature@)
            &&& c.dom().contains("signatureNonce"@) && c["signatureNonce"@] == Json::Text(
                data.signature_nonce@,
            )
            &&& c.dom().contains("utxoCallback"@) && c["utxoCallback"@] == Json::Text(
                data.utxo_callback@,
            )
            &&& c.dom().contains("signatureTimestamp"@) && c["signatureTimestamp"@]
                == Json::Number(text::decimal_int(data.signature_timestamp as int))
            &&& c.dom().contains("kycStatus"@) && c["kycStatus"@] == Json::Text(
                match data.kyc_status {
                    KycStatus::Unknown => "UNKNOWN"@,
                    KycStatus::NotVerified => "NOT_VERIFIED"@,
                    KycStatus::Pending => "PENDING"@,
                    KycStatus::Verified => "VERIFIED"@,
                },
            )
            &&& match data.node_pubkey {
                Some(key) => c.dom().contains("nodePubKey"@) && c["nodePubKey"@] == Json::Text(
                    key@,
                ),
                None => !c.dom().contains("nodePubKey"@) || c["nodePubKey"@] is Null,
            }
            &&& match data.encrypted_travel_rule_info {
                Some(info) => c.dom().contains("encryptedTravelRuleInfo"@)
                    && c["encryptedTravelRuleInfo"@] == Json::Text(info@),
                None => !c.dom().contains("encryptedTravelRuleInfo"@)
                    || c["encryptedTravelRuleInfo"@] is Null,
            }
            &&& match data.travel_rule_format {
                Some(f) => c.dom().contains("travelRuleFormat"@) && c["travelRuleFormat"@]
                    == Json::Text(
                    match f.version {
                        Some(version) => f.format@ + seq!['@'] + version@,
                        None => f.format@,
                    },
                ) && !f.format@.contains('@'),
                None => !c.dom().contains("travelRuleFormat"@) || c["travelRuleFormat"@] is Null,
            }
        }),
{
    let c = json::json_view(*value)->Object_0;
    let utxos = c["utxos"@]->List_0;
    assert(text::texts(data.utxos@) =~= Seq::new(utxos.len(), |i: int| utxos[i]->Text_0));
    assert(text::texts(data.utxos@).len() == data.utxos@.len());
    assert forall|i: int| 0 <= i < data.utxos@.len() implies utxos[i] == Json::Text(
        (#[trigger] data.utxos@[i])@,
    ) by {
        assert(utxos[i] is Text);
        assert(text::texts(data.utxos@)[i] == data.utxos@[i]@);
    }
    if let Some(s) = json::opt_text_member(json::json_view(*value), "travelRuleFormat"@)->0 {
        text::cut_at_first_restores(s, '@');
    }
}

/// Compliance data is read back as it was sent, field by field, if there is no `@` in the name
/// of its travel rule format.
pub proof fn sent_compliance_is_read_back(
    sent: &CompliancePayerData,
    value: serde_json::Value,
    read: Option<CompliancePayerData>,
)
    requires
        call_ensures(CompliancePayerData::to_json, (sent,), value),
        call_ensures(CompliancePayerData::from_json, (&value,), read),
        sent.travel_rule_format matches Some(f) ==> !f.format@.contains('@'),
    ensures
        read matches Some(data) && {
            &&& data.kyc_status == sent.kyc_status
            &&& data.signature@ == sent.signature@
            &&& data.signature_nonce@ == sent.signature_nonce@
            &&& data.signature_timestamp == sent.signature_timestamp
            &&& data.utxo_callback@ == sent.utxo_callback@
            &&& data.utxos@.len() == sent.utxos@.len()
            &&& forall|i: int|
                0 <= i < data.utxos@.len() ==> (#[trigger] data.utxos@[i])@ == sent.utxos@[i]@
            &&& data.node_pubkey is Some <==> sent.node_pubkey is Some
            &&& data.node_pubkey matches Some(key) ==> key@ == sent.node_pubkey->0@
            &&& data.encrypted_travel_rule_info is Some <==> sent.encrypted_travel_rule_info is Some
            &&& data.encrypted_travel_rule_info matches Some(info) ==> info@
                == sent.encrypted_travel_rule_info->0@
            &&& data.travel_rule_format is Some <==> sent.travel_rule_format is Some
            &&& data.travel_rule_format matches Some(f) ==> {
                let g = sent.travel_rule_format->0;
                &&& f.format@ == g.format@
                &&& f.version is Some <==> g.version is Some
                &&& f.version matches Some(version) ==> version@ == g.version->0@
            }
        },
{
    sent@.read_of_members_exact();
    let data = read->0;
    assert(data@ == sent@);
    assert(data@.node_pubkey == sent@.node_pubkey);
    assert(data@.encrypted_travel_rule_info == sent@.encrypted_travel_rule_info);
    assert(data@.travel_rule_format == sent@.travel_rule_format);
    assert(text::texts(data.utxos@).len() == data.utxos@.len());
    assert forall|i: int| 0 <= i < data.utxos@.len() implies (#[trigger] data.utxos@[i])@
        == sent.utxos@[i]@ by {
        assert(text::texts(data.utxos@)[i] == data.utxos@[i]@);
        assert(text::texts(sent.utxos@)[i] == sent.utxos@[i]@);
    }
}

/// The text of a travel rule format that was read from a text is that text, and there is no `@`
/// in its name.
pub proof fn format_of_a_text_has_that_text(
    s: &str,
    format: TravelRuleFormat,
    written: String,
)
    requires
        call_ensures(TravelRuleFormat::from_text, (s,), format),
        call_ensures(TravelRuleFormat::to_text, (&format,), written),
    ensures
        written@ == s@,
        !format.format@.contains('@'),
        format.version is Some <==> s@.contains('@'),
{
    text::cut_at_first_restores(s@, '@');
    reveal_strlit("@");
    assert("@"@ =~= seq!['@']);
}

/// A version is supported exactly if its text is `major.minor`, both integers, with major
/// number 0 or 1.
pub proof fn version_is_supported_exactly_if(v: &str, res: bool)
    requires
        call_ensures(is_version_supported, (v,), res),
    ensures
        res <==> {
            &&& text::cut_at_only(v@, '.') matches Some((major, minor))
            &&& text::parsed_i64(major) matches Some(a)
            &&& a == 0 || a == 1
            &&& text::parsed_i64(minor) is Some
        },
{
}

/// The latest version is supported.
pub proof fn latest_version_is_supported(latest: String, v: &str, res: bool)
    requires
        call_ensures(uma_protocol_version, (), latest),
        v@ == latest@,
        call_ensures(is_version_supported, (v,), res),
    ensures
        res,
{
    reveal_strlit("1.0");
    assert("1.0"@ =~= seq!['1'] + seq!['.'] + seq!['0']);
    text::cut_at_first_of_joined(seq!['1'], '.', seq!['0']);
    assert(text::decimal_int(1) =~= seq!['1']);
    assert(text::decimal_int(0) =~= seq!['0']);
    text::parsed_i64_of_decimal(1);
    text::parsed_i64_of_decimal(0);
}

/// Of two versions `a.b` and `c.d` the first is selected exactly if `(a, b)` is no greater than
/// `(c, d)`, by the major number first, and the second otherwise; if either text is no version,
/// neither is.
pub proof fn lower_version_is_selected(
    version1: &str,
    version2: &str,
    res: Result<String, version::Error>,
)
    requires
        call_ensures(select_lower_version, (version1, version2), res),
    ensures
        match (text::cut_at_only(version1@, '.'), text::cut_at_only(version2@, '.')) {
            (Some((a, b)), Some((c, d))) => match (
                text::parsed_i64(a),
                text::parsed_i64(b),
                text::parsed_i64(c),
                text::parsed_i64(d),
            ) {
                (Some(a), Some(b), Some(c), Some(d)) => res matches Ok(v) && v@ == if a < c || (a
                    == c && b <= d) {
                    version1@
                } else {
                    version2@
                },
                _ => res is Err,
            },
            _ => res is Err,
        },
{
}

/// A version is read as the two integers round its one point.
pub proof fn version_is_the_numbers_round_its_point(s: &str, res: Option<Version>)
    requires
        call_ensures(Version::parse, (s,), res),
    ensures
        res matches Some(v) ==> {
            &&& text::cut_at_only(s@, '.') matches Some((major, minor))
            &&& text::parsed_i64(major) == Some(v.major)
            &&& text::parsed_i64(minor) == Some(v.minor)
        },
        res is None ==> (text::cut_at_only(s@, '.') matches Some((major, minor)) ==> (
        text::parsed_i64(major) is None || text::parsed_i64(minor) is None)),
{
}

/// The domain of an address is what stands behind its one `@`; an address without one, or with
/// more, is refused.
pub proof fn domain_stands_behind_the_at_sign(uma_address: &str, res: Result<String, Error>)
    requires
        call_ensures(get_vasp_domain_from_uma_address, (uma_address,), res),
    ensures
        res matches Ok(domain) ==> {
            let k = uma_address@.len() - domain@.len() - 1;
            &&& 0 <= k
            &&& uma_address@[k] == '@'
            &&& forall|i: int|
                0 <= i < uma_address@.len() && i != k ==> #[trigger] uma_address@[i] != '@'
            &&& domain@ == uma_address@.skip(k + 1)
        },
        res matches Err(e) ==> {
            &&& e is InvalidUMAAddress
            &&& !uma_address@.contains('@') || exists|i: int, j: int|
                0 <= i < j < uma_address@.len() && #[trigger] uma_address@[i] == '@'
                    && #[trigger] uma_address@[j] == '@'
        },
{
    let s = uma_address@;
    text::cut_at_first_restores(s, '@');
    if let Some((head, tail)) = text::cut_at_first(s, '@') {
        let k = head.len() as int;
        assert(s[k] == '@');
        assert(s.skip(k + 1) =~= tail);
        assert forall|i: int| 0 <= i < k implies #[trigger] s[i] != '@' by {
            assert(head[i] == s[i]);
        }
        if tail.contains('@') {
            let j = choose|j: int| 0 <= j < tail.len() && tail[j] == '@';
            assert(s[k + 1 + j] == '@');
        } else {
            assert forall|i: int| k < i < s.len() implies #[trigger] s[i] != '@' by {
                assert(tail[i - k - 1] == s[i]);
            }
        }
    }
}

/// The texts of errors that carry something hold it behind a fixed beginning.
pub proof fn error_text_holds_what_it_carries(e: &Error, res: String)
    requires
        call_ensures(Error::to_string, (e,), res),
    ensures
        match *e {
            Error::Secp256k1Error(inner) => res@ == "Secp256k1 error "@
                + error::secp256k1_error_text(inner),
            Error::EciesSecp256k1Error(inner) => res@ == "Ecies Secp256k1 error "@
                + error::ecies_error_text(inner),
            Error::ProtocolError(inner) => res@ == "Protocol error "@ + inner.text(),
            Error::MissingUrlParam(param) => res@ == "Missing URL param "@ + param@,
            Error::CreateInvoiceError(inner) => res@ == "Create invoice error "@ + inner@,
            Error::InvalidData(inner) => !error::json_error_is_io(inner) ==> res@
                == "Invalid data "@ + error::json_error_text(inner),
            Error::SignatureFormatError => res@ == "Signature format error"@,
            Error::InvalidSignature => res@ == "Invalid signature"@,
            Error::InvalidResponse => res@ == "Invalid response"@,
            Error::InvalidUrlPath => res@ == "Invalid URL path"@,
            Error::InvalidHost => res@ == "Invalid host"@,
            Error::InvalidUMAAddress => res@ == "Invalid UMA address"@,
            Error::InvalidVersion => res@ == "Invalid version"@,
            Error::UnsupportedVersion => res@ == "Unsupported version"@,
        },
{
}

/// The text of a number is its decimal digits: the last is the remainder by ten, and what stands
/// before it is the text of the quotient.
pub proof fn decimal_text_is_the_digits(n: u64, written: String, shorter: String)
    requires
        call_ensures(decimal_text, (n,), written),
        call_ensures(decimal_text, ((n / 10) as u64,), shorter),
    ensures
        written@.last() as int == '0' as int + n % 10,
        n < 10 ==> written@.len() == 1,
        n >= 10 ==> written@.drop_last() == shorter@,
{
    if n >= 10 {
        assert(written@.drop_last() =~= shorter@);
    }
}

/// A digit behind some digits multiplies their value by ten and adds its own.
pub proof fn digits_count_by_ten(s: Seq<char>, c: char)
    ensures
        text::digits_value(s.push(c)) == match text::digits_value(s) {
            Some(v) => if '0' <= c && c <= '9' {
                Some((10 * v + (c as int - '0' as int)) as nat)
            } else {
                None
            },
            None => None,
        },
        text::digits_value(Seq::empty()) == Some(0nat),
{
    assert(s.push(c).drop_last() =~= s);
}

/// A text is read as an integer exactly if it is one or more digits behind an optional sign and
/// their value, with the sign, is in range.
pub proof fn text_is_an_integer_exactly_if(digits: Seq<char>)
    requires
        digits.len() > 0,
        digits[0] != '-' && digits[0] != '+',
    ensures
        text::parsed_i64(digits) == match text::digits_value(digits) {
            Some(v) => if v <= i64::MAX {
                Some(v as i64)
            } else {
                None
            },
            None => None,
        },
        text::parsed_i64(seq!['+'] + digits) == text::parsed_i64(digits),
        text::parsed_i64(seq!['-'] + digits) == match text::digits_value(digits) {
            Some(v) => if -(v as int) >= i64::MIN {
                Some((-(v as int)) as i64)
            } else {
                None
            },
            None => None,
        },
        text::parsed_i64(Seq::empty()) is None,
        text::parsed_i64(seq!['+']) is None,
        text::parsed_i64(seq!['-']) is None,
{
    assert((seq!['+'] + digits).skip(1) =~= digits);
    assert((seq!['-'] + digits).skip(1) =~= digits);
    assert(seq!['+'].skip(1).len() == 0);
    assert(seq!['-'].skip(1).len() == 0);
}

/// A copy of compliance data has each field of it.
pub proof fn copied_compliance_is_the_same(
    given: &LnurlComplianceResponse,
    copy: LnurlComplianceResponse,
)
    requires
        call_ensures(LnurlComplianceResponse::clone, (given,), copy),
    ensures
        copy.kyc_status == given.kyc_status,
        copy.signature@ == given.signature@,
        copy.nonce@ == given.nonce@,
        copy.timestamp == given.timestamp,
        copy.is_subject_to_travel_rule == given.is_subject_to_travel_rule,
        copy.receiver_identifier@ == given.receiver_identifier@,
{
}

/// A copy of a currency has each field of it.
pub proof fn copied_currency_is_the_same(given: &Currency, copy: Currency)
    requires
        call_ensures(Currency::clone, (given,), copy),
    ensures
        copy.code@ == given.code@,
        copy.name@ == given.name@,
        copy.symbol@ == given.symbol@,
        copy.millisatoshi_per_unit_bits == given.millisatoshi_per_unit_bits,
        copy.min_sendable == given.min_sendable,
        copy.max_sendable == given.max_sendable,
        copy.decimals == given.decimals,
{
}

/// A copy of options has each of them, in their order.
pub proof fn copied_options_are_the_same(
    given: &CounterPartyDataOptions,
    copy: CounterPartyDataOptions,
)
    requires
        call_ensures(CounterPartyDataOptions::clone, (given,), copy),
    ensures
        copy.options@.len() == given.options@.len(),
        forall|i: int|
            0 <= i < given.options@.len() ==> copy.options@[i].name@ == (
            #[trigger] given.options@[i]).name@ && copy.options@[i].mandatory
                == given.options@[i].mandatory,
{
    assert(copy@ == given@);
    assert(copy.options@.len() == copy@.len());
    assert forall|i: int| 0 <= i < given.options@.len() implies copy.options@[i]@ == (
    #[trigger] given.options@[i])@ by {
        assert(copy@[i] == copy.options@[i]@);
    }
}

/// A cut at the one separator leaves it out and nothing else, and is made exactly if the
/// separator occurs once.
pub proof fn cut_is_made_at_the_one_separator(s: Seq<char>, c: char)
    ensures
        text::cut_at_only(s, c) matches Some((head, tail)) ==> {
            &&& s == head + seq![c] + tail
            &&& !head.contains(c)
            &&& !tail.contains(c)
        },
        text::cut_at_only(s, c) is None ==> !s.contains(c) || exists|i: int, j: int|
            0 <= i < j < s.len() && #[trigger] s[i] == c && #[trigger] s[j] == c,
        forall|head: Seq<char>, tail: Seq<char>|
            !#[trigger] head.contains(c) && !#[trigger] tail.contains(c) && s == head + seq![c]
                + tail ==> text::cut_at_only(s, c) == Some((head, tail)),
{
    text::cut_at_first_restores(s, c);
    if let Some((head, tail)) = text::cut_at_first(s, c) {
        if tail.contains(c) {
            let j = choose|j: int| 0 <= j < tail.len() && tail[j] == c;
            assert(s[head.len() as int] == c);
            assert(s[head.len() + 1 + j] == c);
        }
    }
    assert forall|head: Seq<char>, tail: Seq<char>|
        !#[trigger] head.contains(c) && !#[trigger] tail.contains(c) && s == head + seq![c]
            + tail implies text::cut_at_only(s, c) == Some((head, tail)) by {
        text::cut_at_first_of_joined(head, c, tail);
    }
}

/// An integer is written with its digits, behind a `-` below zero and behind nothing otherwise.
pub proof fn integers_are_written_with_their_sign(n: nat)
    ensures
        text::decimal_int(n as int) == text::decimal(n),
        n > 0 ==> text::decimal_int(-(n as int)) == seq!['-'] + text::decimal(n),
{
}

/// A nonce is the decimal notation of a number that was drawn.
pub proof fn nonce_is_a_drawn_number(res: String)
    requires
        call_ensures(generate_nonce, (), res),
    ensures
        exists|n: u64| #[trigger] ambient::is_drawn(n) && res@ == text::decimal(n as nat),
{
}

/// Compliance data is read exactly if each member that it needs is there in its form, and each
/// that it may do without is missing, null or a text.
pub proof fn compliance_is_read_exactly_if(
    value: &serde_json::Value,
    res: Option<CompliancePayerData>,
)
    requires
        call_ensures(CompliancePayerData::from_json, (value,), res),
    ensures
        res is Some <==> {
            &&& json::json_view(*value) matches Json::Object(c)
            &&& c.dom().contains("utxos"@)
            &&& c["utxos"@] matches Json::List(utxos)
            &&& forall|i: int| 0 <= i < utxos.len() ==> #[trigger] utxos[i] is Text
            &&& c.dom().contains("kycStatus"@)
            &&& c["kycStatus"@] == Json::Text("UNKNOWN"@) || c["kycStatus"@] == Json::Text(
                "NOT_VERIFIED"@,
            ) || c["kycStatus"@] == Json::Text("PENDING"@) || c["kycStatus"@] == Json::Text(
                "VERIFIED"@,
            )
            &&& c.dom().contains("signature"@) && c["signature"@] is Text
            &&& c.dom().contains("signatureNonce"@) && c["signatureNonce"@] is Text
            &&& c.dom().contains("utxoCallback"@) && c["utxoCallback"@] is Text
            &&& c.dom().contains("signatureTimestamp"@)
            &&& exists|t: i64|
                c["signatureTimestamp"@] == Json::Number(#[trigger] text::decimal_int(t as int))
            &&& c.dom().contains("nodePubKey"@) ==> c["nodePubKey"@] is Null || c["nodePubKey"@]
                is Text
            &&& c.dom().contains("encryptedTravelRuleInfo"@) ==> c["encryptedTravelRuleInfo"@]
                is Null || c["encryptedTravelRuleInfo"@] is Text
            &&& c.dom().contains("travelRuleFormat"@) ==> c["travelRuleFormat"@] is Null
                || c["travelRuleFormat"@] is Text
        },
{
    if let Json::Object(c) = json::json_view(*value) {
        let time = c["signatureTimestamp"@];
        if res is Some {
            assert(json::as_integer(time) is Some);
            let t = json::as_integer(time)->0;
            assert(time == Json::Number(text::decimal_int(t as int)));
        }
        if exists|t: i64| time == Json::Number(#[trigger] text::decimal_int(t as int)) {
            let t = choose|t: i64| time == Json::Number(#[trigger] text::decimal_int(t as int));
            json::as_integer_of_number(t);
        }
    }
}

/// The identifier in payer data is the text of the member `identifier` of an object.
pub proof fn payer_identifier_is_the_member(data: &PayerData, res: Option<String>)
    requires
        call_ensures(PayerData::identifier, (data,), res),
    ensures
        res is Some <==> {
            &&& json::json_view(data.0) matches Json::Object(m)
            &&& m.dom().contains("identifier"@)
            &&& m["identifier"@] is Text
        },
        res matches Some(s) ==> json::json_view(data.0)->Object_0["identifier"@] == Json::Text(s@),
{
}

/// The compliance data in payer data is what the member `compliance` is read as; there is none
/// if the member is missing or null, and a member that cannot be read is an error.
pub proof fn payer_compliance_is_the_member(
    data: &PayerData,
    res: Result<Option<CompliancePayerData>, protocol::Error>,
    member: &serde_json::Value,
    read: Option<CompliancePayerData>,
)
    requires
        call_ensures(PayerData::compliance, (data,), res),
        call_ensures(CompliancePayerData::from_json, (member,), read),
    ensures
        ({
            let held = {
                &&& json::json_view(data.0) matches Json::Object(m)
                &&& m.dom().contains("compliance"@)
                &&& !(m["compliance"@] is Null)
            };
            &&& !held ==> (res matches Ok(found) && found is None)
            &&& held && json::json_view(data.0)->Object_0["compliance"@] == json::json_view(*member)
                ==> match read {
                Some(c) => res matches Ok(Some(d)) && d@ == c@,
                None => res matches Err(e) && e is InvalidPayerDataCompliance,
            }
        }),
{
}

/// A travel rule format is written as its name, with `@` and its version behind it where it has
/// one.
pub proof fn format_is_written_with_its_version(format: &TravelRuleFormat, written: String)
    requires
        call_ensures(TravelRuleFormat::to_text, (format,), written),
    ensures
        written@ == match format.version {
            Some(version) => format.format@ + seq!['@'] + version@,
            None => format.format@,
        },
{
    reveal_strlit("@");
    assert("@"@ =~= seq!['@']);
}

/// A status is found for a name exactly if it is the status's own name.
pub proof fn status_is_found_by_its_own_name(name: &str, found: Option<KycStatus>)
    requires
        call_ensures(KycStatus::from_name, (name,), found),
    ensures
        match found {
            Some(KycStatus::Unknown) => name@ == "UNKNOWN"@,
            Some(KycStatus::NotVerified) => name@ == "NOT_VERIFIED"@,
            Some(KycStatus::Pending) => name@ == "PENDING"@,
            Some(KycStatus::Verified) => name@ == "VERIFIED"@,
            None => name@ != "UNKNOWN"@ && name@ != "NOT_VERIFIED"@ && name@ != "PENDING"@ && name@
                != "VERIFIED"@,
        },
{
}

/// A status is written with its own name, and found again by it.
pub proof fn status_is_found_again(
    status: &KycStatus,
    written: &'static str,
    found: Option<KycStatus>,
)
    requires
        call_ensures(KycStatus::as_str, (status,), written),
        call_ensures(KycStatus::from_name, (written,), found),
    ensures
        found == Some(*status),
{
    status.named_of_name();
}

/// An error is one of a stream exactly if it carries an error of the JSON reader that is.
pub proof fn error_is_of_a_stream_exactly_if(e: &Error, res: bool)
    requires
        call_ensures(Error::is_io, (e,), res),
    ensures
        res <==> (*e matches Error::InvalidData(inner) && error::json_error_is_io(inner)),
{
}

/// A copy of an option has its name and whether it is mandatory.
pub proof fn copied_option_is_the_same(
    given: &CounterPartyDataOption,
    copy: CounterPartyDataOption,
)
    requires
        call_ensures(CounterPartyDataOption::clone, (given,), copy),
    ensures
        copy.name@ == given.name@,
        copy.mandatory == given.mandatory,
{
}

} // verus!
