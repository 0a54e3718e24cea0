//! Laws on the request for an invoice and its answer.
use vstd::prelude::*;

use crate::ambient;
use crate::encryption;
use crate::error;
use crate::error::{Error, ErrorView};
use crate::hexadecimal;
use crate::json;
use crate::json::Json;
use crate::protocol::counter_party_data;
use crate::protocol::counter_party_data::CounterPartyDataOptions;
use crate::protocol::kyc_status::KycStatus;
use crate::protocol::pay_request::PayRequest;
use crate::protocol::payer_data;
use crate::protocol::payer_data::{CompliancePayerDataView, TravelRuleFormat};
use crate::protocol::payreq_response::PayReqResponse;
use crate::signature;
use crate::text;
use crate::uma::nonce;
use crate::uma::pay;
use crate::uma::pay::{
    get_pay_req_response, get_pay_request, pay_req_response_with, pay_request_with, Conversion,
    UmaInvoiceCreator,
};

verus! {

/// A request with a given nonce and time asks for what was ordered: the amount, the currencies,
/// the version, the comment and the data about the payee. The currency of the amount is named
/// exactly if it is that of the receiver.
pub proof fn pay_request_asks_for_the_order(
    amount: i64,
    sending_vasp_private_key: &[u8],
    receving_currency_code: &str,
    is_amount_in_receving_currency_code: bool,
    payer_identifier: &str,
    uma_major_version: i32,
    payer_name: Option<&str>,
    payer_email: Option<&str>,
    encrypted_tr_info: Option<String>,
    travel_rule_format: Option<TravelRuleFormat>,
    payer_kyc_status: KycStatus,
    payer_uxtos: &[String],
    payer_node_pubkey: Option<&str>,
    utxo_callback: &str,
    requested_payee_data: Option<CounterPartyDataOptions>,
    comment: Option<&str>,
    nonce: &str,
    timestamp: i64,
    request: PayRequest,
)
    requires
        call_ensures(
            pay_request_with,
            (
                amount,
                sending_vasp_private_key,
                receving_currency_code,
                is_amount_in_receving_currency_code,
                payer_identifier,
                uma_major_version,
                payer_name,
                payer_email,
                encrypted_tr_info,
                travel_rule_format,
                payer_kyc_status,
                payer_uxtos,
                payer_node_pubkey,
                utxo_callback,
                requested_payee_data,
                comment,
                nonce,
                timestamp,
            ),
            Ok(request),
        ),
    ensures
        request.amount == amount,
        request.uma_major_version == uma_major_version,
        request.receiving_currency_code matches Some(code) && code@ == receving_currency_code@,
        request.sending_amount_currency_code is Some <==> is_amount_in_receving_currency_code,
        request.sending_amount_currency_code matches Some(code) ==> code@
            == receving_currency_code@,
        request.comment is Some <==> comment is Some,
        comment matches Some(told) ==> request.comment->0@ == told@,
        request.requested_payee_data is Some <==> requested_payee_data is Some,
        requested_payee_data matches Some(asked) ==> {
            let told = request.requested_payee_data->0.options@;
            &&& told.len() == asked.options@.len()
            &&& forall|i: int|
                0 <= i < told.len() ==> (#[trigger] told[i]).name@ == asked.options@[i].name@
                    && told[i].mandatory == asked.options@[i].mandatory
        },
{
    if let Some(asked) = requested_payee_data {
        let told = request.requested_payee_data->0;
        assert(told@ == asked@);
        assert(told.options@.len() == told@.len());
        assert forall|i: int| 0 <= i < told.options@.len() implies (
        #[trigger] told.options@[i])@ == asked.options@[i]@ by {
            assert(told@[i] == told.options@[i]@);
            assert(asked@[i] == asked.options@[i]@);
        }
    }
}

/// A request with a given nonce and time tells of the payer the identifier, the name and the
/// email address that were given, with null for one that was not, and compliance data; nothing
/// else.
pub proof fn pay_request_tells_the_payer(
    amount: i64,
    sending_vasp_private_key: &[u8],
    receving_currency_code: &str,
    is_amount_in_receving_currency_code: bool,
    payer_identifier: &str,
    uma_major_version: i32,
    payer_name: Option<&str>,
    payer_email: Option<&str>,
    encrypted_tr_info: Option<String>,
    travel_rule_format: Option<TravelRuleFormat>,
    payer_kyc_status: KycStatus,
    payer_uxtos: &[String],
    payer_node_pubkey: Option<&str>,
    utxo_callback: &str,
    requested_payee_data: Option<CounterPartyDataOptions>,
    comment: Option<&str>,
    nonce: &str,
    timestamp: i64,
    request: PayRequest,
)
    requires
        call_ensures(
            pay_request_with,
            (
                amount,
                sending_vasp_private_key,
                receving_currency_code,
                is_amount_in_receving_currency_code,
                payer_identifier,
                uma_major_version,
                payer_name,
                payer_email,
                encrypted_tr_info,
                travel_rule_format,
                payer_kyc_status,
                payer_uxtos,
                payer_node_pubkey,
                utxo_callback,
                requested_payee_data,
                comment,
                nonce,
                timestamp,
            ),
            Ok(request),
        ),
    ensures
        ({
            &&& request.payer_data matches Some(data)
            &&& json::json_view(data.0) matches Json::Object(m)
            &&& forall|key: Seq<char>| #[trigger]
                m.dom().contains(key) <==> key == "identifier"@ || key == "name"@ || key
                    == "email"@ || key == "compliance"@
            &&& m["identifier"@] == Json::Text(payer_identifier@)
            &&& m["name"@] == match payer_name {
                Some(name) => Json::Text(name@),
                None => Json::Null,
            }
            &&& m["email"@] == match payer_email {
                Some(email) => Json::Text(email@),
                None => Json::Null,
            }
            &&& m["compliance"@] is Object
        }),
{
    payer_data::payer_member_names_differ();
}

/// A request with a given nonce and time claims for compliance what was given, with null for
/// what was not, and is signed over the identifier, the nonce and the time with the private key.
pub proof fn pay_request_tells_the_claims(
    amount: i64,
    sending_vasp_private_key: &[u8],
    receving_currency_code: &str,
    is_amount_in_receving_currency_code: bool,
    payer_identifier: &str,
    uma_major_version: i32,
    payer_name: Option<&str>,
    payer_email: Option<&str>,
    encrypted_tr_info: Option<String>,
    travel_rule_format: Option<TravelRuleFormat>,
    payer_kyc_status: KycStatus,
    payer_uxtos: &[String],
    payer_node_pubkey: Option<&str>,
    utxo_callback: &str,
    requested_payee_data: Option<CounterPartyDataOptions>,
    comment: Option<&str>,
    nonce: &str,
    timestamp: i64,
    request: PayRequest,
)
    requires
        call_ensures(
            pay_request_with,
            (
                amount,
                sending_vasp_private_key,
                receving_currency_code,
                is_amount_in_receving_currency_code,
                payer_identifier,
                uma_major_version,
                payer_name,
                payer_email,
                encrypted_tr_info,
                travel_rule_format,
                payer_kyc_status,
                payer_uxtos,
                payer_node_pubkey,
                utxo_callback,
                requested_payee_data,
                comment,
                nonce,
                timestamp,
            ),
            Ok(request),
        ),
    ensures
        ({
            &&& request.payer_data matches Some(data)
            &&& json::json_view(data.0) matches Json::Object(m)
            &&& m["compliance"@] matches Json::Object(c)
            &&& forall|key: Seq<char>| #[trigger]
                c.dom().contains(key) <==> key == "utxos"@ || key == "nodePubKey"@ || key
                    == "kycStatus"@ || key == "encryptedTravelRuleInfo"@ || key
                    == "travelRuleFormat"@ || key == "signature"@ || key == "signatureNonce"@
                    || key == "signatureTimestamp"@ || key == "utxoCallback"@
            &&& c["utxos"@] matches Json::List(utxos)
            &&& utxos.len() == payer_uxtos@.len()
            &&& forall|i: int|
                0 <= i < utxos.len() ==> #[trigger] utxos[i] == Json::Text(payer_uxtos@[i]@)
            &&& c["nodePubKey"@] == match payer_node_pubkey {
                Some(key) => Json::Text(key@),
                None => Json::Null,
            }
            &&& c["kycStatus"@] == Json::Text(
                match payer_kyc_status {
                    KycStatus::Unknown => "UNKNOWN"@,
                    KycStatus::NotVerified => "NOT_VERIFIED"@,
                    KycStatus::Pending => "PENDING"@,
                    KycStatus::Verified => "VERIFIED"@,
                },
            )
            &&& c["encryptedTravelRuleInfo"@] == match encrypted_tr_info {
                Some(encrypted) => Json::Text(encrypted@),
                None => Json::Null,
            }
            &&& c["travelRuleFormat"@] == match travel_rule_format {
                Some(f) => Json::Text(
                    match f.version {
                        Some(version) => f.format@ + "@"@ + version@,
                        None => f.format@,
                    },
                ),
                None => Json::Null,
            }
            &&& c["signatureNonce"@] == Json::Text(nonce@)
            &&& c["signatureTimestamp"@] == Json::Number(text::decimal_int(timestamp as int))
            &&& c["signature"@] == Json::Text(
                hexadecimal::hex_text(
                    signature::ecdsa_der(
                        signature::sha256_digest(
                            vstd::utf8::encode_utf8(
                                payer_identifier@ + seq!['|'] + nonce@ + seq!['|']
                                    + text::decimal_int(timestamp as int),
                            ),
                        ),
                        sending_vasp_private_key@,
                    ),
                ),
            )
            &&& c["utxoCallback"@] == Json::Text(utxo_callback@)
        }),
{
    payer_data::payer_member_names_differ();
    CompliancePayerDataView::member_names_differ();
    let m = json::json_view((request.payer_data->0).0)->Object_0;
    let utxos = m["compliance"@]->Object_0["utxos"@]->List_0;
    assert(utxos.len() == payer_uxtos@.len());
    assert forall|i: int| 0 <= i < utxos.len() implies #[trigger] utxos[i] == Json::Text(
        payer_uxtos@[i]@,
    ) by {
        assert(text::texts(payer_uxtos@)[i] == payer_uxtos@[i]@);
    }
}

/// A request with a given nonce and time is made exactly if the private key is one.
pub proof fn pay_request_is_made_exactly_if(
    amount: i64,
    sending_vasp_private_key: &[u8],
    receving_currency_code: &str,
    is_amount_in_receving_currency_code: bool,
    payer_identifier: &str,
    uma_major_version: i32,
    payer_name: Option<&str>,
    payer_email: Option<&str>,
    encrypted_tr_info: Option<String>,
    travel_rule_format: Option<TravelRuleFormat>,
    payer_kyc_status: KycStatus,
    payer_uxtos: &[String],
    payer_node_pubkey: Option<&str>,
    utxo_callback: &str,
    requested_payee_data: Option<CounterPartyDataOptions>,
    comment: Option<&str>,
    nonce: &str,
    timestamp: i64,
    res: Result<PayRequest, Error>,
)
    requires
        call_ensures(
            pay_request_with,
            (
                amount,
                sending_vasp_private_key,
                receving_currency_code,
                is_amount_in_receving_currency_code,
                payer_identifier,
                uma_major_version,
                payer_name,
                payer_email,
                encrypted_tr_info,
                travel_rule_format,
                payer_kyc_status,
                payer_uxtos,
                payer_node_pubkey,
                utxo_callback,
                requested_payee_data,
                comment,
                nonce,
                timestamp,
            ),
            res,
        ),
    ensures
        res is Ok <==> signature::is_secret_key(sending_vasp_private_key@),
        res matches Err(e) ==> e == Error::Secp256k1Error(
            signature::secret_key_error(sending_vasp_private_key@),
        ),
{
}

/// A request of now asks for what was ordered: the amount, the currencies,
/// the version, the comment and the data about the payee. The currency of the amount is named
/// exactly if it is that of the receiver.
pub proof fn pay_request_of_now_asks_for_the_order(
    amount: i64,
    receiver_encryption_pub_key: &[u8],
    sending_vasp_private_key: &[u8],
    receving_currency_code: &str,
    is_amount_in_receving_currency_code: bool,
    payer_identifier: &str,
    uma_major_version: i32,
    payer_name: Option<&str>,
    payer_email: Option<&str>,
    tr_info: Option<&str>,
    travel_rule_format: Option<TravelRuleFormat>,
    payer_kyc_status: KycStatus,
    payer_uxtos: &[String],
    payer_node_pubkey: Option<&str>,
    utxo_callback: &str,
    requested_payee_data: Option<CounterPartyDataOptions>,
    comment: Option<&str>,
    request: PayRequest,
)
    requires
        call_ensures(
            get_pay_request,
            (
                amount,
                receiver_encryption_pub_key,
                sending_vasp_private_key,
                receving_currency_code,
                is_amount_in_receving_currency_code,
                payer_identifier,
                uma_major_version,
                payer_name,
                payer_email,
                tr_info,
                travel_rule_format,
                payer_kyc_status,
                payer_uxtos,
                payer_node_pubkey,
                utxo_callback,
                requested_payee_data,
                comment,
            ),
            Ok(request),
        ),
    ensures
        request.amount == amount,
        request.uma_major_version == uma_major_version,
        request.receiving_currency_code matches Some(code) && code@ == receving_currency_code@,
        request.sending_amount_currency_code is Some <==> is_amount_in_receving_currency_code,
        request.sending_amount_currency_code matches Some(code) ==> code@
            == receving_currency_code@,
        request.comment is Some <==> comment is Some,
        comment matches Some(told) ==> request.comment->0@ == told@,
        request.requested_payee_data is Some <==> requested_payee_data is Some,
        requested_payee_data matches Some(asked) ==> {
            let told = request.requested_payee_data->0.options@;
            &&& told.len() == asked.options@.len()
            &&& forall|i: int|
                0 <= i < told.len() ==> (#[trigger] told[i]).name@ == asked.options@[i].name@
                    && told[i].mandatory == asked.options@[i].mandatory
        },
{
    if let Some(asked) = requested_payee_data {
        let told = request.requested_payee_data->0;
        assert(told@ == asked@);
        assert(told.options@.len() == told@.len());
        assert forall|i: int| 0 <= i < told.options@.len() implies (
        #[trigger] told.options@[i])@ == asked.options@[i]@ by {
            assert(told@[i] == told.options@[i]@);
            assert(asked@[i] == asked.options@[i]@);
        }
    }
}

/// A request of now tells of the payer the identifier, the name and the
/// email address that were given, with null for one that was not, and compliance data; nothing
/// else.
pub proof fn pay_request_of_now_tells_the_payer(
    amount: i64,
    receiver_encryption_pub_key: &[u8],
    sending_vasp_private_key: &[u8],
    receving_currency_code: &str,
    is_amount_in_receving_currency_code: bool,
    payer_identifier: &str,
    uma_major_version: i32,
    payer_name: Option<&str>,
    payer_email: Option<&str>,
    tr_info: Option<&str>,
    travel_rule_format: Option<TravelRuleFormat>,
    payer_kyc_status: KycStatus,
    payer_uxtos: &[String],
    payer_node_pubkey: Option<&str>,
    utxo_callback: &str,
    requested_payee_data: Option<CounterPartyDataOptions>,
    comment: Option<&str>,
    request: PayRequest,
)
    requires
        call_ensures(
            get_pay_request,
            (
                amount,
                receiver_encryption_pub_key,
                sending_vasp_private_key,
                receving_currency_code,
                is_amount_in_receving_currency_code,
                payer_identifier,
                uma_major_version,
                payer_name,
                payer_email,
                tr_info,
                travel_rule_format,
                payer_kyc_status,
                payer_uxtos,
                payer_node_pubkey,
                utxo_callback,
                requested_payee_data,
                comment,
            ),
            Ok(request),
        ),
    ensures
        ({
            &&& request.payer_data matches Some(data)
            &&& json::json_view(data.0) matches Json::Object(m)
            &&& forall|key: Seq<char>| #[trigger]
                m.dom().contains(key) <==> key == "identifier"@ || key == "name"@ || key
                    == "email"@ || key == "compliance"@
            &&& m["identifier"@] == Json::Text(payer_identifier@)
            &&& m["name"@] == match payer_name {
                Some(name) => Json::Text(name@),
                None => Json::Null,
            }
            &&& m["email"@] == match payer_email {
                Some(email) => Json::Text(email@),
                None => Json::Null,
            }
            &&& m["compliance"@] is Object
        }),
{
    payer_data::payer_member_names_differ();
}

/// A request of now claims for compliance what was given, with null for
/// what was not. The travel rule information is encrypted for the receiver's key, the nonce was
/// drawn, the time was read from the clock, and the request is signed over the identifier, the
/// nonce and the time with the private key.
pub proof fn pay_request_of_now_tells_the_claims(
    amount: i64,
    receiver_encryption_pub_key: &[u8],
    sending_vasp_private_key: &[u8],
    receving_currency_code: &str,
    is_amount_in_receving_currency_code: bool,
    payer_identifier: &str,
    uma_major_version: i32,
    payer_name: Option<&str>,
    payer_email: Option<&str>,
    tr_info: Option<&str>,
    travel_rule_format: Option<TravelRuleFormat>,
    payer_kyc_status: KycStatus,
    payer_uxtos: &[String],
    payer_node_pubkey: Option<&str>,
    utxo_callback: &str,
    requested_payee_data: Option<CounterPartyDataOptions>,
    comment: Option<&str>,
    request: PayRequest,
)
    requires
        call_ensures(
            get_pay_request,
            (
                amount,
                receiver_encryption_pub_key,
                sending_vasp_private_key,
                receving_currency_code,
                is_amount_in_receving_currency_code,
                payer_identifier,
                uma_major_version,
                payer_name,
                payer_email,
                tr_info,
                travel_rule_format,
                payer_kyc_status,
                payer_uxtos,
                payer_node_pubkey,
                utxo_callback,
                requested_payee_data,
                comment,
            ),
            Ok(request),
        ),
    ensures
        ({
            &&& request.payer_data matches Some(data)
            &&& json::json_view(data.0) matches Json::Object(m)
            &&& m["compliance"@] matches Json::Object(c)
            &&& forall|key: Seq<char>| #[trigger]
                c.dom().contains(key) <==> key == "utxos"@ || key == "nodePubKey"@ || key
                    == "kycStatus"@ || key == "encryptedTravelRuleInfo"@ || key
                    == "travelRuleFormat"@ || key == "signature"@ || key == "signatureNonce"@
                    || key == "signatureTimestamp"@ || key == "utxoCallback"@
            &&& c["utxos"@] matches Json::List(utxos)
            &&& utxos.len() == payer_uxtos@.len()
            &&& forall|i: int|
                0 <= i < utxos.len() ==> #[trigger] utxos[i] == Json::Text(payer_uxtos@[i]@)
            &&& c["nodePubKey"@] == match payer_node_pubkey {
                Some(key) => Json::Text(key@),
                None => Json::Null,
            }
            &&& c["kycStatus"@] == Json::Text(
                match payer_kyc_status {
                    KycStatus::Unknown => "UNKNOWN"@,
                    KycStatus::NotVerified => "NOT_VERIFIED"@,
                    KycStatus::Pending => "PENDING"@,
                    KycStatus::Verified => "VERIFIED"@,
                },
            )
            &&& c["encryptedTravelRuleInfo"@] is Null <==> tr_info is None
            &&& tr_info matches Some(info) ==> {
                &&& encryption::ecies_ciphertexts(
                    receiver_encryption_pub_key@,
                    vstd::utf8::encode_utf8(info@),
                ) matches Ok(possible)
                &&& exists|ciphertext: Seq<u8>| #[trigger]
                    possible.contains(ciphertext) && c["encryptedTravelRuleInfo"@] == Json::Text(
                        hexadecimal::hex_text(ciphertext),
                    )
            }
            &&& c["travelRuleFormat"@] == match travel_rule_format {
                Some(f) => Json::Text(
                    match f.version {
                        Some(version) => f.format@ + "@"@ + version@,
                        None => f.format@,
                    },
                ),
                None => Json::Null,
            }
            &&& c["signatureNonce"@] matches Json::Text(drawn)
            &&& exists|n: u64| #[trigger] ambient::is_drawn(n) && drawn == text::decimal(n as nat)
            &&& json::as_integer(c["signatureTimestamp"@]) matches Some(time)
            &&& c["signatureTimestamp"@] == Json::Number(text::decimal_int(time as int))
            &&& ambient::is_clock_reading(time)
            &&& c["signature"@] == Json::Text(
                hexadecimal::hex_text(
                    signature::ecdsa_der(
                        signature::sha256_digest(
                            vstd::utf8::encode_utf8(
                                payer_identifier@ + seq!['|'] + drawn + seq!['|']
                                    + text::decimal_int(time as int),
                            ),
                        ),
                        sending_vasp_private_key@,
                    ),
                ),
            )
            &&& c["utxoCallback"@] == Json::Text(utxo_callback@)
        }),
{
    payer_data::payer_member_names_differ();
    CompliancePayerDataView::member_names_differ();
    let order = pay::OrderView {
        amount,
        receiving_currency_code: receving_currency_code@,
        is_amount_in_receiving_currency: is_amount_in_receving_currency_code,
        uma_major_version,
        requested_payee_data: counter_party_data::opt_options(requested_payee_data),
        comment: text::opt_str(comment),
    };
    let payer = pay::PayerView {
        identifier: payer_identifier@,
        name: text::opt_str(payer_name),
        email: text::opt_str(payer_email),
        claims: pay::ClaimsView {
            kyc_status: payer_kyc_status,
            travel_rule_format: payer_data::opt_format(travel_rule_format),
            utxos: text::texts(payer_uxtos@),
            node_pubkey: text::opt_str(payer_node_pubkey),
            utxo_callback: utxo_callback@,
        },
    };
    let (encrypted, drawn, time) = choose|
        encrypted: Result<Option<Seq<char>>, ErrorView>,
        drawn: Seq<char>,
        time: i64,
    |
        pay::may_encrypt_opt_to(text::opt_str(tr_info), receiver_encryption_pub_key@, encrypted)
            && nonce::is_nonce(drawn) && ambient::is_clock_reading(time) && error::outcome(
            Ok(request),
        ) == #[trigger] pay::pay_request_after(
            encrypted,
            order,
            payer,
            sending_vasp_private_key@,
            drawn,
            time,
        );
    json::as_integer_of_number(time);
    let m = json::json_view((request.payer_data->0).0)->Object_0;
    let utxos = m["compliance"@]->Object_0["utxos"@]->List_0;
    assert(utxos.len() == payer_uxtos@.len());
    assert forall|i: int| 0 <= i < utxos.len() implies #[trigger] utxos[i] == Json::Text(
        payer_uxtos@[i]@,
    ) by {
        assert(text::texts(payer_uxtos@)[i] == payer_uxtos@[i]@);
    }
}

/// A request of now is made exactly if the private key is one and the information,
/// where there is some, can be encrypted. An error of the encryption is reported first.
pub proof fn pay_request_of_now_is_made_exactly_if(
    amount: i64,
    receiver_encryption_pub_key: &[u8],
    sending_vasp_private_key: &[u8],
    receving_currency_code: &str,
    is_amount_in_receving_currency_code: bool,
    payer_identifier: &str,
    uma_major_version: i32,
    payer_name: Option<&str>,
    payer_email: Option<&str>,
    tr_info: Option<&str>,
    travel_rule_format: Option<TravelRuleFormat>,
    payer_kyc_status: KycStatus,
    payer_uxtos: &[String],
    payer_node_pubkey: Option<&str>,
    utxo_callback: &str,
    requested_payee_data: Option<CounterPartyDataOptions>,
    comment: Option<&str>,
    res: Result<PayRequest, Error>,
)
    requires
        call_ensures(
            get_pay_request,
            (
                amount,
                receiver_encryption_pub_key,
                sending_vasp_private_key,
                receving_currency_code,
                is_amount_in_receving_currency_code,
                payer_identifier,
                uma_major_version,
                payer_name,
                payer_email,
                tr_info,
                travel_rule_format,
                payer_kyc_status,
                payer_uxtos,
                payer_node_pubkey,
                utxo_callback,
                requested_payee_data,
                comment,
            ),
            res,
        ),
    ensures
        ({
            let refused = match tr_info {
                Some(info) => match encryption::ecies_ciphertexts(
                    receiver_encryption_pub_key@,
                    vstd::utf8::encode_utf8(info@),
                ) {
                    Err(e) => Some(e),
                    Ok(_) => None,
                },
                None => None,
            };
            &&& res is Ok <==> refused is None && signature::is_secret_key(
                sending_vasp_private_key@,
            )
            &&& res matches Err(error) ==> error == match refused {
                Some(e) => Error::EciesSecp256k1Error(e),
                None => Error::Secp256k1Error(
                    signature::secret_key_error(sending_vasp_private_key@),
                ),
            }
        }),
{
}

/// An answer made of an invoice tells the terms as they were given, and no routes.
pub proof fn payment_answer_tells_the_terms(
    invoice: Result<String, String>,
    currency_code: &str,
    currency_decimals: i32,
    rate_bits: u64,
    receiver_fees_millisats: i64,
    receiver_channel_utxos: &[String],
    receiver_node_pub_key: Option<&str>,
    utxo_callback: &str,
    response: PayReqResponse,
)
    requires
        call_ensures(
            pay_req_response_with,
            (
                invoice,
                currency_code,
                currency_decimals,
                rate_bits,
                receiver_fees_millisats,
                receiver_channel_utxos,
                receiver_node_pub_key,
                utxo_callback,
            ),
            Ok(response),
        ),
    ensures
        response.payment_info.currency_code@ == currency_code@,
        response.payment_info.decimals == currency_decimals,
        response.payment_info.multiplier_bits == rate_bits,
        response.payment_info.exchange_fees_millisatoshi == receiver_fees_millisats,
        response.compliance.utxo_callback@ == utxo_callback@,
        response.compliance.node_pub_key is Some <==> receiver_node_pub_key is Some,
        receiver_node_pub_key matches Some(key) ==> response.compliance.node_pub_key->0@ == key@,
        response.compliance.utxos@.len() == receiver_channel_utxos@.len(),
        forall|i: int|
            0 <= i < receiver_channel_utxos@.len() ==> response.compliance.utxos@[i]@
                == (#[trigger] receiver_channel_utxos@[i])@,
        response.routes@.len() == 0,
{
    let told = response.compliance.utxos@;
    assert(text::texts(told) == text::texts(receiver_channel_utxos@));
    assert(told.len() == text::texts(told).len());
    assert forall|i: int| 0 <= i < receiver_channel_utxos@.len() implies told[i]@ == (
    #[trigger] receiver_channel_utxos@[i])@ by {
        assert(text::texts(told)[i] == told[i]@);
        assert(text::texts(receiver_channel_utxos@)[i] == receiver_channel_utxos@[i]@);
    }
    assert(response@.routes.len() == response.routes@.len());
}

/// An answer is made of an invoice exactly if there is one, and holds it; an error in making it
/// is reported with its text.
pub proof fn payment_answer_holds_the_invoice(
    invoice: Result<String, String>,
    currency_code: &str,
    currency_decimals: i32,
    rate_bits: u64,
    receiver_fees_millisats: i64,
    receiver_channel_utxos: &[String],
    receiver_node_pub_key: Option<&str>,
    utxo_callback: &str,
    res: Result<PayReqResponse, Error>,
)
    requires
        call_ensures(
            pay_req_response_with,
            (
                invoice,
                currency_code,
                currency_decimals,
                rate_bits,
                receiver_fees_millisats,
                receiver_channel_utxos,
                receiver_node_pub_key,
                utxo_callback,
            ),
            res,
        ),
    ensures
        match invoice {
            Ok(encoded) => res matches Ok(response) && response.encoded_invoice@ == encoded@,
            Err(text) => res matches Err(Error::CreateInvoiceError(told)) && told@ == text@,
        },
{
}

/// An answer to a pay request tells the terms as they were given, and no routes.
pub proof fn pay_request_answer_tells_the_terms<T: UmaInvoiceCreator>(
    query: &PayRequest,
    invoice_creator: &T,
    metadata: &str,
    currency_code: &str,
    currency_decimals: i32,
    conversion: Conversion,
    receiver_fees_millisats: i64,
    receiver_channel_utxos: &[String],
    receiver_node_pub_key: Option<&str>,
    utxo_callback: &str,
    response: PayReqResponse,
)
    requires
        call_ensures(
            get_pay_req_response::<T>,
            (
                query,
                invoice_creator,
                metadata,
                currency_code,
                currency_decimals,
                conversion,
                receiver_fees_millisats,
                receiver_channel_utxos,
                receiver_node_pub_key,
                utxo_callback,
            ),
            Ok(response),
        ),
    ensures
        response.payment_info.currency_code@ == currency_code@,
        response.payment_info.decimals == currency_decimals,
        response.payment_info.multiplier_bits == conversion.rate_bits,
        response.payment_info.exchange_fees_millisatoshi == receiver_fees_millisats,
        response.compliance.utxo_callback@ == utxo_callback@,
        response.compliance.node_pub_key is Some <==> receiver_node_pub_key is Some,
        receiver_node_pub_key matches Some(key) ==> response.compliance.node_pub_key->0@ == key@,
        response.compliance.utxos@.len() == receiver_channel_utxos@.len(),
        forall|i: int|
            0 <= i < receiver_channel_utxos@.len() ==> response.compliance.utxos@[i]@
                == (#[trigger] receiver_channel_utxos@[i])@,
        response.routes@.len() == 0,
{
    let told = response.compliance.utxos@;
    assert(text::texts(told) == text::texts(receiver_channel_utxos@));
    assert(told.len() == text::texts(told).len());
    assert forall|i: int| 0 <= i < receiver_channel_utxos@.len() implies told[i]@ == (
    #[trigger] receiver_channel_utxos@[i])@ by {
        assert(text::texts(told)[i] == told[i]@);
        assert(text::texts(receiver_channel_utxos@)[i] == receiver_channel_utxos@[i]@);
    }
    assert(response@.routes.len() == response.routes@.len());
}

/// An answer to a pay request holds what the creator made of the converted amount and the fees
/// together, and of the metadata followed by the JSON text of the payer data in braces, or of
/// null where there is none.
pub proof fn pay_request_answer_holds_the_invoice<T: UmaInvoiceCreator>(
    query: &PayRequest,
    invoice_creator: &T,
    metadata: &str,
    currency_code: &str,
    currency_decimals: i32,
    conversion: Conversion,
    receiver_fees_millisats: i64,
    receiver_channel_utxos: &[String],
    receiver_node_pub_key: Option<&str>,
    utxo_callback: &str,
    res: Result<PayReqResponse, Error>,
)
    requires
        i64::MIN <= conversion.amount_msats + receiver_fees_millisats <= i64::MAX,
        call_ensures(
            get_pay_req_response::<T>,
            (
                query,
                invoice_creator,
                metadata,
                currency_code,
                currency_decimals,
                conversion,
                receiver_fees_millisats,
                receiver_channel_utxos,
                receiver_node_pub_key,
                utxo_callback,
            ),
            res,
        ),
    ensures
        exists|committed: &str, amount: i64, invoice: Result<String, String>|
            {
                &&& #[trigger] call_ensures(
                    T::create_uma_invoice,
                    (invoice_creator, amount, committed),
                    invoice,
                )
                &&& amount == conversion.amount_msats + receiver_fees_millisats
                &&& committed@ == metadata@ + seq!['{'] + json::json_text(
                    match query.payer_data {
                        Some(data) => json::json_view(data.0),
                        None => Json::Null,
                    },
                ) + seq!['}']
                &&& match invoice {
                    Ok(encoded) => res matches Ok(response) && response.encoded_invoice@
                        == encoded@,
                    Err(text) => res matches Err(Error::CreateInvoiceError(told)) && told@ == text@,
                }
            },
{
    reveal_strlit("{");
    reveal_strlit("}");
    assert("{"@ =~= seq!['{']);
    assert("}"@ =~= seq!['}']);
    let (committed, invoice) = choose|committed: &str, invoice: Result<String, String>|
        committed@ == pay::invoice_metadata(metadata@, query@.payer_data)
            && #[trigger] call_ensures(
            T::create_uma_invoice,
            (
                invoice_creator,
                (conversion.amount_msats + receiver_fees_millisats) as i64,
                committed,
            ),
            invoice,
        ) && error::outcome(res) == pay::pay_req_response(
            pay::invoice_view(invoice),
            (pay::PaymentTermsView {
                currency_code: currency_code@,
                currency_decimals,
                rate_bits: conversion.rate_bits,
                receiver_fees_millisats,
                utxos: text::texts(receiver_channel_utxos@),
                node_pub_key: text::opt_str(receiver_node_pub_key),
                utxo_callback: utxo_callback@,
            }),
        );
    assert(call_ensures(
        T::create_uma_invoice,
        (
            invoice_creator,
            (conversion.amount_msats + receiver_fees_millisats) as i64,
            committed,
        ),
        invoice,
    ));
}

} // verus!
