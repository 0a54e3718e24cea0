//! The request for an invoice, and its answer.
use vstd::prelude::*;
use vstd::string::*;

use crate::ambient;
use crate::encryption;
use crate::error;
use crate::error::{Error, ErrorView};
use crate::json;
use crate::json::Json;
use crate::protocol;
use crate::protocol::counter_party_data;
use crate::protocol::counter_party_data::CounterPartyDataOptions;
use crate::protocol::kyc_status::KycStatus;
use crate::protocol::pay_request::{PayRequest, PayRequestView};
use crate::protocol::payer_data;
use crate::protocol::payer_data::{
    CompliancePayerData, CompliancePayerDataView, PayerData, TravelRuleFormat,
    TravelRuleFormatView,
};
use crate::protocol::payreq_response::{
    PayReqResponse, PayReqResponseCompliance, PayReqResponsePaymentInfo, PayReqResponseView, Route,
};
use crate::signature;
use crate::text;
use crate::uma::nonce;

verus! {

/// What a sender claims for the compliance checks of the receiver.
pub struct ClaimsView {
    pub kyc_status: KycStatus,
    pub travel_rule_format: Option<TravelRuleFormatView>,
    pub utxos: Seq<Seq<char>>,
    pub node_pubkey: Option<Seq<char>>,
    pub utxo_callback: Seq<char>,
}

/// What a sender tells about the payer.
pub struct PayerView {
    pub identifier: Seq<char>,
    pub name: Option<Seq<char>>,
    pub email: Option<Seq<char>>,
    pub claims: ClaimsView,
}

/// What a sender asks for.
pub struct OrderView {
    pub amount: i64,
    pub receiving_currency_code: Seq<char>,
    pub is_amount_in_receiving_currency: bool,
    pub uma_major_version: i32,
    pub requested_payee_data: Option<Seq<(Seq<char>, bool)>>,
    pub comment: Option<Seq<char>>,
}

/// Compliance data about a payer with its signature, or why there is none.
pub open spec fn signed_payer_compliance(
    identifier: Seq<char>,
    claims: ClaimsView,
    private_key: Seq<u8>,
    encrypted_tr_info: Option<Seq<char>>,
    nonce: Seq<char>,
    timestamp: i64,
) -> Result<CompliancePayerDataView, ErrorView> {
    match signature::signed(text::payload_bytes(identifier, nonce, timestamp), private_key) {
        Err(e) => Err(e),
        Ok(signature) => Ok(
            CompliancePayerDataView {
                utxos: claims.utxos,
                node_pubkey: claims.node_pubkey,
                kyc_status: claims.kyc_status,
                encrypted_travel_rule_info: encrypted_tr_info,
                travel_rule_format: claims.travel_rule_format,
                signature,
                signature_nonce: nonce,
                signature_timestamp: timestamp,
                utxo_callback: claims.utxo_callback,
            },
        ),
    }
}

/// The request for an invoice, or why there is none. The currency of the amount is named
/// only where it is that of the receiver.
pub open spec fn pay_request(
    order: OrderView,
    payer: PayerView,
    private_key: Seq<u8>,
    encrypted_tr_info: Option<Seq<char>>,
    nonce: Seq<char>,
    timestamp: i64,
) -> Result<PayRequestView, ErrorView> {
    match signed_payer_compliance(
        payer.identifier,
        payer.claims,
        private_key,
        encrypted_tr_info,
        nonce,
        timestamp,
    ) {
        Err(e) => Err(e),
        Ok(compliance) => Ok(
            PayRequestView {
                sending_amount_currency_code: if order.is_amount_in_receiving_currency {
                    Some(order.receiving_currency_code)
                } else {
                    None
                },
                receiving_currency_code: Some(order.receiving_currency_code),
                payer_data: Some(
                    Json::Object(
                        payer_data::payer_members(
                            payer.identifier,
                            payer.name,
                            payer.email,
                            compliance,
                        ),
                    ),
                ),
                comment: order.comment,
                uma_major_version: order.uma_major_version,
                amount: order.amount,
                requested_payee_data: order.requested_payee_data,
            },
        ),
    }
}

/// The request for an invoice, given what came of the encryption.
pub open spec fn pay_request_after(
    encrypted: Result<Option<Seq<char>>, ErrorView>,
    order: OrderView,
    payer: PayerView,
    private_key: Seq<u8>,
    nonce: Seq<char>,
    timestamp: i64,
) -> Result<PayRequestView, ErrorView> {
    match encrypted {
        Err(e) => Err(e),
        Ok(info) => pay_request(order, payer, private_key, info, nonce, timestamp),
    }
}

/// What the encryption of travel rule information that may be missing can give.
pub open spec fn may_encrypt_opt_to(
    tr_info: Option<Seq<char>>,
    public_key: Seq<u8>,
    encrypted: Result<Option<Seq<char>>, ErrorView>,
) -> bool {
    match tr_info {
        None => encrypted == Ok::<Option<Seq<char>>, ErrorView>(None),
        Some(info) => match encrypted {
            Ok(Some(s)) => encryption::may_encrypt_to(info, public_key, Ok(s)),
            Ok(None) => false,
            Err(e) => encryption::may_encrypt_to(info, public_key, Err(e)),
        },
    }
}

/// Whether a request for an invoice carries travel rule information in a form that the receiver
/// can have it back from.
pub open spec fn carries_recoverable(
    request: PayRequestView,
    tr_info: Seq<char>,
    public_key: Seq<u8>,
) -> bool {
    request.payer_data matches Some(data) && payer_data::payer_compliance(data) matches Ok(
        Some(compliance),
    ) && compliance.encrypted_travel_rule_info matches Some(encrypted)
        && encryption::is_recoverable(tr_info, public_key, encrypted)
}

/// What checking the signature on a request for an invoice gives.
pub open spec fn verified_pay_request(request: PayRequestView, public_key: Seq<u8>) -> Result<
    (),
    ErrorView,
> {
    match request.signable() {
        Err(e) => Err(ErrorView::ProtocolError(e)),
        Ok(payload) => match request.payer_data {
            None => Err(ErrorView::InvalidSignature),
            Some(data) => match payer_data::payer_compliance(data) {
                Err(e) => Err(ErrorView::ProtocolError(e)),
                Ok(None) => Err(
                    ErrorView::ProtocolError(protocol::Error::MissingPayerDataCompliance),
                ),
                Ok(Some(compliance)) => signature::verified(
                    payload,
                    compliance.signature,
                    public_key,
                ),
            },
        },
    }
}

/// Whether the signature on a request for an invoice is accepted under each public key that
/// belongs to a private one.
pub open spec fn pay_request_verifies(request: PayRequestView, private_key: Seq<u8>) -> bool {
    forall|public_key: Seq<u8>| #[trigger]
        signature::is_key_pair(private_key, public_key) ==> verified_pay_request(
            request,
            public_key,
        ) is Ok
}

/// Checks the signature on a request for an invoice, with the public key of the VASP that
/// makes it.
///
/// # Arguments
///
/// * `pay_req` - the signed query to verify.
/// * `other_vasp_pub_key` - the bytes of the signing public key of the VASP making this
///   request.
pub fn verify_pay_req_signature(pay_req: &PayRequest, other_vasp_pub_key: &[u8]) -> (res: Result<
    (),
    Error,
>)
    ensures
        error::outcome(res) == verified_pay_request(pay_req@, other_vasp_pub_key@),
{
    let payload = match pay_req.signable_payload() {
        Ok(payload) => payload,
        Err(e) => {
            return Err(Error::ProtocolError(e));
        },
    };
    let data = match &pay_req.payer_data {
        Some(data) => data,
        None => {
            return Err(Error::InvalidSignature);
        },
    };
    match data.compliance() {
        Ok(Some(compliance)) => signature::verify_ecdsa(
            payload.as_slice(),
            compliance.signature.as_str(),
            other_vasp_pub_key,
        ),
        Ok(None) => Err(Error::ProtocolError(protocol::Error::MissingPayerDataCompliance)),
        Err(e) => Err(Error::ProtocolError(e)),
    }
}

/// Makes compliance data about a payer and signs it, with the encrypted information, a nonce
/// and a time that are given.
fn get_signed_compliance_payer_data(
    sending_vasp_private_key: &[u8],
    payer_identifier: &str,
    encrypted_tr_info: Option<String>,
    travel_rule_format: Option<TravelRuleFormat>,
    payer_kyc_status: KycStatus,
    payer_uxtos: &[String],
    payer_node_pubkey: Option<&str>,
    utxo_callback: &str,
    nonce: &str,
    timestamp: i64,
) -> (res: Result<CompliancePayerData, Error>)
    ensures
        error::outcome(res) == signed_payer_compliance(
            payer_identifier@,
            (ClaimsView {
                kyc_status: payer_kyc_status,
                travel_rule_format: payer_data::opt_format(travel_rule_format),
                utxos: text::texts(payer_uxtos@),
                node_pubkey: text::opt_str(payer_node_pubkey),
                utxo_callback: utxo_callback@,
            }),
            sending_vasp_private_key@,
            text::opt_text(encrypted_tr_info),
            nonce@,
            timestamp,
        ),
        res matches Ok(compliance) ==> signature::verifies_for_signer(
            text::payload_bytes(payer_identifier@, nonce@, timestamp),
            compliance@.signature,
            sending_vasp_private_key@,
        ),
{
    let payload = text::payload(payer_identifier, nonce, timestamp);
    match signature::sign_payload(payload.as_slice(), sending_vasp_private_key) {
        Ok(signature) => Ok(
            CompliancePayerData {
                utxos: text::copy_texts(payer_uxtos),
                node_pubkey: text::own_opt(payer_node_pubkey),
                kyc_status: payer_kyc_status,
                encrypted_travel_rule_info: encrypted_tr_info,
                travel_rule_format,
                signature,
                signature_nonce: nonce.to_owned(),
                signature_timestamp: timestamp,
                utxo_callback: utxo_callback.to_owned(),
            },
        ),
        Err(e) => Err(e),
    }
}

/// Makes a signed request for an invoice, with the encrypted travel rule information, a nonce
/// and a time that are given.
///
/// Its signature verifies under the public key that belongs to the private one.
pub fn pay_request_with(
    amount: i64,
    sending_vasp_private_key: &[u8],
    receving_currency_code: &str,
    is_amount_in_receving_currency_code: bool,
    payer_identifier: &str,
    uma_major_version: i32,
    payer_name: Option<&str>,
    payer_email: Option<&str>,
    encrypted_tr_info: Option<String>,
    travel_rule_format: Option<TravelRuleFormat>,
    payer_kyc_status: KycStatus,
    payer_uxtos: &[String],
    payer_node_pubkey: Option<&str>,
    utxo_callback: &str,
    requested_payee_data: Option<CounterPartyDataOptions>,
    comment: Option<&str>,
    nonce: &str,
    timestamp: i64,
) -> (res: Result<PayRequest, Error>)
    ensures
        error::outcome(res) == pay_request(
            (OrderView {
                amount,
                receiving_currency_code: receving_currency_code@,
                is_amount_in_receiving_currency: is_amount_in_receving_currency_code,
                uma_major_version,
                requested_payee_data: counter_party_data::opt_options(requested_payee_data),
                comment: text::opt_str(comment),
            }),
            (PayerView {
                identifier: payer_identifier@,
                name: text::opt_str(payer_name),
                email: text::opt_str(payer_email),
                claims: ClaimsView {
                    kyc_status: payer_kyc_status,
                    travel_rule_format: payer_data::opt_format(travel_rule_format),
                    utxos: text::texts(payer_uxtos@),
                    node_pubkey: text::opt_str(payer_node_pubkey),
                    utxo_callback: utxo_callback@,
                },
            }),
            sending_vasp_private_key@,
            text::opt_text(encrypted_tr_info),
            nonce@,
            timestamp,
        ),
        res matches Ok(request) ==> pay_request_verifies(request@, sending_vasp_private_key@),
{
    let compliance_data = match get_signed_compliance_payer_data(
        sending_vasp_private_key,
        payer_identifier,
        encrypted_tr_info,
        travel_rule_format,
        payer_kyc_status,
        payer_uxtos,
        payer_node_pubkey,
        utxo_callback,
        nonce,
        timestamp,
    ) {
        Ok(compliance_data) => compliance_data,
        Err(e) => {
            return Err(e);
        },
    };
    let sending_amount_currency_code: Option<String> = if is_amount_in_receving_currency_code {
        Some(receving_currency_code.to_owned())
    } else {
        None
    };
    let data = PayerData::new(payer_identifier, payer_name, payer_email, &compliance_data);
    proof {
        payer_data::payer_data_reads_back(
            payer_identifier@,
            text::opt_str(payer_name),
            text::opt_str(payer_email),
            compliance_data@,
        );
    }
    Ok(
        PayRequest {
            sending_amount_currency_code,
            receiving_currency_code: Some(receving_currency_code.to_owned()),
            payer_data: Some(data),
            comment: text::own_opt(comment),
            uma_major_version,
            amount,
            requested_payee_data,
        },
    )
}

/// Makes a signed request for an invoice.
///
/// # Arguments
///
/// * `receiver_encryption_pub_key` - the public key of the receiver of the payment. This will
///   be used to encrypt the travel rule information.
/// * `sending_vasp_private_key` - the private key of the VASP that is sending the payment.
///   This will be used to sign the request.
/// * `receving_currency_code` - the currency code of the payment.
/// * `amount` - the amount of the payment in the smallest unit of the specified currency
///   (i.e. cents for USD).
/// * `payer_identifier` - the identifier of the sender. For example, $alice@vasp1.com
/// * `payer_name` - the name of the sender.
/// * `payer_email` - the email of the sender.
/// * `tr_info` - the travel rule information to be encrypted.
/// * `travel_rule_format` - the format of the travel rule information (e.g. IVMS). `None`
///   indicates raw json or a custom format. It is written as <standardized format>@<version>
///   (e.g. ivms@101.2023). The version is optional.
/// * `payer_kyc_status` - the KYC status of the sender.
/// * `payer_uxtos` - the list of UTXOs of the sender's channels that might be used to fund the
///   payment.
/// * `payer_node_pubkey` - if known, the public key of the sender's node. If supported by the
///   receiving VASP's compliance provider, this will be used to pre-screen the sender's UTXOs
///   for compliance purposes.
/// * `utxo_callback` - the URL that the receiver will use to fetch the sender's UTXOs.
pub fn get_pay_request(
    amount: i64,
    receiver_encryption_pub_key: &[u8],
    sending_vasp_private_key: &[u8],
    receving_currency_code: &str,
    is_amount_in_receving_currency_code: bool,
    payer_identifier: &str,
    uma_major_version: i32,
    payer_name: Option<&str>,
    payer_email: Option<&str>,
    tr_info: Option<&str>,
    travel_rule_format: Option<TravelRuleFormat>,
    payer_kyc_status: KycStatus,
    payer_uxtos: &[String],
    payer_node_pubkey: Option<&str>,
    utxo_callback: &str,
    requested_payee_data: Option<CounterPartyDataOptions>,
    comment: Option<&str>,
) -> (res: Result<PayRequest, Error>)
    ensures
        exists|
            encrypted: Result<Option<Seq<char>>, ErrorView>,
            nonce: Seq<char>,
            timestamp: i64,
        |
            may_encrypt_opt_to(text::opt_str(tr_info), receiver_encryption_pub_key@, encrypted)
                && nonce::is_nonce(nonce) && ambient::is_clock_reading(timestamp) && error::outcome(
                res,
            ) == #[trigger] pay_request_after(
                encrypted,
                (OrderView {
                    amount,
                    receiving_currency_code: receving_currency_code@,
                    is_amount_in_receiving_currency: is_amount_in_receving_currency_code,
                    uma_major_version,
                    requested_payee_data: counter_party_data::opt_options(requested_payee_data),
                    comment: text::opt_str(comment),
                }),
                (PayerView {
                    identifier: payer_identifier@,
                    name: text::opt_str(payer_name),
                    email: text::opt_str(payer_email),
                    claims: ClaimsView {
                        kyc_status: payer_kyc_status,
                        travel_rule_format: payer_data::opt_format(travel_rule_format),
                        utxos: text::texts(payer_uxtos@),
                        node_pubkey: text::opt_str(payer_node_pubkey),
                        utxo_callback: utxo_callback@,
                    },
                }),
                sending_vasp_private_key@,
                nonce,
                timestamp,
            ),
        res matches Ok(request) ==> pay_request_verifies(request@, sending_vasp_private_key@),
        res matches Ok(request) ==> (tr_info matches Some(info) ==> carries_recoverable(
            request@,
            info@,
            receiver_encryption_pub_key@,
        )),
{
    let timestamp: i64 = ambient::now();
    let nonce = nonce::generate_nonce();
    let ghost order = OrderView {
        amount,
        receiving_currency_code: receving_currency_code@,
        is_amount_in_receiving_currency: is_amount_in_receving_currency_code,
        uma_major_version,
        requested_payee_data: counter_party_data::opt_options(requested_payee_data),
        comment: text::opt_str(comment),
    };
    let ghost payer = PayerView {
        identifier: payer_identifier@,
        name: text::opt_str(payer_name),
        email: text::opt_str(payer_email),
        claims: ClaimsView {
            kyc_status: payer_kyc_status,
            travel_rule_format: payer_data::opt_format(travel_rule_format),
            utxos: text::texts(payer_uxtos@),
            node_pubkey: text::opt_str(payer_node_pubkey),
            utxo_callback: utxo_callback@,
        },
    };
    let encrypted_tr_info: Option<String> = match tr_info {
        Some(info) => match encryption::encrypt_tr_info(info, receiver_encryption_pub_key) {
            Ok(encrypted) => Some(encrypted),
            Err(e) => {
                assert(may_encrypt_opt_to(
                    text::opt_str(tr_info),
                    receiver_encryption_pub_key@,
                    Err(e@),
                ));
                assert(pay_request_after(
                    Err(e@),
                    order,
                    payer,
                    sending_vasp_private_key@,
                    nonce@,
                    timestamp,
                ) == Err::<PayRequestView, ErrorView>(e@));
                return Err(e);
            },
        },
        None => None,
    };
    let ghost encrypted = Ok::<Option<Seq<char>>, ErrorView>(text::opt_text(encrypted_tr_info));
    assert(may_encrypt_opt_to(text::opt_str(tr_info), receiver_encryption_pub_key@, encrypted));
    let res = pay_request_with(
        amount,
        sending_vasp_private_key,
        receving_currency_code,
        is_amount_in_receving_currency_code,
        payer_identifier,
        uma_major_version,
        payer_name,
        payer_email,
        encrypted_tr_info,
        travel_rule_format,
        payer_kyc_status,
        payer_uxtos,
        payer_node_pubkey,
        utxo_callback,
        requested_payee_data,
        comment,
        nonce.as_str(),
        timestamp,
    );
    assert(error::outcome(res) == pay_request_after(
        encrypted,
        order,
        payer,
        sending_vasp_private_key@,
        nonce@,
        timestamp,
    ));
    proof {
        if let Ok(compliance) = signed_payer_compliance(
            payer.identifier,
            payer.claims,
            sending_vasp_private_key@,
            encrypted->Ok_0,
            nonce@,
            timestamp,
        ) {
            payer_data::payer_data_reads_back(
                payer.identifier,
                payer.name,
                payer.email,
                compliance,
            );
        }
    }
    res
}

/// Makes invoices.
pub trait UmaInvoiceCreator {
    /// Makes an invoice over an amount in millisatoshis, with the metadata that it commits to.
    /// An error is given as its text.
    fn create_uma_invoice(&self, amount_msat: i64, metadata: &str) -> (res: Result<
        String,
        String,
    >);
}

/// The amount of a pay request, converted to millisatoshis.
#[derive(Debug, Clone, Copy, PartialEq, Eq, Structural)]
pub struct Conversion {
    /// The amount in millisatoshis, before fees.
    pub amount_msats: i64,
    /// The rate of the conversion, in millisatoshis for each unit of the amount, as the bits
    /// of a double-precision number.
    pub rate_bits: u64,
}

/// The metadata that an invoice commits to: that of the receiver, then the JSON text of the
/// payer data, or of null, in braces.
pub open spec fn invoice_metadata(metadata: Seq<char>, payer_data: Option<Json>) -> Seq<char> {
    metadata + "{"@ + json::json_text(
        match payer_data {
            Some(data) => data,
            None => Json::Null,
        },
    ) + "}"@
}

/// What a receiver tells about how it is paid.
pub struct PaymentTermsView {
    pub currency_code: Seq<char>,
    pub currency_decimals: i32,
    pub rate_bits: u64,
    pub receiver_fees_millisats: i64,
    pub utxos: Seq<Seq<char>>,
    pub node_pub_key: Option<Seq<char>>,
    pub utxo_callback: Seq<char>,
}

/// The answer to a pay request, given what came of making the invoice.
pub open spec fn pay_req_response(
    invoice: Result<Seq<char>, Seq<char>>,
    terms: PaymentTermsView,
) -> Result<PayReqResponseView, ErrorView> {
    match invoice {
        Err(e) => Err(ErrorView::CreateInvoiceError(e)),
        Ok(encoded_invoice) => Ok(
            PayReqResponseView {
                encoded_invoice,
                routes: Seq::empty(),
                node_pub_key: terms.node_pub_key,
                utxos: terms.utxos,
                utxo_callback: terms.utxo_callback,
                currency_code: terms.currency_code,
                decimals: terms.currency_decimals,
                multiplier_bits: terms.rate_bits,
                exchange_fees_millisatoshi: terms.receiver_fees_millisats,
            },
        ),
    }
}

/// The view of what came of making an invoice.
pub open spec fn invoice_view(invoice: Result<String, String>) -> Result<Seq<char>, Seq<char>> {
    match invoice {
        Ok(s) => Ok(s@),
        Err(e) => Err(e@),
    }
}

/// Makes the answer to a pay request of what came of making the invoice.
pub fn pay_req_response_with(
    invoice: Result<String, String>,
    currency_code: &str,
    currency_decimals: i32,
    rate_bits: u64,
    receiver_fees_millisats: i64,
    receiver_channel_utxos: &[String],
    receiver_node_pub_key: Option<&str>,
    utxo_callback: &str,
) -> (res: Result<PayReqResponse, Error>)
    ensures
        error::outcome(res) == pay_req_response(
            invoice_view(invoice),
            (PaymentTermsView {
                currency_code: currency_code@,
                currency_decimals,
                rate_bits,
                receiver_fees_millisats,
                utxos: text::texts(receiver_channel_utxos@),
                node_pub_key: text::opt_str(receiver_node_pub_key),
                utxo_callback: utxo_callback@,
            }),
        ),
{
    let encoded_invoice = match invoice {
        Ok(encoded_invoice) => encoded_invoice,
        Err(e) => {
            return Err(Error::CreateInvoiceError(e));
        },
    };
    let routes: Vec<Route> = Vec::new();
    let res = PayReqResponse {
        encoded_invoice,
        routes,
        compliance: PayReqResponseCompliance {
            node_pub_key: text::own_opt(receiver_node_pub_key),
            utxos: text::copy_texts(receiver_channel_utxos),
            utxo_callback: utxo_callback.to_owned(),
        },
        payment_info: PayReqResponsePaymentInfo {
            currency_code: currency_code.to_owned(),
            decimals: currency_decimals,
            multiplier_bits: rate_bits,
            exchange_fees_millisatoshi: receiver_fees_millisats,
        },
    };
    assert(res@.routes =~= Seq::empty());
    Ok(res)
}

/// Makes the answer to a pay request: an invoice over the converted amount and the fees of the
/// receiver, committing to the metadata and to the payer data, and how the receiver is paid.
pub fn get_pay_req_response<T>(
    query: &PayRequest,
    invoice_creator: &T,
    metadata: &str,
    currency_code: &str,
    currency_decimals: i32,
    conversion: Conversion,
    receiver_fees_millisats: i64,
    receiver_channel_utxos: &[String],
    receiver_node_pub_key: Option<&str>,
    utxo_callback: &str,
) -> (res: Result<PayReqResponse, Error>) where T: UmaInvoiceCreator
    requires
        i64::MIN <= conversion.amount_msats + receiver_fees_millisats <= i64::MAX,
    ensures
        exists|committed: &str, invoice: Result<String, String>|
            committed@ == invoice_metadata(metadata@, query@.payer_data)
                && #[trigger] call_ensures(
                T::create_uma_invoice,
                (
                    invoice_creator,
                    (conversion.amount_msats + receiver_fees_millisats) as i64,
                    committed,
                ),
                invoice,
            ) && error::outcome(res) == pay_req_response(
                invoice_view(invoice),
                (PaymentTermsView {
                    currency_code: currency_code@,
                    currency_decimals,
                    rate_bits: conversion.rate_bits,
                    receiver_fees_millisats,
                    utxos: text::texts(receiver_channel_utxos@),
                    node_pub_key: text::opt_str(receiver_node_pub_key),
                    utxo_callback: utxo_callback@,
                }),
            ),
{
    let msats_amount: i64 = conversion.amount_msats + receiver_fees_millisats;
    let encoded = match &query.payer_data {
        Some(data) => json::to_string(&data.0),
        None => {
            let null = json::null();
            json::to_string(&null)
        },
    };
    let encoded_payer_data = match encoded {
        Ok(encoded_payer_data) => encoded_payer_data,
        Err(e) => {
            return Err(Error::InvalidData(e));
        },
    };
    let mut full_metadata = metadata.to_owned();
    full_metadata.append("{");
    full_metadata.append(encoded_payer_data.as_str());
    full_metadata.append("}");
    let committed = full_metadata.as_str();
    let invoice = invoice_creator.create_uma_invoice(msats_amount, committed);
    assert(call_ensures(
        T::create_uma_invoice,
        (invoice_creator, msats_amount, committed),
        invoice,
    ));
    pay_req_response_with(
        invoice,
        currency_code,
        currency_decimals,
        conversion.rate_bits,
        receiver_fees_millisats,
        receiver_channel_utxos,
        receiver_node_pub_key,
        utxo_callback,
    )
}

} // verus!
