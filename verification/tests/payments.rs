use bitcoin::secp256k1::{PublicKey, Secp256k1, SecretKey};
use serde_json::Value;
use std::cell::RefCell;
use uma::error::Error;
use uma::protocol;
use uma::protocol::counter_party_data::{CounterPartyDataOption, CounterPartyDataOptions};
use uma::protocol::kyc_status::KycStatus;
use uma::protocol::pay_request::PayRequest;
use uma::protocol::payer_data::{CompliancePayerData, PayerData, TravelRuleFormat};
use uma::signature::sign_payload;
use uma::uma::pay::{pay_req_response_with, pay_request_with, Conversion};
use uma::uma::{
    get_pay_req_response, get_pay_request, verify_pay_req_signature, UmaInvoiceCreator,
};

const KEY: [u8; 32] = [0x33; 32];
const RECEIVER_KEY: [u8; 32] = [0x44; 32];

fn public_key(secret: &[u8]) -> Vec<u8> {
    let secret_key = SecretKey::from_slice(secret).unwrap();
    PublicKey::from_secret_key(&Secp256k1::new(), &secret_key).serialize().to_vec()
}

fn json(text: &str) -> Value {
    serde_json::from_str(text).unwrap()
}

fn request_over(in_receiving_currency: bool, format: Option<TravelRuleFormat>) -> PayRequest {
    pay_request_with(
        1000,
        &KEY,
        "USD",
        in_receiving_currency,
        "$alice@vasp1.com",
        1,
        Some("Alice"),
        None,
        Some("abcd".to_string()),
        format,
        KycStatus::Verified,
        &["utxo1".to_string(), "utxo2".to_string()],
        Some("node"),
        "/callback",
        Some(CounterPartyDataOptions {
            options: vec![CounterPartyDataOption {
                name: "name".to_string(),
                mandatory: true,
            }],
        }),
        Some("thanks"),
        "55",
        1234,
    )
    .unwrap()
}

fn ivms() -> Option<TravelRuleFormat> {
    Some(TravelRuleFormat {
        format: "ivms".to_string(),
        version: Some("101.2023".to_string()),
    })
}

#[test]
fn pay_request_with_all_fields() {
    let request = request_over(true, ivms());
    assert_eq!(request.sending_amount_currency_code.as_deref(), Some("USD"));
    assert_eq!(request.receiving_currency_code.as_deref(), Some("USD"));
    assert_eq!(request.comment.as_deref(), Some("thanks"));
    assert_eq!(request.uma_major_version, 1);
    assert_eq!(request.amount, 1000);
    assert_eq!(request.requested_payee_data.as_ref().unwrap().options[0].name, "name");
    let signature = sign_payload(b"$alice@vasp1.com|55|1234", &KEY).unwrap();
    let expected = format!(
        "{{\"identifier\":\"$alice@vasp1.com\",\"name\":\"Alice\",\"email\":null,\
         \"compliance\":{{\"utxos\":[\"utxo1\",\"utxo2\"],\"nodePubKey\":\"node\",\
         \"kycStatus\":\"VERIFIED\",\"encryptedTravelRuleInfo\":\"abcd\",\
         \"travelRuleFormat\":\"ivms@101.2023\",\"signature\":\"{}\",\
         \"signatureNonce\":\"55\",\"signatureTimestamp\":1234,\
         \"utxoCallback\":\"/callback\"}}}}",
        signature
    );
    assert_eq!(request.payer_data.as_ref().unwrap().0, json(&expected));
    assert!(verify_pay_req_signature(&request, &public_key(&KEY)).is_ok());
}

#[test]
fn amount_in_millisatoshis_names_no_currency() {
    let request = request_over(false, None);
    assert_eq!(request.sending_amount_currency_code, None);
    assert_eq!(request.receiving_currency_code.as_deref(), Some("USD"));
}

#[test]
fn compliance_data_is_read_back() {
    let request = request_over(true, ivms());
    let data = request.payer_data.as_ref().unwrap();
    assert_eq!(data.identifier().as_deref(), Some("$alice@vasp1.com"));
    let compliance = data.compliance().unwrap().unwrap();
    assert_eq!(compliance.utxos, vec!["utxo1".to_string(), "utxo2".to_string()]);
    assert_eq!(compliance.node_pubkey.as_deref(), Some("node"));
    assert_eq!(compliance.kyc_status, KycStatus::Verified);
    assert_eq!(compliance.encrypted_travel_rule_info.as_deref(), Some("abcd"));
    let format = compliance.travel_rule_format.unwrap();
    assert_eq!(format.format, "ivms");
    assert_eq!(format.version.as_deref(), Some("101.2023"));
    assert_eq!(compliance.signature_nonce, "55");
    assert_eq!(compliance.signature_timestamp, 1234);
    assert_eq!(compliance.utxo_callback, "/callback");
}

#[test]
fn extreme_timestamps_are_read_back() {
    for timestamp in [i64::MIN, -1, 0, i64::MAX] {
        let data = CompliancePayerData {
            utxos: vec![],
            node_pubkey: None,
            kyc_status: KycStatus::NotVerified,
            encrypted_travel_rule_info: None,
            travel_rule_format: None,
            signature: "s".to_string(),
            signature_nonce: "n".to_string(),
            signature_timestamp: timestamp,
            utxo_callback: String::new(),
        };
        let read = CompliancePayerData::from_json(&data.to_json()).unwrap();
        assert_eq!(read.signature_timestamp, timestamp);
        assert_eq!(read.kyc_status, KycStatus::NotVerified);
        assert!(read.utxos.is_empty());
        assert!(read.node_pubkey.is_none());
    }
}

#[test]
fn travel_rule_formats() {
    for (text, format, version) in [
        ("ivms@101.2023", "ivms", Some("101.2023")),
        ("raw", "raw", None),
        ("a@b@c", "a", Some("b@c")),
        ("x@", "x", Some("")),
    ] {
        let read = TravelRuleFormat::from_text(text);
        assert_eq!(read.format, format);
        assert_eq!(read.version.as_deref(), version);
        assert_eq!(read.to_text(), text);
    }
}

#[test]
fn names_of_kyc_statuses() {
    for (status, name) in [
        (KycStatus::Unknown, "UNKNOWN"),
        (KycStatus::NotVerified, "NOT_VERIFIED"),
        (KycStatus::Pending, "PENDING"),
        (KycStatus::Verified, "VERIFIED"),
    ] {
        assert_eq!(status.as_str(), name);
        assert_eq!(KycStatus::from_name(name), Some(status));
    }
    assert_eq!(KycStatus::from_name("verified"), None);
}

#[test]
fn travel_rule_information_reaches_the_receiver() {
    let request = get_pay_request(
        5,
        &public_key(&RECEIVER_KEY),
        &KEY,
        "EUR",
        false,
        "$alice@vasp1.com",
        1,
        None,
        Some("alice@mail.com"),
        Some("travel rule"),
        None,
        KycStatus::Pending,
        &[],
        None,
        "",
        None,
        None,
    )
    .unwrap();
    assert!(verify_pay_req_signature(&request, &public_key(&KEY)).is_ok());
    assert!(request.comment.is_none());
    let compliance = request.payer_data.as_ref().unwrap().compliance().unwrap().unwrap();
    let ciphertext = hex::decode(compliance.encrypted_travel_rule_info.unwrap()).unwrap();
    assert_eq!(ecies::decrypt(&RECEIVER_KEY, &ciphertext).unwrap(), b"travel rule");
    let now = chrono::Utc::now().timestamp();
    assert!((now - 60..=now).contains(&compliance.signature_timestamp));
    assert!(compliance.signature_nonce.parse::<u64>().is_ok());
}

fn pay_request_for(encryption_key: &[u8], key: &[u8], info: Option<&str>) -> Result<PayRequest, Error> {
    get_pay_request(
        5,
        encryption_key,
        key,
        "EUR",
        false,
        "$alice@vasp1.com",
        1,
        None,
        None,
        info,
        None,
        KycStatus::Unknown,
        &[],
        None,
        "",
        None,
        None,
    )
}

#[test]
fn errors_of_a_pay_request() {
    assert!(matches!(
        pay_request_for(&[], &[0u8; 32], Some("info")),
        Err(Error::EciesSecp256k1Error(_))
    ));
    assert!(matches!(
        pay_request_for(&[], &[0u8; 32], None),
        Err(Error::Secp256k1Error(_))
    ));
    let request = pay_request_for(&[], &KEY, None).unwrap();
    let compliance = request.payer_data.as_ref().unwrap().compliance().unwrap().unwrap();
    assert!(compliance.encrypted_travel_rule_info.is_none());
}

fn with_payer_data(data: Option<Value>) -> PayRequest {
    let mut request = request_over(true, None);
    request.payer_data = data.map(PayerData);
    request
}

#[test]
fn pay_requests_that_cannot_be_verified() {
    let key = public_key(&KEY);
    let error = |data: Option<Value>| match verify_pay_req_signature(&with_payer_data(data), &key) {
        Err(Error::ProtocolError(e)) => e,
        other => panic!("{:?}", other),
    };
    assert_eq!(error(None), protocol::Error::MissingPayerData);
    assert_eq!(error(Some(json("{}"))), protocol::Error::MissingPayerDataIdentifier);
    assert_eq!(error(Some(json("[1]"))), protocol::Error::MissingPayerDataIdentifier);
    assert_eq!(
        error(Some(json("{\"identifier\":\"a\"}"))),
        protocol::Error::MissingPayerDataCompliance
    );
    assert_eq!(
        error(Some(json("{\"identifier\":\"a\",\"compliance\":null}"))),
        protocol::Error::MissingPayerDataCompliance
    );
    assert_eq!(
        error(Some(json("{\"identifier\":\"a\",\"compliance\":{}}"))),
        protocol::Error::InvalidPayerDataCompliance
    );
}

#[test]
fn compliance_data_with_a_wrong_member() {
    let good = request_over(true, ivms()).payer_data.unwrap().0;
    for (name, value) in [
        ("utxos", "null"),
        ("utxos", "[1]"),
        ("utxos", "\"x\""),
        ("nodePubKey", "5"),
        ("kycStatus", "\"other\""),
        ("kycStatus", "null"),
        ("encryptedTravelRuleInfo", "[]"),
        ("travelRuleFormat", "{}"),
        ("signature", "null"),
        ("signatureNonce", "1"),
        ("signatureTimestamp", "1.5"),
        ("signatureTimestamp", "1.0"),
        ("signatureTimestamp", "9223372036854775808"),
        ("signatureTimestamp", "\"1\""),
        ("utxoCallback", "true"),
    ] {
        let mut data = good.clone();
        data["compliance"][name] = json(value);
        assert_eq!(
            PayerData(data).compliance().unwrap_err(),
            protocol::Error::InvalidPayerDataCompliance
        );
    }
    for (name, value) in [
        ("nodePubKey", "null"),
        ("encryptedTravelRuleInfo", "null"),
        ("travelRuleFormat", "null"),
        ("more", "1"),
    ] {
        let mut data = good.clone();
        data["compliance"][name] = json(value);
        assert!(PayerData(data).compliance().unwrap().is_some());
    }
}

#[test]
fn changed_pay_request_is_not_verified() {
    let request = request_over(true, ivms());
    let mut data = request.payer_data.unwrap().0;
    data["identifier"] = json("\"$eve@vasp1.com\"");
    assert!(matches!(
        verify_pay_req_signature(&with_payer_data(Some(data)), &public_key(&KEY)),
        Err(Error::InvalidSignature)
    ));
}

struct Creator {
    asked: RefCell<Vec<(i64, String)>>,
    answer: Result<String, String>,
}

impl UmaInvoiceCreator for Creator {
    fn create_uma_invoice(&self, amount_msat: i64, metadata: &str) -> Result<String, String> {
        self.asked.borrow_mut().push((amount_msat, metadata.to_string()));
        self.answer.clone()
    }
}

#[test]
fn answer_to_a_pay_request() {
    let creator = Creator {
        asked: RefCell::new(vec![]),
        answer: Ok("lnbc1".to_string()),
    };
    let request = with_payer_data(Some(json("{\"b\":[1,true,null],\"a\":\"x\\\"y\"}")));
    let response = get_pay_req_response(
        &request,
        &creator,
        "[[\"text/plain\",\"pay\"]]",
        "USD",
        2,
        Conversion { amount_msats: 34150000, rate_bits: 34150f64.to_bits() },
        250,
        &["utxo".to_string()],
        Some("node"),
        "/done",
    )
    .unwrap();
    assert_eq!(
        creator.asked.into_inner(),
        vec![(
            34150250,
            "[[\"text/plain\",\"pay\"]]{{\"a\":\"x\\\"y\",\"b\":[1,true,null]}}".to_string()
        )]
    );
    assert_eq!(response.encoded_invoice, "lnbc1");
    assert!(response.routes.is_empty());
    assert_eq!(response.compliance.node_pub_key.as_deref(), Some("node"));
    assert_eq!(response.compliance.utxos, vec!["utxo".to_string()]);
    assert_eq!(response.compliance.utxo_callback, "/done");
    assert_eq!(response.payment_info.currency_code, "USD");
    assert_eq!(response.payment_info.decimals, 2);
    assert_eq!(f64::from_bits(response.payment_info.multiplier_bits), 34150.0);
    assert_eq!(response.payment_info.exchange_fees_millisatoshi, 250);
}

#[test]
fn invoice_without_payer_data() {
    let creator = Creator {
        asked: RefCell::new(vec![]),
        answer: Err("no funds".to_string()),
    };
    let result = get_pay_req_response(
        &with_payer_data(None),
        &creator,
        "m",
        "USD",
        2,
        Conversion { amount_msats: 1, rate_bits: 0 },
        -3,
        &[],
        None,
        "",
    );
    assert_eq!(creator.asked.into_inner(), vec![(-2, "m{null}".to_string())]);
    match result {
        Err(Error::CreateInvoiceError(text)) => assert_eq!(text, "no funds"),
        other => panic!("{:?}", other),
    }
}

#[test]
fn answer_made_of_an_invoice() {
    let made = pay_req_response_with(Ok("inv".to_string()), "EUR", 2, 7, 8, &[], None, "u").unwrap();
    assert_eq!(made.encoded_invoice, "inv");
    assert_eq!(made.payment_info.multiplier_bits, 7);
    assert_eq!(made.payment_info.exchange_fees_millisatoshi, 8);
    assert!(made.compliance.node_pub_key.is_none());
    assert!(matches!(
        pay_req_response_with(Err("e".to_string()), "EUR", 2, 7, 8, &[], None, "u"),
        Err(Error::CreateInvoiceError(_))
    ));
}
