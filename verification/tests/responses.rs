use bitcoin::secp256k1::{PublicKey, Secp256k1, SecretKey};
use uma::error::Error;
use uma::protocol::counter_party_data::{CounterPartyDataOption, CounterPartyDataOptions};
use uma::protocol::currency::Currency;
use uma::protocol::kyc_status::KycStatus;
use uma::protocol::lnurl_request::LnurlpRequest;
use uma::protocol::lnurl_response::LnurlpResponse;
use uma::signature::sign_payload;
use uma::uma::response::lnurlp_response_with;
use uma::uma::{get_lnurlp_response, verify_uma_lnurlp_response_signature};

const KEY: [u8; 32] = [0x22; 32];

fn public_key() -> Vec<u8> {
    let secret_key = SecretKey::from_slice(&KEY).unwrap();
    PublicKey::from_secret_key(&Secp256k1::new(), &secret_key).serialize().to_vec()
}

fn request(version: Option<&str>) -> LnurlpRequest {
    LnurlpRequest {
        receiver_address: "$bob@vasp2.com".to_string(),
        nonce: Some("1".to_string()),
        signature: Some("00".to_string()),
        is_subject_to_travel_rule: Some(true),
        vasp_domain: Some("vasp1.com".to_string()),
        timestamp: Some(2),
        uma_version: version.map(String::from),
    }
}

fn options() -> CounterPartyDataOptions {
    CounterPartyDataOptions {
        options: vec![
            CounterPartyDataOption { name: "identifier".to_string(), mandatory: true },
            CounterPartyDataOption { name: "email".to_string(), mandatory: false },
        ],
    }
}

fn currencies() -> Vec<Currency> {
    vec![Currency {
        code: "USD".to_string(),
        name: "US Dollar".to_string(),
        symbol: "$".to_string(),
        millisatoshi_per_unit_bits: 34150f64.to_bits(),
        min_sendable: 1,
        max_sendable: 1000,
        decimals: 2,
    }]
}

fn respond(
    query: &LnurlpRequest,
    key: &[u8],
    nostr_pubkey: Option<String>,
) -> Result<LnurlpResponse, Error> {
    lnurlp_response_with(
        query,
        key,
        true,
        "https://vasp2.com/pay",
        "[]",
        5,
        7000,
        &options(),
        &currencies(),
        KycStatus::Verified,
        Some(140),
        nostr_pubkey,
        "77",
        1234,
    )
}

#[test]
fn answer_with_all_fields() {
    let response = respond(&request(Some("1.0")), &KEY, None).unwrap();
    assert_eq!(response.tag, "payRequest");
    assert_eq!(response.callback, "https://vasp2.com/pay");
    assert_eq!(response.min_sendable, 5000);
    assert_eq!(response.max_sendable, 7000000);
    assert_eq!(response.encoded_metadata, "[]");
    let currencies = response.currencies.as_ref().unwrap();
    assert_eq!(currencies.len(), 1);
    assert_eq!(currencies[0].code, "USD");
    assert_eq!(f64::from_bits(currencies[0].millisatoshi_per_unit_bits), 34150.0);
    assert_eq!(currencies[0].decimals, 2);
    let options = response.required_payer_data.as_ref().unwrap();
    assert_eq!(options.options.len(), 2);
    assert_eq!(options.options[0].name, "identifier");
    assert!(options.options[0].mandatory);
    assert!(!options.options[1].mandatory);
    let compliance = response.compliance.as_ref().unwrap();
    assert_eq!(compliance.kyc_status, KycStatus::Verified);
    assert_eq!(compliance.nonce, "77");
    assert_eq!(compliance.timestamp, 1234);
    assert!(compliance.is_subject_to_travel_rule);
    assert_eq!(compliance.receiver_identifier, "$bob@vasp2.com");
    assert_eq!(
        compliance.signature,
        sign_payload(b"$bob@vasp2.com|77|1234", &KEY).unwrap()
    );
    assert_eq!(response.uma_version.as_deref(), Some("1.0"));
    assert_eq!(response.comment_chars_allowed, Some(140));
    assert_eq!(response.nostr_pubkey, None);
    assert_eq!(response.allows_nostr, None);
    assert!(verify_uma_lnurlp_response_signature(&response, &public_key()).is_ok());
}

#[test]
fn nostr_is_allowed_with_its_key() {
    let response = respond(&request(Some("1.0")), &KEY, Some("npub".to_string())).unwrap();
    assert_eq!(response.nostr_pubkey.as_deref(), Some("npub"));
    assert_eq!(response.allows_nostr, Some(true));
}

#[test]
fn lower_version_is_answered() {
    for (asked, answered) in [("0.3", "0.3"), ("1.0", "1.0"), ("1.5", "1.0"), ("7.0", "1.0")] {
        let response = respond(&request(Some(asked)), &KEY, None).unwrap();
        assert_eq!(response.uma_version.as_deref(), Some(answered));
    }
}

#[test]
fn request_without_a_version() {
    assert!(matches!(respond(&request(None), &KEY, None), Err(Error::InvalidVersion)));
    assert!(matches!(respond(&request(Some("one")), &KEY, None), Err(Error::InvalidVersion)));
}

#[test]
fn key_is_asked_for_before_the_version() {
    assert!(matches!(
        respond(&request(None), &[0u8; 32], None),
        Err(Error::Secp256k1Error(_))
    ));
}

#[test]
fn amounts_do_not_matter_to_a_refusal() {
    for (query, key) in [
        (request(None), &KEY[..]),
        (request(Some("one")), &KEY[..]),
        (request(Some("1.0")), &[0u8; 32][..]),
    ] {
        let refused = get_lnurlp_response(
            &query,
            key,
            true,
            "",
            "",
            i64::MIN,
            i64::MAX,
            &options(),
            &[],
            KycStatus::Unknown,
            None,
            None,
        );
        assert!(matches!(
            refused,
            Err(Error::InvalidVersion) | Err(Error::Secp256k1Error(_))
        ));
    }
}

#[test]
fn answer_of_now_is_verified() {
    let response = get_lnurlp_response(
        &request(Some("1.0")),
        &KEY,
        false,
        "https://vasp2.com/pay",
        "[]",
        1,
        2,
        &options(),
        &currencies(),
        KycStatus::Pending,
        None,
        None,
    )
    .unwrap();
    let compliance = response.compliance.as_ref().unwrap();
    let now = chrono::Utc::now().timestamp();
    assert!((now - 60..=now).contains(&compliance.timestamp));
    assert!(compliance.nonce.parse::<u64>().is_ok());
    assert!(!compliance.is_subject_to_travel_rule);
    assert!(verify_uma_lnurlp_response_signature(&response, &public_key()).is_ok());
}

#[test]
fn changed_answer_is_not_verified() {
    let mut response = respond(&request(Some("1.0")), &KEY, None).unwrap();
    let mut compliance = response.compliance.take().unwrap();
    compliance.receiver_identifier = "$eve@vasp2.com".to_string();
    response.compliance = Some(compliance);
    assert!(matches!(
        verify_uma_lnurlp_response_signature(&response, &public_key()),
        Err(Error::InvalidSignature)
    ));
}

#[test]
fn incomplete_answer_is_invalid() {
    let take: [fn(&mut LnurlpResponse); 4] = [
        |r| r.compliance = None,
        |r| r.currencies = None,
        |r| r.required_payer_data = None,
        |r| r.uma_version = None,
    ];
    for remove in take {
        let mut response = respond(&request(Some("1.0")), &KEY, None).unwrap();
        remove(&mut response);
        assert!(response.as_uma_response().is_none());
        assert!(matches!(
            verify_uma_lnurlp_response_signature(&response, &public_key()),
            Err(Error::InvalidResponse)
        ));
    }
}
