use bitcoin::secp256k1::{PublicKey, Secp256k1, SecretKey};
use uma::error::Error;
use uma::protocol;
use uma::protocol::lnurl_request::LnurlpRequest;
use uma::signature::sign_payload;
use uma::text::decimal_text;
use uma::uma::request::{parse_lnurlp_request_parts, signed_lnurlp_request_url};
use uma::uma::{
    generate_nonce, get_signed_lnurlp_request_url, get_vasp_domain_from_uma_address,
    is_uma_lnurl_query, parse_lnurlp_request, verify_uma_lnurlp_query_signature,
};

const KEY: [u8; 32] = [0x11; 32];

fn public_key() -> Vec<u8> {
    let secret_key = SecretKey::from_slice(&KEY).unwrap();
    PublicKey::from_secret_key(&Secp256k1::new(), &secret_key).serialize().to_vec()
}

fn url(text: &str) -> url::Url {
    url::Url::parse(text).unwrap()
}

const GOOD: &str = "https://vasp2.com/.well-known/lnurlp/$bob?signature=ab&vaspDomain=vasp1.com\
                    &nonce=12&isSubjectToTravelRule=true&timestamp=34&umaVersion=1.0";

#[test]
fn nonce_is_a_number() {
    let nonce = generate_nonce();
    assert_eq!(nonce, nonce.parse::<u64>().unwrap().to_string());
    assert_ne!(nonce, generate_nonce());
}

#[test]
fn decimal_numbers() {
    assert_eq!(decimal_text(0), "0");
    assert_eq!(decimal_text(1905), "1905");
    assert_eq!(decimal_text(u64::MAX), "18446744073709551615");
}

#[test]
fn request_with_all_parameters() {
    let request = parse_lnurlp_request(&url(GOOD)).unwrap();
    assert_eq!(request.receiver_address, "$bob@vasp2.com");
    assert_eq!(request.signature.as_deref(), Some("ab"));
    assert_eq!(request.vasp_domain.as_deref(), Some("vasp1.com"));
    assert_eq!(request.nonce.as_deref(), Some("12"));
    assert_eq!(request.is_subject_to_travel_rule, Some(true));
    assert_eq!(request.timestamp, Some(34));
    assert_eq!(request.uma_version.as_deref(), Some("1.0"));
    assert!(is_uma_lnurl_query(&url(GOOD)));
    let uma = request.as_uma_request().unwrap();
    assert_eq!(uma.signable_payload(), b"$bob@vasp2.com|12|34".to_vec());
    assert_eq!(request.signable_payload().unwrap(), b"$bob@vasp2.com|12|34".to_vec());
}

#[test]
fn each_missing_parameter_is_named() {
    for (name, reported) in [
        ("signature", "signature"),
        ("vaspDomain", "vsapDomain"),
        ("nonce", "nonce"),
        ("timestamp", "timestamp"),
        ("umaVersion", "umaVersion"),
    ] {
        let without = url(&GOOD.replace(name, "other"));
        match parse_lnurlp_request(&without) {
            Err(Error::MissingUrlParam(param)) => assert_eq!(param, reported),
            other => panic!("{:?}", other),
        }
        assert!(!is_uma_lnurl_query(&without));
    }
}

#[test]
fn parameters_are_asked_for_before_the_path() {
    match parse_lnurlp_request(&url("https://vasp2.com/elsewhere")) {
        Err(Error::MissingUrlParam(param)) => assert_eq!(param, "signature"),
        other => panic!("{:?}", other),
    }
}

#[test]
fn timestamp_that_is_no_number() {
    for value in ["", "abc", "1.5", "9223372036854775808", "%2B"] {
        let bad = url(&GOOD.replace("timestamp=34", &format!("timestamp={}", value)));
        match parse_lnurlp_request(&bad) {
            Err(Error::MissingUrlParam(param)) => assert_eq!(param, "timestamp"),
            other => panic!("{:?}", other),
        }
    }
    for (value, number) in [
        ("-5", -5),
        ("%2B5", 5),
        ("007", 7),
        ("9223372036854775807", i64::MAX),
        ("-9223372036854775808", i64::MIN),
    ] {
        let good = url(&GOOD.replace("timestamp=34", &format!("timestamp={}", value)));
        assert_eq!(parse_lnurlp_request(&good).unwrap().timestamp, Some(number));
    }
}

#[test]
fn flag_in_letters_of_any_case() {
    for (value, flag) in [
        ("true", true),
        ("TRUE", true),
        ("TrUe", true),
        ("false", false),
        ("1", false),
        ("", false),
        ("tru%C3%8B", false),
    ] {
        let text = GOOD.replace("Rule=true", &format!("Rule={}", value));
        let request = parse_lnurlp_request(&url(&text)).unwrap();
        assert_eq!(request.is_subject_to_travel_rule, Some(flag));
    }
    let without = GOOD.replace("isSubjectToTravelRule", "other");
    let request = parse_lnurlp_request(&url(&without)).unwrap();
    assert_eq!(request.is_subject_to_travel_rule, Some(false));
}

#[test]
fn first_of_two_parameters_counts() {
    let request = parse_lnurlp_request(&url(&format!("{}&nonce=99", GOOD))).unwrap();
    assert_eq!(request.nonce.as_deref(), Some("12"));
}

#[test]
fn parameters_are_decoded() {
    let text = GOOD.replace("nonce=12", "nonce=1%202+3%26");
    let request = parse_lnurlp_request(&url(&text)).unwrap();
    assert_eq!(request.nonce.as_deref(), Some("1 2 3&"));
}

#[test]
fn path_that_is_another() {
    for path in [
        "/.well-known/lnurlp",
        "/.well-known/lnurlp/$bob/more",
        "/well-known/lnurlp/$bob",
        "/.well-known/lnurl/$bob",
        "/",
    ] {
        let bad = url(&GOOD.replace("/.well-known/lnurlp/$bob", path));
        assert!(matches!(parse_lnurlp_request(&bad), Err(Error::InvalidUrlPath)));
    }
    let opaque = url(&GOOD.replace("https://vasp2.com/.well-known/lnurlp/$bob", "mailto:x"));
    assert!(matches!(parse_lnurlp_request(&opaque), Err(Error::InvalidUrlPath)));
}

#[test]
fn version_that_is_not_spoken() {
    for version in ["2.0", "-1.0", "1", "1.0.0", "x.y", ""] {
        let bad = url(&GOOD.replace("umaVersion=1.0", &format!("umaVersion={}", version)));
        assert!(matches!(parse_lnurlp_request(&bad), Err(Error::UnsupportedVersion)));
    }
    for version in ["0.3", "1.0", "1.9"] {
        let good = url(&GOOD.replace("umaVersion=1.0", &format!("umaVersion={}", version)));
        assert!(parse_lnurlp_request(&good).is_ok());
    }
}

#[test]
fn host_that_is_missing() {
    let hostless = url(&GOOD.replace("https://vasp2.com", "unix:"));
    assert!(matches!(parse_lnurlp_request(&hostless), Err(Error::InvalidHost)));
}

#[test]
fn parts_of_a_url() {
    let pair = |name: &str, value: &str| (name.to_string(), value.to_string());
    let pairs = vec![
        pair("umaVersion", "0.3"),
        pair("timestamp", "5"),
        pair("nonce", "n"),
        pair("vaspDomain", "d"),
        pair("signature", "s"),
    ];
    let segments = Some(vec![
        ".well-known".to_string(),
        "lnurlp".to_string(),
        "alice".to_string(),
    ]);
    let host = Some("vasp.org".to_string());
    let request = parse_lnurlp_request_parts(&pairs, &segments, &host).unwrap();
    assert_eq!(request.receiver_address, "alice@vasp.org");
    assert_eq!(request.is_subject_to_travel_rule, Some(false));
    assert!(matches!(
        parse_lnurlp_request_parts(&pairs, &None, &host),
        Err(Error::InvalidUrlPath)
    ));
    assert!(matches!(
        parse_lnurlp_request_parts(&pairs, &segments, &None),
        Err(Error::InvalidHost)
    ));
}

#[test]
fn url_of_a_signed_request() {
    let made = signed_lnurlp_request_url(
        &KEY,
        "$bob@vasp2.com",
        "vasp1.com",
        true,
        "1.0",
        "123",
        1700000000,
    )
    .unwrap();
    let signature = sign_payload(b"$bob@vasp2.com|123|1700000000", &KEY).unwrap();
    assert_eq!(
        made.as_str(),
        format!(
            "https://vasp2.com/.well-known/lnurlp/$bob?signature={}&vaspDomain=vasp1.com\
             &nonce=123&isSubjectToTravelRule=true&timestamp=1700000000&umaVersion=1.0",
            signature
        )
    );
}

#[test]
fn signed_request_is_read_and_verified() {
    let made =
        get_signed_lnurlp_request_url(&KEY, "$bob@vasp2.com", "vasp1.com", false, None).unwrap();
    assert!(is_uma_lnurl_query(&made));
    let request = parse_lnurlp_request(&made).unwrap();
    assert_eq!(request.receiver_address, "$bob@vasp2.com");
    assert_eq!(request.vasp_domain.as_deref(), Some("vasp1.com"));
    assert_eq!(request.is_subject_to_travel_rule, Some(false));
    assert_eq!(request.uma_version.as_deref(), Some("1.0"));
    let now = chrono::Utc::now().timestamp();
    assert!((now - 60..=now).contains(&request.timestamp.unwrap()));
    let uma = request.as_uma_request().unwrap();
    assert!(verify_uma_lnurlp_query_signature(uma, &public_key()).is_ok());
}

#[test]
fn changed_request_is_not_verified() {
    let made =
        get_signed_lnurlp_request_url(&KEY, "$bob@vasp2.com", "vasp1.com", false, None).unwrap();
    let changed = url(&made.as_str().replace("$bob", "$eve"));
    let uma = parse_lnurlp_request(&changed).unwrap().as_uma_request().unwrap();
    assert!(matches!(
        verify_uma_lnurlp_query_signature(uma, &public_key()),
        Err(Error::InvalidSignature)
    ));
}

#[test]
fn version_override_is_sent() {
    let made =
        get_signed_lnurlp_request_url(&KEY, "$bob@vasp2.com", "vasp1.com", true, Some("0.3"))
            .unwrap();
    let request = parse_lnurlp_request(&made).unwrap();
    assert_eq!(request.uma_version.as_deref(), Some("0.3"));
    let made =
        get_signed_lnurlp_request_url(&KEY, "$bob@vasp2.com", "vasp1.com", true, Some("2.0"))
            .unwrap();
    assert!(matches!(parse_lnurlp_request(&made), Err(Error::UnsupportedVersion)));
}

#[test]
fn local_host_is_asked_without_encryption() {
    let made =
        get_signed_lnurlp_request_url(&KEY, "$bob@localhost:8080", "vasp1.com", true, None)
            .unwrap();
    assert!(made.as_str().starts_with("http://localhost:8080/.well-known/lnurlp/$bob?"));
    let made = get_signed_lnurlp_request_url(&KEY, "$bob@localhost", "vasp1.com", true, None)
        .unwrap();
    assert!(made.as_str().starts_with("https://localhost/.well-known/lnurlp/$bob?"));
}

#[test]
fn request_that_cannot_be_signed() {
    assert!(matches!(
        get_signed_lnurlp_request_url(&[0u8; 32], "$bob@vasp2.com", "vasp1.com", true, None),
        Err(Error::Secp256k1Error(_))
    ));
    for address in ["", "bob", "a@b@c"] {
        assert!(matches!(
            get_signed_lnurlp_request_url(&KEY, address, "vasp1.com", true, None),
            Err(Error::ProtocolError(protocol::Error::InvalidReceiverAddress))
        ));
    }
    assert!(matches!(
        get_signed_lnurlp_request_url(&KEY, "$bob@a b", "vasp1.com", true, None),
        Err(Error::ProtocolError(protocol::Error::InvalidUrl))
    ));
}

#[test]
fn address_without_a_domain_is_not_read() {
    let made = get_signed_lnurlp_request_url(&KEY, "$bob@", "vasp1.com", true, None).unwrap();
    assert!(matches!(parse_lnurlp_request(&made), Err(Error::InvalidUrlPath)));
}

fn bare_request() -> LnurlpRequest {
    LnurlpRequest {
        receiver_address: "$bob@vasp2.com".to_string(),
        nonce: None,
        signature: None,
        is_subject_to_travel_rule: None,
        vasp_domain: None,
        timestamp: None,
        uma_version: None,
    }
}

#[test]
fn request_without_optional_fields() {
    let mut request = bare_request();
    assert_eq!(request.signable_payload(), Err(protocol::Error::MissingNonce));
    request.nonce = Some("1".to_string());
    assert_eq!(request.signable_payload(), Err(protocol::Error::MissingTimestamp));
    request.timestamp = Some(-2);
    assert_eq!(request.signable_payload().unwrap(), b"$bob@vasp2.com|1|-2".to_vec());
    assert_eq!(
        request.encode_to_url().unwrap().as_str(),
        "https://vasp2.com/.well-known/lnurlp/$bob?nonce=1&timestamp=-2"
    );
    assert!(request.as_uma_request().is_none());
    request.signature = Some("s".to_string());
    request.vasp_domain = Some("d".to_string());
    request.uma_version = Some("1.0".to_string());
    let uma = request.as_uma_request().unwrap();
    assert!(!uma.is_subject_to_travel_rule);
    assert_eq!(uma.vasp_domain, "d");
}

#[test]
fn parameters_survive_the_url() {
    let mut request = bare_request();
    request.nonce = Some("a b&c=d%+\u{e9}\u{1F600}".to_string());
    request.signature = Some(String::new());
    request.vasp_domain = Some("#?/".to_string());
    request.timestamp = Some(i64::MIN);
    request.uma_version = Some("1.0".to_string());
    request.is_subject_to_travel_rule = Some(true);
    let read = parse_lnurlp_request(&request.encode_to_url().unwrap()).unwrap();
    assert_eq!(read.receiver_address, request.receiver_address);
    assert_eq!(read.nonce, request.nonce);
    assert_eq!(read.signature, request.signature);
    assert_eq!(read.vasp_domain, request.vasp_domain);
    assert_eq!(read.timestamp, request.timestamp);
    assert_eq!(read.uma_version, request.uma_version);
    assert_eq!(read.is_subject_to_travel_rule, Some(true));
}

#[test]
fn users_and_hosts_that_stand_for_themselves() {
    for user in ["$bob", "a.b", "!$&'()*+,;=:~^|[]", "%41", "-_-", "...", ""] {
        for host in ["vasp2.com", "a", "x-1.y2.z", "1a.b"] {
            let mut request = bare_request();
            request.receiver_address = format!("{}@{}", user, host);
            request.nonce = Some("n".to_string());
            request.signature = Some("s".to_string());
            request.vasp_domain = Some("d".to_string());
            request.timestamp = Some(1);
            request.uma_version = Some("1.0".to_string());
            let read = parse_lnurlp_request(&request.encode_to_url().unwrap()).unwrap();
            assert_eq!(read.receiver_address, request.receiver_address);
        }
    }
}

#[test]
fn domain_of_an_address() {
    assert_eq!(get_vasp_domain_from_uma_address("$bob@vasp2.com").unwrap(), "vasp2.com");
    assert_eq!(get_vasp_domain_from_uma_address("@").unwrap(), "");
    for address in ["", "bob", "a@b@c", "@@"] {
        assert!(matches!(
            get_vasp_domain_from_uma_address(address),
            Err(Error::InvalidUMAAddress)
        ));
    }
}
