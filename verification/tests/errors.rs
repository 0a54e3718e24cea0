use uma::error::Error;
use uma::protocol;

#[test]
fn text_of_each_error() {
    let json_error = serde_json::from_str::<u8>("x").unwrap_err();
    let json_text = json_error.to_string();
    for (error, text) in [
        (
            Error::Secp256k1Error(bitcoin::secp256k1::Error::InvalidSignature),
            format!("Secp256k1 error {}", bitcoin::secp256k1::Error::InvalidSignature),
        ),
        (
            Error::EciesSecp256k1Error(ecies::SecpError::InvalidMessage),
            format!("Ecies Secp256k1 error {}", ecies::SecpError::InvalidMessage),
        ),
        (Error::SignatureFormatError, "Signature format error".to_string()),
        (Error::InvalidSignature, "Invalid signature".to_string()),
        (Error::InvalidResponse, "Invalid response".to_string()),
        (
            Error::ProtocolError(protocol::Error::MissingNonce),
            "Protocol error Missing nonce".to_string(),
        ),
        (
            Error::MissingUrlParam("nonce".to_string()),
            "Missing URL param nonce".to_string(),
        ),
        (Error::InvalidUrlPath, "Invalid URL path".to_string()),
        (Error::InvalidHost, "Invalid host".to_string()),
        (Error::InvalidData(json_error), format!("Invalid data {}", json_text)),
        (
            Error::CreateInvoiceError("no funds".to_string()),
            "Create invoice error no funds".to_string(),
        ),
        (Error::InvalidUMAAddress, "Invalid UMA address".to_string()),
        (Error::InvalidVersion, "Invalid version".to_string()),
        (Error::UnsupportedVersion, "Unsupported version".to_string()),
    ] {
        assert_eq!(error.to_string(), text);
        assert!(!error.is_io());
    }
}

struct BrokenStream;

impl std::io::Read for BrokenStream {
    fn read(&mut self, _buf: &mut [u8]) -> std::io::Result<usize> {
        Err(std::io::Error::from_raw_os_error(5))
    }
}

#[test]
fn text_of_an_error_of_a_stream() {
    let error = Error::InvalidData(serde_json::from_reader::<_, u8>(BrokenStream).unwrap_err());
    assert!(error.is_io());
    assert!(error.to_string().starts_with("Invalid data "));
}

#[test]
fn text_of_each_protocol_error() {
    for (error, text) in [
        (protocol::Error::MissingNonce, "Missing nonce"),
        (protocol::Error::MissingTimestamp, "Missing timestamp"),
        (protocol::Error::MissingPayerData, "Missing payer data"),
        (
            protocol::Error::MissingPayerDataIdentifier,
            "Missing payer data identifier",
        ),
        (
            protocol::Error::MissingPayerDataCompliance,
            "Missing payer data compliance",
        ),
        (
            protocol::Error::InvalidPayerDataCompliance,
            "Invalid payer data compliance",
        ),
        (protocol::Error::InvalidReceiverAddress, "Invalid receiver address"),
        (protocol::Error::InvalidUrl, "Invalid URL"),
    ] {
        assert_eq!(error.to_text(), text);
    }
}
