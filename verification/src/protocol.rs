//! The messages that two VASPs exchange.
pub mod counter_party_data;
pub mod currency;
pub mod kyc_status;
pub mod lnurl_request;
pub mod lnurl_response;
pub mod pay_request;
pub mod payer_data;
pub mod payreq_response;
pub mod pub_key_response;

use vstd::prelude::*;

verus! {

/// What can be wrong with a message.
#[derive(Debug, Clone, Copy, PartialEq, Eq, Structural)]
pub enum Error {
    /// A request to be signed or sent has no nonce.
    MissingNonce,
    /// A request to be signed or sent has no timestamp.
    MissingTimestamp,
    /// A pay request has no payer data.
    MissingPayerData,
    /// Payer data has no identifier.
    MissingPayerDataIdentifier,
    /// Payer data has no compliance data.
    MissingPayerDataCompliance,
    /// The compliance data of a payer is malformed.
    InvalidPayerDataCompliance,
    /// An address is not of the form `user@domain`.
    InvalidReceiverAddress,
    /// No URL can be made of a request.
    InvalidUrl,
}

impl Error {
    /// The text of an error, for a reader.
    pub open spec fn text(self) -> Seq<char> {
        match self {
            Error::MissingNonce => "Missing nonce"@,
            Error::MissingTimestamp => "Missing timestamp"@,
            Error::MissingPayerData => "Missing payer data"@,
            Error::MissingPayerDataIdentifier => "Missing payer data identifier"@,
            Error::MissingPayerDataCompliance => "Missing payer data compliance"@,
            Error::InvalidPayerDataCompliance => "Invalid payer data compliance"@,
            Error::InvalidReceiverAddress => "Invalid receiver address"@,
            Error::InvalidUrl => "Invalid URL"@,
        }
    }

    /// The text of an error, for a reader.
    pub fn to_text(&self) -> (res: &'static str)
        ensures
            res@ == self.text(),
    {
        match self {
            Error::MissingNonce => "Missing nonce",
            Error::MissingTimestamp => "Missing timestamp",
            Error::MissingPayerData => "Missing payer data",
            Error::MissingPayerDataIdentifier => "Missing payer data identifier",
            Error::MissingPayerDataCompliance => "Missing payer data compliance",
            Error::InvalidPayerDataCompliance => "Invalid payer data compliance",
            Error::InvalidReceiverAddress => "Invalid receiver address",
            Error::InvalidUrl => "Invalid URL",
        }
    }
}

} // verus!
