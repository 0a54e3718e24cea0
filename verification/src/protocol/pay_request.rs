//! The request for an invoice.
use vstd::prelude::*;

use crate::json::Json;
use crate::protocol::counter_party_data;
use crate::protocol::counter_party_data::CounterPartyDataOptions;
use crate::protocol::payer_data;
use crate::protocol::payer_data::PayerData;
use crate::protocol::Error;
use crate::text;

verus! {

/// The request for an invoice.
#[derive(Debug)]
pub struct PayRequest {
    /// The currency that the amount is in, where it is that of the receiver; millisatoshis
    /// otherwise.
    pub sending_amount_currency_code: Option<String>,
    /// The currency that the receiver is paid in.
    pub receiving_currency_code: Option<String>,
    pub payer_data: Option<PayerData>,
    pub comment: Option<String>,
    /// The major number of the version of the protocol.
    pub uma_major_version: i32,
    pub amount: i64,
    /// The data about the payee that the sender asks for.
    pub requested_payee_data: Option<CounterPartyDataOptions>,
}

/// A [`PayRequest`] with its strings as sequences of characters.
#[verifier::ext_equal]
pub struct PayRequestView {
    pub sending_amount_currency_code: Option<Seq<char>>,
    pub receiving_currency_code: Option<Seq<char>>,
    pub payer_data: Option<Json>,
    pub comment: Option<Seq<char>>,
    pub uma_major_version: i32,
    pub amount: i64,
    pub requested_payee_data: Option<Seq<(Seq<char>, bool)>>,
}

/// The view of payer data that may be missing.
pub open spec fn opt_payer_data(o: Option<PayerData>) -> Option<Json> {
    match o {
        Some(data) => Some(data@),
        None => None,
    }
}

impl View for PayRequest {
    type V = PayRequestView;

    open spec fn view(&self) -> PayRequestView {
        PayRequestView {
            sending_amount_currency_code: text::opt_text(self.sending_amount_currency_code),
            receiving_currency_code: text::opt_text(self.receiving_currency_code),
            payer_data: opt_payer_data(self.payer_data),
            comment: text::opt_text(self.comment),
            uma_major_version: self.uma_major_version,
            amount: self.amount,
            requested_payee_data: counter_party_data::opt_options(self.requested_payee_data),
        }
    }
}

impl PayRequestView {
    /// The bytes that are signed: `identifier|nonce|timestamp`, of the payer's identifier and
    /// of the compliance data in the payer data.
    pub open spec fn signable(self) -> Result<Seq<u8>, Error> {
        match self.payer_data {
            None => Err(Error::MissingPayerData),
            Some(data) => match payer_data::payer_identifier(data) {
                None => Err(Error::MissingPayerDataIdentifier),
                Some(identifier) => match payer_data::payer_compliance(data) {
                    Err(e) => Err(e),
                    Ok(None) => Err(Error::MissingPayerDataCompliance),
                    Ok(Some(compliance)) => Ok(
                        text::payload_bytes(
                            identifier,
                            compliance.signature_nonce,
                            compliance.signature_timestamp,
                        ),
                    ),
                },
            },
        }
    }
}

impl PayRequest {
    /// The bytes that are signed.
    pub fn signable_payload(&self) -> (res: Result<Vec<u8>, Error>)
        ensures
            match res {
                Ok(payload) => self@.signable() == Ok::<Seq<u8>, Error>(payload@),
                Err(e) => self@.signable() == Err::<Seq<u8>, Error>(e),
            },
    {
        let data = match &self.payer_data {
            Some(data) => data,
            None => {
                return Err(Error::MissingPayerData);
            },
        };
        let identifier = match data.identifier() {
            Some(identifier) => identifier,
            None => {
                return Err(Error::MissingPayerDataIdentifier);
            },
        };
        match data.compliance() {
            Ok(Some(compliance)) => Ok(
                text::payload(
                    identifier.as_str(),
                    compliance.signature_nonce.as_str(),
                    compliance.signature_timestamp,
                ),
            ),
            Ok(None) => Err(Error::MissingPayerDataCompliance),
            Err(e) => Err(e),
        }
    }
}

} // verus!
