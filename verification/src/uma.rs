//! The steps of a payment: making each message, and checking those of the other side.
pub mod address;
pub mod keys;
pub mod nonce;
pub mod pay;
pub mod request;
pub mod response;

pub use crate::error::Error;
pub use address::get_vasp_domain_from_uma_address;
pub use nonce::generate_nonce;
pub use pay::{
    get_pay_req_response, get_pay_request, verify_pay_req_signature, UmaInvoiceCreator,
};
pub use request::{
    get_signed_lnurlp_request_url, is_uma_lnurl_query, parse_lnurlp_request,
    verify_uma_lnurlp_query_signature,
};
pub use response::{get_lnurlp_response, verify_uma_lnurlp_response_signature};
