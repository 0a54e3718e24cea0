//! What can go wrong in making and reading messages.
use bitcoin::secp256k1::Error as CurveError;
use ecies::SecpError;
use serde_json::Error as JsonError;
use vstd::prelude::*;
use vstd::string::*;

use crate::protocol;

verus! {

/// The error of the curve library that signs and verifies.
#[verifier::external_type_specification]
#[verifier::external_body]
pub struct ExSecp256k1Error(CurveError);

/// The error of the curve library that encrypts.
#[verifier::external_type_specification]
#[verifier::external_body]
pub struct ExEciesError(SecpError);

/// The error of the JSON reader.
#[verifier::external_type_specification]
#[verifier::external_body]
pub struct ExJsonError(JsonError);

/// What can go wrong in making and reading messages.
#[derive(Debug)]
pub enum Error {
    Secp256k1Error(CurveError),
    EciesSecp256k1Error(SecpError),
    SignatureFormatError,
    InvalidSignature,
    InvalidResponse,
    ProtocolError(protocol::Error),
    MissingUrlParam(String),
    InvalidUrlPath,
    InvalidHost,
    InvalidData(JsonError),
    CreateInvoiceError(String),
    InvalidUMAAddress,
    InvalidVersion,
    UnsupportedVersion,
}

/// An [`Error`] with its strings as sequences of characters.
pub enum ErrorView {
    Secp256k1Error(CurveError),
    EciesSecp256k1Error(SecpError),
    SignatureFormatError,
    InvalidSignature,
    InvalidResponse,
    ProtocolError(protocol::Error),
    MissingUrlParam(Seq<char>),
    InvalidUrlPath,
    InvalidHost,
    InvalidData(JsonError),
    CreateInvoiceError(Seq<char>),
    InvalidUMAAddress,
    InvalidVersion,
    UnsupportedVersion,
}

impl View for Error {
    type V = ErrorView;

    open spec fn view(&self) -> ErrorView {
        match *self {
            Error::Secp256k1Error(e) => ErrorView::Secp256k1Error(e),
            Error::EciesSecp256k1Error(e) => ErrorView::EciesSecp256k1Error(e),
            Error::SignatureFormatError => ErrorView::SignatureFormatError,
            Error::InvalidSignature => ErrorView::InvalidSignature,
            Error::InvalidResponse => ErrorView::InvalidResponse,
            Error::ProtocolError(e) => ErrorView::ProtocolError(e),
            Error::MissingUrlParam(s) => ErrorView::MissingUrlParam(s@),
            Error::InvalidUrlPath => ErrorView::InvalidUrlPath,
            Error::InvalidHost => ErrorView::InvalidHost,
            Error::InvalidData(e) => ErrorView::InvalidData(e),
            Error::CreateInvoiceError(s) => ErrorView::CreateInvoiceError(s@),
            Error::InvalidUMAAddress => ErrorView::InvalidUMAAddress,
            Error::InvalidVersion => ErrorView::InvalidVersion,
            Error::UnsupportedVersion => ErrorView::UnsupportedVersion,
        }
    }
}

/// A result seen through the views of what it holds.
pub open spec fn outcome<T: View>(res: Result<T, Error>) -> Result<T::V, ErrorView> {
    match res {
        Ok(v) => Ok(v@),
        Err(e) => Err(e@),
    }
}

/// A result seen through the view of its error.
pub open spec fn plain_outcome<T>(res: Result<T, Error>) -> Result<T, ErrorView> {
    match res {
        Ok(v) => Ok(v),
        Err(e) => Err(e@),
    }
}

/// What `Display` writes of an error of the signing library.
pub uninterp spec fn secp256k1_error_text(e: CurveError) -> Seq<char>;

/// What `Display` writes of an error of the encrypting library.
pub uninterp spec fn ecies_error_text(e: SecpError) -> Seq<char>;

/// What `Display` writes of an error of the JSON reader that is not one of reading or writing
/// a stream.
pub uninterp spec fn json_error_text(e: JsonError) -> Seq<char>;

/// Whether `serde_json::Error::is_io` tells that an error is one of reading or writing a
/// stream.
pub uninterp spec fn json_error_is_io(e: JsonError) -> bool;

/// Writes an error of the signing library with its `Display`, whose text depends on the
/// error alone.
#[verifier::external_body]
fn show_secp256k1_error(e: &CurveError) -> (res: String)
    ensures
        res@ == secp256k1_error_text(*e),
{
    format!("{}", e)
}

/// Writes an error of the encrypting library with its `Display`, whose text depends on the
/// error alone.
#[verifier::external_body]
fn show_ecies_error(e: &SecpError) -> (res: String)
    ensures
        res@ == ecies_error_text(*e),
{
    format!("{}", e)
}

/// Writes an error of the JSON reader with its `Display`, whose text depends on the error
/// alone, unless the error is one of reading or writing a stream: the message of such an error
/// comes from the operating system, and nothing is claimed of it.
#[verifier::external_body]
fn show_json_error(e: &JsonError) -> (res: String)
    ensures
        !json_error_is_io(*e) ==> res@ == json_error_text(*e),
{
    format!("{}", e)
}

/// Calls `serde_json::Error::is_io`, which depends on the error alone.
#[verifier::external_body]
fn is_io_json_error(e: &JsonError) -> (res: bool)
    ensures
        res == json_error_is_io(*e),
{
    e.is_io()
}

impl ErrorView {
    /// Whether an error is one of reading or writing a stream of JSON, whose message comes from
    /// the operating system.
    pub open spec fn is_io(self) -> bool {
        self matches ErrorView::InvalidData(e) && json_error_is_io(e)
    }

    /// The text of an error, for a reader, unless its message comes from the operating system.
    pub open spec fn text(self) -> Seq<char> {
        match self {
            ErrorView::Secp256k1Error(e) => "Secp256k1 error "@ + secp256k1_error_text(e),
            ErrorView::EciesSecp256k1Error(e) => "Ecies Secp256k1 error "@ + ecies_error_text(e),
            ErrorView::SignatureFormatError => "Signature format error"@,
            ErrorView::InvalidSignature => "Invalid signature"@,
            ErrorView::InvalidResponse => "Invalid response"@,
            ErrorView::ProtocolError(e) => "Protocol error "@ + e.text(),
            ErrorView::MissingUrlParam(param) => "Missing URL param "@ + param,
            ErrorView::InvalidUrlPath => "Invalid URL path"@,
            ErrorView::InvalidHost => "Invalid host"@,
            ErrorView::InvalidData(e) => "Invalid data "@ + json_error_text(e),
            ErrorView::CreateInvoiceError(e) => "Create invoice error "@ + e,
            ErrorView::InvalidUMAAddress => "Invalid UMA address"@,
            ErrorView::InvalidVersion => "Invalid version"@,
            ErrorView::UnsupportedVersion => "Unsupported version"@,
        }
    }
}

fn two_parts(head: &str, tail: &str) -> (res: String)
    ensures
        res@ == head@ + tail@,
{
    let mut res = head.to_owned();
    res.append(tail);
    res
}

impl Error {
    /// Whether an error is one of reading or writing a stream of JSON, whose message comes from
    /// the operating system.
    pub fn is_io(&self) -> (res: bool)
        ensures
            res == self@.is_io(),
    {
        match self {
            Error::InvalidData(e) => is_io_json_error(e),
            _ => false,
        }
    }

    /// The text of an error, for a reader. Of an error whose message comes from the operating
    /// system, only the beginning is fixed.
    pub fn to_string(&self) -> (res: String)
        ensures
            !self@.is_io() ==> res@ == self@.text(),
            self@.is_io() ==> "Invalid data "@.is_prefix_of(res@),
    {
        match self {
            Error::Secp256k1Error(e) => {
                let tail = show_secp256k1_error(e);
                two_parts("Secp256k1 error ", tail.as_str())
            },
            Error::EciesSecp256k1Error(e) => {
                let tail = show_ecies_error(e);
                two_parts("Ecies Secp256k1 error ", tail.as_str())
            },
            Error::SignatureFormatError => "Signature format error".to_owned(),
            Error::InvalidSignature => "Invalid signature".to_owned(),
            Error::InvalidResponse => "Invalid response".to_owned(),
            Error::ProtocolError(e) => two_parts("Protocol error ", e.to_text()),
            Error::MissingUrlParam(param) => two_parts("Missing URL param ", param.as_str()),
            Error::InvalidUrlPath => "Invalid URL path".to_owned(),
            Error::InvalidHost => "Invalid host".to_owned(),
            Error::InvalidData(e) => {
                let tail = show_json_error(e);
                let res = two_parts("Invalid data ", tail.as_str());
                assert("Invalid data "@ =~= res@.take("Invalid data "@.len() as int));
                res
            },
            Error::CreateInvoiceError(e) => two_parts("Create invoice error ", e.as_str()),
            Error::InvalidUMAAddress => "Invalid UMA address".to_owned(),
            Error::InvalidVersion => "Invalid version".to_owned(),
            Error::UnsupportedVersion => "Unsupported version".to_owned(),
        }
    }
}

} // verus!
