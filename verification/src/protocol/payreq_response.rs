//! The answer to a pay request.
use vstd::prelude::*;

use crate::text;

verus! {

/// One step of a route.
#[derive(Debug)]
pub struct Path {
    pub pubkey: String,
    pub fee: i64,
    pub msatoshi: i64,
    pub channel: String,
}

/// A route that a payment may take.
#[derive(Debug)]
pub struct Route {
    pub pubkey: String,
    pub path: Vec<Path>,
}

/// What a receiver tells for the compliance checks of the sender.
#[derive(Debug)]
pub struct PayReqResponseCompliance {
    /// The public key of the receiver's node.
    pub node_pub_key: Option<String>,
    /// The UTXOs of the receiver's channels that might take the payment.
    pub utxos: Vec<String>,
    /// The URL under which the sender reports the UTXOs that it used.
    pub utxo_callback: String,
}

/// How an amount was converted.
#[derive(Debug)]
pub struct PayReqResponsePaymentInfo {
    pub currency_code: String,
    /// The number of digits after the decimal point of the currency.
    pub decimals: i32,
    /// The number of millisatoshis in the smallest unit of the currency, as the bits of a
    /// double-precision number.
    pub multiplier_bits: u64,
    /// The fees of the receiver, in millisatoshis.
    pub exchange_fees_millisatoshi: i64,
}

/// The answer to a pay request.
#[derive(Debug)]
pub struct PayReqResponse {
    /// The invoice to pay.
    pub encoded_invoice: String,
    pub routes: Vec<Route>,
    pub compliance: PayReqResponseCompliance,
    pub payment_info: PayReqResponsePaymentInfo,
}

/// A [`Path`] with its strings as sequences of characters.
pub struct PathView {
    pub pubkey: Seq<char>,
    pub fee: i64,
    pub msatoshi: i64,
    pub channel: Seq<char>,
}

/// A [`Route`] with its strings as sequences of characters.
pub struct RouteView {
    pub pubkey: Seq<char>,
    pub path: Seq<PathView>,
}

/// A [`PayReqResponse`] with its strings as sequences of characters.
#[verifier::ext_equal]
pub struct PayReqResponseView {
    pub encoded_invoice: Seq<char>,
    pub routes: Seq<RouteView>,
    pub node_pub_key: Option<Seq<char>>,
    pub utxos: Seq<Seq<char>>,
    pub utxo_callback: Seq<char>,
    pub currency_code: Seq<char>,
    pub decimals: i32,
    pub multiplier_bits: u64,
    pub exchange_fees_millisatoshi: i64,
}

impl View for Path {
    type V = PathView;

    open spec fn view(&self) -> PathView {
        PathView {
            pubkey: self.pubkey@,
            fee: self.fee,
            msatoshi: self.msatoshi,
            channel: self.channel@,
        }
    }
}

impl View for Route {
    type V = RouteView;

    open spec fn view(&self) -> RouteView {
        RouteView {
            pubkey: self.pubkey@,
            path: Seq::new(self.path@.len(), |i: int| self.path@[i]@),
        }
    }
}

impl View for PayReqResponse {
    type V = PayReqResponseView;

    open spec fn view(&self) -> PayReqResponseView {
        PayReqResponseView {
            encoded_invoice: self.encoded_invoice@,
            routes: Seq::new(self.routes@.len(), |i: int| self.routes@[i]@),
            node_pub_key: text::opt_text(self.compliance.node_pub_key),
            utxos: text::texts(self.compliance.utxos@),
            utxo_callback: self.compliance.utxo_callback@,
            currency_code: self.payment_info.currency_code@,
            decimals: self.payment_info.decimals,
            multiplier_bits: self.payment_info.multiplier_bits,
            exchange_fees_millisatoshi: self.payment_info.exchange_fees_millisatoshi,
        }
    }
}

} // verus!
