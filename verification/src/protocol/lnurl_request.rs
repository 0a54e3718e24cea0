//! The request that opens a payment: who is to be paid.
use vstd::prelude::*;
use vstd::string::*;

use crate::protocol::Error;
use crate::text;
use crate::web;

verus! {

/// A request about a receiver, as it arrives in a URL.
#[derive(Debug)]
pub struct LnurlpRequest {
    /// The address of the receiver, such as `$bob@vasp2.com`.
    pub receiver_address: String,
    pub nonce: Option<String>,
    /// The hexadecimal signature on the address, the nonce and the timestamp.
    pub signature: Option<String>,
    /// Whether the sending VASP is bound by the travel rule.
    pub is_subject_to_travel_rule: Option<bool>,
    /// The domain of the sending VASP, under which its public keys are found.
    pub vasp_domain: Option<String>,
    /// The time of the signature, in seconds since the epoch.
    pub timestamp: Option<i64>,
    /// The version of the protocol that the sender speaks.
    pub uma_version: Option<String>,
}

/// An [`LnurlpRequest`] with its strings as sequences of characters.
#[verifier::ext_equal]
pub struct LnurlpRequestView {
    pub receiver_address: Seq<char>,
    pub nonce: Option<Seq<char>>,
    pub signature: Option<Seq<char>>,
    pub is_subject_to_travel_rule: Option<bool>,
    pub vasp_domain: Option<Seq<char>>,
    pub timestamp: Option<i64>,
    pub uma_version: Option<Seq<char>>,
}

/// An [`LnurlpRequest`] that has all that the protocol asks for.
#[derive(Debug)]
pub struct UmaLnurlpRequest {
    pub receiver_address: String,
    pub nonce: String,
    pub signature: String,
    pub is_subject_to_travel_rule: bool,
    pub vasp_domain: String,
    pub timestamp: i64,
    pub uma_version: String,
}

/// A [`UmaLnurlpRequest`] with its strings as sequences of characters.
#[verifier::ext_equal]
pub struct UmaLnurlpRequestView {
    pub receiver_address: Seq<char>,
    pub nonce: Seq<char>,
    pub signature: Seq<char>,
    pub is_subject_to_travel_rule: bool,
    pub vasp_domain: Seq<char>,
    pub timestamp: i64,
    pub uma_version: Seq<char>,
}

impl View for LnurlpRequest {
    type V = LnurlpRequestView;

    open spec fn view(&self) -> LnurlpRequestView {
        LnurlpRequestView {
            receiver_address: self.receiver_address@,
            nonce: text::opt_text(self.nonce),
            signature: text::opt_text(self.signature),
            is_subject_to_travel_rule: self.is_subject_to_travel_rule,
            vasp_domain: text::opt_text(self.vasp_domain),
            timestamp: self.timestamp,
            uma_version: text::opt_text(self.uma_version),
        }
    }
}

impl View for UmaLnurlpRequest {
    type V = UmaLnurlpRequestView;

    open spec fn view(&self) -> UmaLnurlpRequestView {
        UmaLnurlpRequestView {
            receiver_address: self.receiver_address@,
            nonce: self.nonce@,
            signature: self.signature@,
            is_subject_to_travel_rule: self.is_subject_to_travel_rule,
            vasp_domain: self.vasp_domain@,
            timestamp: self.timestamp,
            uma_version: self.uma_version@,
        }
    }
}

/// A list of parameters with one more, if there is a value for it.
pub open spec fn with_pair(
    pairs: Seq<(Seq<char>, Seq<char>)>,
    name: Seq<char>,
    value: Option<Seq<char>>,
) -> Seq<(Seq<char>, Seq<char>)> {
    match value {
        Some(v) => pairs.push((name, v)),
        None => pairs,
    }
}

/// The text of a flag.
pub open spec fn flag_text(flag: bool) -> Seq<char> {
    if flag {
        "true"@
    } else {
        "false"@
    }
}

/// The text of a flag that may be missing.
pub open spec fn opt_flag_text(flag: Option<bool>) -> Option<Seq<char>> {
    match flag {
        Some(flag) => Some(flag_text(flag)),
        None => None,
    }
}

/// The text of a time that may be missing.
pub open spec fn opt_time_text(time: Option<i64>) -> Option<Seq<char>> {
    match time {
        Some(time) => Some(text::decimal_int(time as int)),
        None => None,
    }
}

/// The scheme for the URLs of a domain: `http` for a port of the local host, `https`
/// otherwise.
pub open spec fn scheme_of(domain: Seq<char>) -> Seq<char> {
    if "localhost:"@.is_prefix_of(domain) {
        "http"@
    } else {
        "https"@
    }
}

/// The scheme for the URLs of a domain.
pub(crate) fn scheme_for(domain: &str) -> (res: &'static str)
    ensures
        res@ == scheme_of(domain@),
{
    if text::has_prefix(domain, "localhost:") {
        "http"
    } else {
        "https"
    }
}

impl LnurlpRequestView {
    /// The bytes that are signed: `address|nonce|timestamp`.
    pub open spec fn signable(self) -> Result<Seq<u8>, Error> {
        match (self.nonce, self.timestamp) {
            (None, _) => Err(Error::MissingNonce),
            (_, None) => Err(Error::MissingTimestamp),
            (Some(nonce), Some(timestamp)) => Ok(
                text::payload_bytes(self.receiver_address, nonce, timestamp),
            ),
        }
    }

    /// The parameters of the URL that a request is sent in: those that it has a value for.
    pub open spec fn query(self) -> Seq<(Seq<char>, Seq<char>)> {
        let p0 = Seq::<(Seq<char>, Seq<char>)>::empty();
        let p1 = with_pair(p0, "signature"@, self.signature);
        let p2 = with_pair(p1, "vaspDomain"@, self.vasp_domain);
        let p3 = with_pair(p2, "nonce"@, self.nonce);
        let p4 = with_pair(
            p3,
            "isSubjectToTravelRule"@,
            opt_flag_text(self.is_subject_to_travel_rule),
        );
        let p5 = with_pair(p4, "timestamp"@, opt_time_text(self.timestamp));
        with_pair(p5, "umaVersion"@, self.uma_version)
    }

    /// Whether the URL that a request is sent in is no longer than 32-bit offsets reach, however
    /// its parameters are encoded.
    pub open spec fn fits_url(self) -> bool {
        self.receiver_address.len() + 12 * web::pairs_size(self.query()) + 32 <= u32::MAX
    }

    /// The URL that a request is sent in: `scheme://domain/.well-known/lnurlp/user`, with the
    /// parameters of the request, for an address `user@domain`.
    pub open spec fn url(self) -> Result<url::Url, Error> {
        match text::cut_at_only(self.receiver_address, '@') {
            Some((user, domain)) => match web::url_of(
                web::lnurlp_text(scheme_of(domain), domain, user, self.query()),
            ) {
                Ok(u) => Ok(u),
                Err(_) => Err(Error::InvalidUrl),
            },
            None => Err(Error::InvalidReceiverAddress),
        }
    }

    /// The request as one that has all that the protocol asks for. A missing flag for the
    /// travel rule counts as unset.
    pub open spec fn uma(self) -> Option<UmaLnurlpRequestView> {
        match (self.nonce, self.signature, self.vasp_domain, self.timestamp, self.uma_version) {
            (
                Some(nonce),
                Some(signature),
                Some(vasp_domain),
                Some(timestamp),
                Some(uma_version),
            ) => Some(
                UmaLnurlpRequestView {
                    receiver_address: self.receiver_address,
                    nonce,
                    signature,
                    is_subject_to_travel_rule: self.is_subject_to_travel_rule == Some(true),
                    vasp_domain,
                    timestamp,
                    uma_version,
                },
            ),
            _ => None,
        }
    }
}

impl UmaLnurlpRequestView {
    /// The bytes that are signed: `address|nonce|timestamp`.
    pub open spec fn signable(self) -> Seq<u8> {
        text::payload_bytes(self.receiver_address, self.nonce, self.timestamp)
    }
}

/// What is signed does not change when a request is seen as one that has all that the
/// protocol asks for.
pub proof fn uma_request_signs_the_same(request: LnurlpRequestView)
    ensures
        request.uma() matches Some(uma) ==> request.signable() == Ok::<Seq<u8>, Error>(
            uma.signable(),
        ),
{
}

fn push_pair(pairs: &mut Vec<(String, String)>, name: &str, value: Option<String>)
    ensures
        web::pair_texts(final(pairs)@) == with_pair(
            web::pair_texts(old(pairs)@),
            name@,
            text::opt_text(value),
        ),
{
    match value {
        Some(v) => {
            pairs.push((name.to_owned(), v));
            assert(web::pair_texts(pairs@) =~= web::pair_texts(old(pairs)@).push((name@, v@)));
        },
        None => {},
    }
}

impl LnurlpRequest {
    /// The bytes that are signed: `address|nonce|timestamp`.
    pub fn signable_payload(&self) -> (res: Result<Vec<u8>, Error>)
        ensures
            match res {
                Ok(payload) => self@.signable() == Ok::<Seq<u8>, Error>(payload@),
                Err(e) => self@.signable() == Err::<Seq<u8>, Error>(e),
            },
    {
        let nonce = match &self.nonce {
            Some(nonce) => nonce,
            None => {
                return Err(Error::MissingNonce);
            },
        };
        let timestamp: i64 = match self.timestamp {
            Some(timestamp) => timestamp,
            None => {
                return Err(Error::MissingTimestamp);
            },
        };
        Ok(text::payload(self.receiver_address.as_str(), nonce.as_str(), timestamp))
    }

    /// The parameters of the URL that a request is sent in.
    fn query_params(&self) -> (res: Vec<(String, String)>)
        ensures
            web::pair_texts(res@) == self@.query(),
    {
        let flag: Option<String> = match self.is_subject_to_travel_rule {
            Some(true) => Some("true".to_owned()),
            Some(false) => Some("false".to_owned()),
            None => None,
        };
        let time: Option<String> = match self.timestamp {
            Some(timestamp) => Some(text::decimal_int_text(timestamp)),
            None => None,
        };
        let mut pairs: Vec<(String, String)> = Vec::new();
        assert(web::pair_texts(pairs@) =~= Seq::<(Seq<char>, Seq<char>)>::empty());
        push_pair(&mut pairs, "signature", text::copy_opt(&self.signature));
        push_pair(&mut pairs, "vaspDomain", text::copy_opt(&self.vasp_domain));
        push_pair(&mut pairs, "nonce", text::copy_opt(&self.nonce));
        push_pair(&mut pairs, "isSubjectToTravelRule", flag);
        push_pair(&mut pairs, "timestamp", time);
        push_pair(&mut pairs, "umaVersion", text::copy_opt(&self.uma_version));
        pairs
    }

    /// The URL that a request is sent in.
    ///
    /// If its user is a plain segment, a URL that keeps the domain as its host keeps the user
    /// as its last segment and all parameters. A plain host name as domain is always kept,
    /// unless the request is too long for a URL.
    pub fn encode_to_url(&self) -> (res: Result<url::Url, Error>)
        ensures
            res == self@.url(),
            text::cut_at_only(self@.receiver_address, '@') matches Some((user, domain)) ==> (
            web::is_plain_segment(user) ==> {
                &&& res matches Ok(u) ==> web::url_host(u) == Some(domain) ==> web::keeps(
                    u,
                    domain,
                    user,
                    self@.query(),
                )
                &&& web::is_plain_host(domain) && self@.fits_url() ==> (res matches Ok(u)
                    && web::url_host(u) == Some(domain))
            }),
    {
        let (user, domain) = match text::split_at_only(self.receiver_address.as_str(), '@') {
            Some(parts) => parts,
            None => {
                return Err(Error::InvalidReceiverAddress);
            },
        };
        let scheme = scheme_for(domain.as_str());
        let mut address = scheme.to_owned();
        address.append("://");
        address.append(domain.as_str());
        address.append("/.well-known/lnurlp/");
        address.append(user.as_str());
        address.append("?");
        let pairs = self.query_params();
        let query = web::form_encode(pairs.as_slice());
        address.append(query.as_str());
        proof {
            text::cut_at_first_restores(self@.receiver_address, '@');
            reveal_strlit("http");
            reveal_strlit("https");
            reveal_strlit("://");
            reveal_strlit("/.well-known/lnurlp/");
            reveal_strlit("?");
            assert("http"@.len() == 4);
            assert("https"@.len() == 5);
            assert("://"@.len() == 3);
            assert("/.well-known/lnurlp/"@.len() == 20);
            assert("?"@.len() == 1);
            assert(address@ == web::lnurlp_text(scheme@, domain@, user@, self@.query()));
        }
        match web::parse(address.as_str()) {
            Ok(u) => Ok(u),
            Err(_) => Err(Error::InvalidUrl),
        }
    }

    /// The request as one that has all that the protocol asks for.
    pub fn as_uma_request(&self) -> (res: Option<UmaLnurlpRequest>)
        ensures
            match res {
                Some(r) => self@.uma() == Some(r@),
                None => self@.uma() is None,
            },
    {
        match (&self.nonce, &self.signature, &self.vasp_domain, self.timestamp, &self.uma_version) {
            (
                Some(nonce),
                Some(signature),
                Some(vasp_domain),
                Some(timestamp),
                Some(uma_version),
            ) => Some(
                UmaLnurlpRequest {
                    receiver_address: self.receiver_address.clone(),
                    nonce: nonce.clone(),
                    signature: signature.clone(),
                    is_subject_to_travel_rule: match self.is_subject_to_travel_rule {
                        Some(flag) => flag,
                        None => false,
                    },
                    vasp_domain: vasp_domain.clone(),
                    timestamp,
                    uma_version: uma_version.clone(),
                },
            ),
            _ => None,
        }
    }
}

impl UmaLnurlpRequest {
    /// The bytes that are signed: `address|nonce|timestamp`.
    pub fn signable_payload(&self) -> (res: Vec<u8>)
        ensures
            res@ == self@.signable(),
    {
        text::payload(self.receiver_address.as_str(), self.nonce.as_str(), self.timestamp)
    }
}

} // verus!
