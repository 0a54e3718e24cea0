//! The request that opens a payment.
use vstd::prelude::*;
use vstd::string::*;

use crate::ambient;
use crate::error;
use crate::error::{Error, ErrorView};
use crate::protocol::lnurl_request;
use crate::protocol::lnurl_request::{LnurlpRequest, LnurlpRequestView, UmaLnurlpRequest};
use crate::signature;
use crate::text;
use crate::uma::nonce;
use crate::version;
use crate::web;

verus! {

/// The value of the first parameter with a name.
pub open spec fn first_value(pairs: Seq<(Seq<char>, Seq<char>)>, name: Seq<char>) -> Option<
    Seq<char>,
>
    decreases pairs.len(),
{
    if pairs.len() == 0 {
        None
    } else if pairs[0].0 == name {
        Some(pairs[0].1)
    } else {
        first_value(pairs.skip(1), name)
    }
}

/// Whether the segments of a path are `.well-known`, `lnurlp` and a user.
pub open spec fn is_lnurlp_path(segments: Option<Seq<Seq<char>>>) -> bool {
    segments matches Some(s) && s.len() == 3 && s[0] == ".well-known"@ && s[1] == "lnurlp"@
}

/// The request that the parts of a URL are, or why they are none. The parameters are looked
/// for first, in the order in which they stand here; then come the path, the version and
/// the host.
pub open spec fn parsed_request(
    pairs: Seq<(Seq<char>, Seq<char>)>,
    segments: Option<Seq<Seq<char>>>,
    host: Option<Seq<char>>,
) -> Result<LnurlpRequestView, ErrorView> {
    match first_value(pairs, "signature"@) {
        None => Err(ErrorView::MissingUrlParam("signature"@)),
        Some(signature) => match first_value(pairs, "vaspDomain"@) {
            None => Err(ErrorView::MissingUrlParam("vsapDomain"@)),
            Some(vasp_domain) => match first_value(pairs, "nonce"@) {
                None => Err(ErrorView::MissingUrlParam("nonce"@)),
                Some(nonce) => match parsed_timestamp(pairs) {
                    None => Err(ErrorView::MissingUrlParam("timestamp"@)),
                    Some(timestamp) => match first_value(pairs, "umaVersion"@) {
                        None => Err(ErrorView::MissingUrlParam("umaVersion"@)),
                        Some(uma_version) => if !is_lnurlp_path(segments) {
                            Err(ErrorView::InvalidUrlPath)
                        } else if !version::supported(uma_version) {
                            Err(ErrorView::UnsupportedVersion)
                        } else {
                            match host {
                                None => Err(ErrorView::InvalidHost),
                                Some(host) => Ok(
                                    LnurlpRequestView {
                                        receiver_address: segments->0[2] + "@"@ + host,
                                        nonce: Some(nonce),
                                        signature: Some(signature),
                                        is_subject_to_travel_rule: Some(parsed_flag(pairs)),
                                        vasp_domain: Some(vasp_domain),
                                        timestamp: Some(timestamp),
                                        uma_version: Some(uma_version),
                                    },
                                ),
                            }
                        },
                    },
                },
            },
        },
    }
}

/// The timestamp in some parameters.
pub open spec fn parsed_timestamp(pairs: Seq<(Seq<char>, Seq<char>)>) -> Option<i64> {
    match first_value(pairs, "timestamp"@) {
        Some(s) => text::parsed_i64(s),
        None => None,
    }
}

/// The flag for the travel rule in some parameters: unset if it is missing.
pub open spec fn parsed_flag(pairs: Seq<(Seq<char>, Seq<char>)>) -> bool {
    first_value(pairs, "isSubjectToTravelRule"@) matches Some(s) && text::says_true(s)
}

/// The request that a URL is, or why it is none.
pub open spec fn url_request(u: url::Url) -> Result<LnurlpRequestView, ErrorView> {
    parsed_request(web::url_query_pairs(u), web::url_path_segments(u), web::url_host(u))
}

/// A request that was read has all that the protocol asks for, in a version that the library
/// speaks.
pub proof fn parsed_request_is_complete(
    pairs: Seq<(Seq<char>, Seq<char>)>,
    segments: Option<Seq<Seq<char>>>,
    host: Option<Seq<char>>,
)
    ensures
        parsed_request(pairs, segments, host) matches Ok(request) ==> {
            request.uma() matches Some(uma) && version::supported(uma.uma_version)
        },
{
}

proof fn lemma_flag_text_reads_back(flag: bool)
    ensures
        text::says_true(lnurl_request::flag_text(flag)) == flag,
{
    reveal_strlit("true");
    reveal_strlit("false");
    assert("true"@.len() == 4);
    assert("false"@.len() == 5);
    assert(vstd::utf8::is_ascii_chars("true"@));
    assert(vstd::utf8::is_ascii_chars("false"@));
    assert(text::ascii_lowercased("true"@) =~= "true"@);
    assert(text::ascii_lowercased("false"@).len() == 5);
}

/// A complete request is read back from its own parameters, with its address from the last
/// segment of the path and the host, if it is in a version that the library speaks.
pub proof fn parsed_request_of_query(
    request: LnurlpRequestView,
    user: Seq<char>,
    domain: Seq<char>,
)
    requires
        text::cut_at_only(request.receiver_address, '@') == Some((user, domain)),
        request.uma() matches Some(uma) && version::supported(uma.uma_version),
        request.is_subject_to_travel_rule is Some,
    ensures
        parsed_request(
            request.query(),
            Some(seq![".well-known"@, "lnurlp"@, user]),
            Some(domain),
        ) == Ok::<LnurlpRequestView, ErrorView>(request),
{
    let pairs = request.query();
    reveal_strlit("signature");
    reveal_strlit("vaspDomain");
    reveal_strlit("nonce");
    reveal_strlit("isSubjectToTravelRule");
    reveal_strlit("timestamp");
    reveal_strlit("umaVersion");
    assert("signature"@.len() == 9 && "signature"@[0] == 's');
    assert("vaspDomain"@.len() == 10 && "vaspDomain"@[0] == 'v');
    assert("nonce"@.len() == 5);
    assert("isSubjectToTravelRule"@.len() == 21);
    assert("timestamp"@.len() == 9 && "timestamp"@[0] == 't');
    assert("umaVersion"@.len() == 10 && "umaVersion"@[0] == 'u');
    assert(pairs.len() == 6);
    assert(pairs[0] == ("signature"@, request.signature->0));
    assert(pairs[1] == ("vaspDomain"@, request.vasp_domain->0));
    assert(pairs[2] == ("nonce"@, request.nonce->0));
    assert(pairs[3].0 == "isSubjectToTravelRule"@);
    assert(pairs[4].0 == "timestamp"@);
    assert(pairs[5] == ("umaVersion"@, request.uma_version->0));
    let p1 = pairs.skip(1);
    let p2 = p1.skip(1);
    let p3 = p2.skip(1);
    let p4 = p3.skip(1);
    let p5 = p4.skip(1);
    assert(first_value(p1, "vaspDomain"@) == Some(request.vasp_domain->0));
    assert(first_value(p2, "nonce"@) == Some(request.nonce->0));
    assert(first_value(p3, "isSubjectToTravelRule"@) == Some(pairs[3].1));
    assert(first_value(p4, "timestamp"@) == Some(pairs[4].1));
    assert(first_value(p5, "umaVersion"@) == Some(request.uma_version->0));
    assert(first_value(p4, "umaVersion"@) == first_value(p5, "umaVersion"@));
    assert(first_value(p3, "umaVersion"@) == first_value(p4, "umaVersion"@));
    assert(first_value(p2, "umaVersion"@) == first_value(p3, "umaVersion"@));
    assert(first_value(p1, "umaVersion"@) == first_value(p2, "umaVersion"@));
    assert(first_value(p3, "timestamp"@) == first_value(p4, "timestamp"@));
    assert(first_value(p2, "timestamp"@) == first_value(p3, "timestamp"@));
    assert(first_value(p1, "timestamp"@) == first_value(p2, "timestamp"@));
    assert(first_value(p2, "isSubjectToTravelRule"@) == first_value(p3, "isSubjectToTravelRule"@));
    assert(first_value(p1, "isSubjectToTravelRule"@) == first_value(p2, "isSubjectToTravelRule"@));
    assert(first_value(p1, "nonce"@) == first_value(p2, "nonce"@));
    text::parsed_i64_of_decimal(request.timestamp->0);
    lemma_flag_text_reads_back(request.is_subject_to_travel_rule->0);
    text::cut_at_first_restores(request.receiver_address, '@');
    reveal_strlit("@");
    assert("@"@ =~= seq!['@']);
    let segments = seq![".well-known"@, "lnurlp"@, user];
    assert(is_lnurlp_path(Some(segments)) && segments[2] == user);
    assert(user + "@"@ + domain =~= request.receiver_address);
    assert(first_value(pairs, "signature"@) == request.signature);
    assert(first_value(pairs, "vaspDomain"@) == request.vasp_domain);
    assert(first_value(pairs, "nonce"@) == request.nonce);
    assert(parsed_flag(pairs) == request.is_subject_to_travel_rule->0);
    assert(parsed_timestamp(pairs) == request.timestamp);
    assert(first_value(pairs, "umaVersion"@) == request.uma_version);
}

/// The value of the first parameter with a name.
fn find_value(pairs: &[(String, String)], name: &str) -> (res: Option<String>)
    ensures
        text::opt_text(res) == first_value(web::pair_texts(pairs@), name@),
{
    let ghost all = web::pair_texts(pairs@);
    let mut i: usize = 0;
    assert(all.skip(0) =~= all);
    while i < pairs.len()
        invariant
            all == web::pair_texts(pairs@),
            i <= pairs.len(),
            first_value(all, name@) == first_value(all.skip(i as int), name@),
        decreases pairs.len() - i,
    {
        assert(all.skip(i as int)[0] == all[i as int]);
        assert(all.skip(i as int).skip(1) =~= all.skip(i + 1));
        if text::same_text(pairs[i].0.as_str(), name) {
            return Some(pairs[i].1.clone());
        }
        i += 1;
    }
    None
}

/// The last of the segments `.well-known`, `lnurlp` and a user.
fn lnurlp_user(segments: &Option<Vec<String>>) -> (res: Option<String>)
    ensures
        ({
            let views = match *segments {
                Some(s) => Some(text::texts(s@)),
                None => None,
            };
            match res {
                Some(user) => is_lnurlp_path(views) && views->0[2] == user@,
                None => !is_lnurlp_path(views),
            }
        }),
{
    match segments {
        Some(s) => if s.len() == 3 && text::same_text(s[0].as_str(), ".well-known")
            && text::same_text(s[1].as_str(), "lnurlp") {
            Some(s[2].clone())
        } else {
            None
        },
        None => None,
    }
}

/// Reads a request from the parts of its URL: the parameters, the segments of the path and
/// the host.
pub fn parse_lnurlp_request_parts(
    pairs: &[(String, String)],
    segments: &Option<Vec<String>>,
    host: &Option<String>,
) -> (res: Result<LnurlpRequest, Error>)
    ensures
        error::outcome(res) == parsed_request(
            web::pair_texts(pairs@),
            match *segments {
                Some(s) => Some(text::texts(s@)),
                None => None,
            },
            text::opt_text(*host),
        ),
{
    let signature = match find_value(pairs, "signature") {
        Some(signature) => signature,
        None => {
            return Err(Error::MissingUrlParam("signature".to_owned()));
        },
    };
    let vasp_domain = match find_value(pairs, "vaspDomain") {
        Some(vasp_domain) => vasp_domain,
        None => {
            return Err(Error::MissingUrlParam("vsapDomain".to_owned()));
        },
    };
    let nonce = match find_value(pairs, "nonce") {
        Some(nonce) => nonce,
        None => {
            return Err(Error::MissingUrlParam("nonce".to_owned()));
        },
    };
    let is_subject_to_travel_rule: bool = match find_value(pairs, "isSubjectToTravelRule") {
        Some(value) => text::is_true(value.as_str()),
        None => false,
    };
    let timestamp: i64 = match find_value(pairs, "timestamp") {
        Some(value) => match text::parse_i64(value.as_str()) {
            Some(timestamp) => timestamp,
            None => {
                return Err(Error::MissingUrlParam("timestamp".to_owned()));
            },
        },
        None => {
            return Err(Error::MissingUrlParam("timestamp".to_owned()));
        },
    };
    let uma_version = match find_value(pairs, "umaVersion") {
        Some(uma_version) => uma_version,
        None => {
            return Err(Error::MissingUrlParam("umaVersion".to_owned()));
        },
    };
    let user = match lnurlp_user(segments) {
        Some(user) => user,
        None => {
            return Err(Error::InvalidUrlPath);
        },
    };
    if !version::is_version_supported(uma_version.as_str()) {
        return Err(Error::UnsupportedVersion);
    }
    let host = match host {
        Some(host) => host,
        None => {
            return Err(Error::InvalidHost);
        },
    };
    let mut receiver_address = user;
    receiver_address.append("@");
    receiver_address.append(host.as_str());
    Ok(
        LnurlpRequest {
            receiver_address,
            nonce: Some(nonce),
            signature: Some(signature),
            is_subject_to_travel_rule: Some(is_subject_to_travel_rule),
            vasp_domain: Some(vasp_domain),
            timestamp: Some(timestamp),
            uma_version: Some(uma_version),
        },
    )
}

/// Reads a request from its URL.
///
/// A request that was read has all that the protocol asks for.
pub fn parse_lnurlp_request(url: &url::Url) -> (res: Result<LnurlpRequest, Error>)
    ensures
        error::outcome(res) == url_request(*url),
        res matches Ok(request) ==> request@.uma() is Some,
{
    let pairs = web::query_pairs(url);
    let segments = web::path_segments(url);
    let host = web::host_str(url);
    parse_lnurlp_request_parts(pairs.as_slice(), &segments, &host)
}

/// Whether a URL is a request.
pub fn is_uma_lnurl_query(url: &url::Url) -> (res: bool)
    ensures
        res == (url_request(*url) is Ok),
{
    parse_lnurlp_request(url).is_ok()
}

/// The most characters that the parts of a request may have, for its URL to be no longer than
/// 32-bit offsets reach: the address of the receiver, the domain of the sender, the version
/// and the nonce.
pub const MAX_REQUEST_CHARS: usize = 0x0fff_0000;

/// Whether a request is short enough for a URL, with any signature.
pub open spec fn is_short(request: LnurlpRequestView) -> bool {
    request.receiver_address.len() + request.vasp_domain->0.len() + request.uma_version->0.len()
        + request.nonce->0.len() <= MAX_REQUEST_CHARS
}

/// A request before it is signed.
pub open spec fn unsigned_request(
    receiver_address: Seq<char>,
    sender_vasp_domain: Seq<char>,
    is_subject_to_travel_rule: bool,
    uma_version: Seq<char>,
    nonce: Seq<char>,
    timestamp: i64,
) -> LnurlpRequestView {
    LnurlpRequestView {
        receiver_address,
        nonce: Some(nonce),
        signature: None,
        is_subject_to_travel_rule: Some(is_subject_to_travel_rule),
        vasp_domain: Some(sender_vasp_domain),
        timestamp: Some(timestamp),
        uma_version: Some(uma_version),
    }
}

/// A request with its signature, or why there is none.
pub open spec fn signed_request(request: LnurlpRequestView, private_key: Seq<u8>) -> Result<
    LnurlpRequestView,
    ErrorView,
> {
    match request.signable() {
        Err(e) => Err(ErrorView::ProtocolError(e)),
        Ok(payload) => match signature::signed(payload, private_key) {
            Err(e) => Err(e),
            Ok(signature) => Ok(LnurlpRequestView { signature: Some(signature), ..request }),
        },
    }
}

/// The URL of a request with its signature, or why there is none.
pub open spec fn signed_request_url(request: LnurlpRequestView, private_key: Seq<u8>) -> Result<
    url::Url,
    ErrorView,
> {
    match signed_request(request, private_key) {
        Err(e) => Err(e),
        Ok(signed) => match signed.url() {
            Err(e) => Err(ErrorView::ProtocolError(e)),
            Ok(u) => Ok(u),
        },
    }
}

/// The version to put in a request: the one that is asked for, or the latest.
pub open spec fn chosen_version(uma_version_override: Option<Seq<char>>) -> Seq<char> {
    match uma_version_override {
        Some(version) => version,
        None => "1.0"@,
    }
}

/// Whether the receiver of a URL reads the signed request in it and accepts its signature,
/// under each public key that belongs to the private one.
pub open spec fn is_read_and_verified(
    u: url::Url,
    request: LnurlpRequestView,
    private_key: Seq<u8>,
) -> bool {
    &&& url_request(u) == signed_request(request, private_key)
    &&& url_request(u) matches Ok(read) && read.uma() matches Some(uma)
        && signature::verifies_for_signer(uma.signable(), uma.signature, private_key)
}

/// Whether the signature on a request is accepted under each public key that belongs to the
/// private one.
pub open spec fn signature_verifies(request: LnurlpRequestView, private_key: Seq<u8>) -> bool {
    request.signable() matches Ok(payload) && signature::signed(payload, private_key) matches Ok(
        signature,
    ) && signature::verifies_for_signer(payload, signature, private_key)
}

/// What is owed for a request to a `user@domain` whose user is a plain segment. It is sent,
/// if the domain is a plain host name, the key is valid and the request is short. Where the
/// URL keeps the domain as its host, the receiver reads the request and accepts its signature,
/// if it is in a version that the library speaks.
pub open spec fn reaches_receiver(
    res: Result<url::Url, Error>,
    request: LnurlpRequestView,
    private_key: Seq<u8>,
) -> bool {
    text::cut_at_only(request.receiver_address, '@') matches Some((user, domain)) ==> (
    web::is_plain_segment(user) ==> {
        &&& web::is_plain_host(domain) && signature::is_secret_key(private_key) && is_short(request)
            ==> (res matches Ok(u) && web::url_host(u) == Some(domain))
        &&& res matches Ok(u) ==> (web::url_host(u) == Some(domain)
            && version::supported(request.uma_version->0) ==> is_read_and_verified(
            u,
            request,
            private_key,
        ))
    })
}

proof fn lemma_request_size(request: LnurlpRequestView)
    requires
        request.uma() matches Some(uma) && uma.signature.len() <= 144,
        request.is_subject_to_travel_rule is Some,
        is_short(request),
    ensures
        request.fits_url(),
{
    let pairs = request.query();
    reveal_strlit("signature");
    reveal_strlit("vaspDomain");
    reveal_strlit("nonce");
    reveal_strlit("isSubjectToTravelRule");
    reveal_strlit("timestamp");
    reveal_strlit("umaVersion");
    reveal_strlit("true");
    reveal_strlit("false");
    text::decimal_int_of_i64_is_short(request.timestamp->0);
    assert(pairs.len() == 6);
    let p5 = pairs.drop_last();
    let p4 = p5.drop_last();
    let p3 = p4.drop_last();
    let p2 = p3.drop_last();
    let p1 = p2.drop_last();
    assert(p1.drop_last().len() == 0);
    assert(web::pairs_size(p1.drop_last()) == 0);
    assert(p1.last() == ("signature"@, request.signature->0));
    assert(p2.last() == ("vaspDomain"@, request.vasp_domain->0));
    assert(p3.last() == ("nonce"@, request.nonce->0));
    assert(p4.last().0 == "isSubjectToTravelRule"@ && p4.last().1.len() <= 5);
    assert(p5.last().0 == "timestamp"@ && p5.last().1.len() <= 20);
    assert(pairs.last() == ("umaVersion"@, request.uma_version->0));
    assert(web::pairs_size(p1) == 11 + request.signature->0.len());
    assert(web::pairs_size(p2) == web::pairs_size(p1) + 12 + request.vasp_domain->0.len());
    assert(web::pairs_size(p3) == web::pairs_size(p2) + 7 + request.nonce->0.len());
    assert(web::pairs_size(p4) <= web::pairs_size(p3) + 28);
    assert(web::pairs_size(p5) <= web::pairs_size(p4) + 31);
    assert(web::pairs_size(pairs) == web::pairs_size(p5) + 12 + request.uma_version->0.len());
}

/// Makes the URL of a signed request, with a nonce and a time that are given.
pub fn signed_lnurlp_request_url(
    signing_private_key: &[u8],
    receiver_address: &str,
    sender_vasp_domain: &str,
    is_subject_to_travel_rule: bool,
    uma_version: &str,
    nonce: &str,
    timestamp: i64,
) -> (res: Result<url::Url, Error>)
    ensures
        error::plain_outcome(res) == signed_request_url(
            unsigned_request(
                receiver_address@,
                sender_vasp_domain@,
                is_subject_to_travel_rule,
                uma_version@,
                nonce@,
                timestamp,
            ),
            signing_private_key@,
        ),
        reaches_receiver(
            res,
            unsigned_request(
                receiver_address@,
                sender_vasp_domain@,
                is_subject_to_travel_rule,
                uma_version@,
                nonce@,
                timestamp,
            ),
            signing_private_key@,
        ),
        res is Ok ==> signature_verifies(
            unsigned_request(
                receiver_address@,
                sender_vasp_domain@,
                is_subject_to_travel_rule,
                uma_version@,
                nonce@,
                timestamp,
            ),
            signing_private_key@,
        ),
{
    let mut request = LnurlpRequest {
        receiver_address: receiver_address.to_owned(),
        nonce: Some(nonce.to_owned()),
        signature: None,
        is_subject_to_travel_rule: Some(is_subject_to_travel_rule),
        vasp_domain: Some(sender_vasp_domain.to_owned()),
        timestamp: Some(timestamp),
        uma_version: Some(uma_version.to_owned()),
    };
    let ghost unsigned = request@;
    let payload = match request.signable_payload() {
        Ok(payload) => payload,
        Err(e) => {
            return Err(Error::ProtocolError(e));
        },
    };
    let signature = match signature::sign_payload(payload.as_slice(), signing_private_key) {
        Ok(signature) => signature,
        Err(e) => {
            return Err(e);
        },
    };
    request.signature = Some(signature);
    proof {
        assert(signed_request(unsigned, signing_private_key@) == Ok::<_, ErrorView>(request@));
        if is_short(request@) {
            lemma_request_size(request@);
        }
        if let Some((user, domain)) = text::cut_at_only(receiver_address@, '@') {
            if version::supported(uma_version@) {
                parsed_request_of_query(request@, user, domain);
            }
        }
    }
    match request.encode_to_url() {
        Ok(u) => Ok(u),
        Err(e) => Err(Error::ProtocolError(e)),
    }
}

/// Makes the URL of a signed request.
///
/// # Arguments
///
/// * `signing_private_key` - the private key of the VASP that is sending the payment. This
///   will be used to sign the request.
/// * `receiver_address` - the address of the receiver of the payment (i.e. $bob@vasp2).
/// * `sender_vasp_domain` - the domain of the VASP that is sending the payment. It will be
///   used by the receiver to fetch the public keys of the sender.
/// * `is_subject_to_travel_rule` - whether the sending VASP is a financial institution that
///   requires travel rule information.
/// * `uma_version_override` - the version of the protocol to use. If not specified, the
///   latest version will be used.
pub fn get_signed_lnurlp_request_url(
    signing_private_key: &[u8],
    receiver_address: &str,
    sender_vasp_domain: &str,
    is_subject_to_travel_rule: bool,
    uma_version_override: Option<&str>,
) -> (res: Result<url::Url, Error>)
    ensures
        exists|nonce: Seq<char>, timestamp: i64|
            nonce::is_nonce(nonce) && nonce.len() <= 20 && ambient::is_clock_reading(timestamp) && {
                let request = #[trigger] unsigned_request(
                    receiver_address@,
                    sender_vasp_domain@,
                    is_subject_to_travel_rule,
                    chosen_version(text::opt_str(uma_version_override)),
                    nonce,
                    timestamp,
                );
                &&& error::plain_outcome(res) == signed_request_url(request, signing_private_key@)
                &&& reaches_receiver(res, request, signing_private_key@)
                &&& res is Ok ==> signature_verifies(request, signing_private_key@)
            },
{
    let nonce = nonce::generate_nonce();
    let uma_version = match uma_version_override {
        Some(version) => version.to_owned(),
        None => version::uma_protocol_version(),
    };
    let timestamp: i64 = ambient::now();
    assert(uma_version@ == chosen_version(text::opt_str(uma_version_override)));
    signed_lnurlp_request_url(
        signing_private_key,
        receiver_address,
        sender_vasp_domain,
        is_subject_to_travel_rule,
        uma_version.as_str(),
        nonce.as_str(),
        timestamp,
    )
}

/// Checks the signature on a request, with the public key of the VASP that makes it.
///
/// # Arguments
///
/// * `query` - the signed query to verify.
/// * `other_vasp_pub_key` - the bytes of the signing public key of the VASP making this
///   request.
pub fn verify_uma_lnurlp_query_signature(
    query: UmaLnurlpRequest,
    other_vasp_pub_key: &[u8],
) -> (res: Result<(), Error>)
    ensures
        error::outcome(res) == signature::verified(
            query@.signable(),
            query@.signature,
            other_vasp_pub_key@,
        ),
{
    let payload = query.signable_payload();
    signature::verify_ecdsa(payload.as_slice(), query.signature.as_str(), other_vasp_pub_key)
}

} // verus!
