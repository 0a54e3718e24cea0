//! Laws on the request that opens a payment.
use bitcoin::secp256k1::Error as CurveError;
use vstd::prelude::*;

use crate::ambient;
use crate::error;
use crate::error::Error;
use crate::hexadecimal;
use crate::protocol;
use crate::protocol::lnurl_request;
use crate::protocol::lnurl_request::{LnurlpRequest, UmaLnurlpRequest};
use crate::signature;
use crate::text;
use crate::uma::nonce;
use crate::uma::request;
use crate::uma::request::{
    get_signed_lnurlp_request_url, is_uma_lnurl_query, parse_lnurlp_request,
    parse_lnurlp_request_parts, signed_lnurlp_request_url, verify_uma_lnurlp_query_signature,
};
use crate::version;
use crate::web;

verus! {

/// The value that is found for a name is that of the first parameter with the name, and nothing
/// is found exactly if no parameter has it.
pub proof fn found_value_is_the_first(pairs: Seq<(Seq<char>, Seq<char>)>, name: Seq<char>)
    ensures
        match request::first_value(pairs, name) {
            Some(v) => exists|i: int|
                {
                    &&& 0 <= i < pairs.len()
                    &&& #[trigger] pairs[i] == (name, v)
                    &&& forall|j: int| 0 <= j < i ==> (#[trigger] pairs[j]).0 != name
                },
            None => forall|i: int| 0 <= i < pairs.len() ==> (#[trigger] pairs[i]).0 != name,
        },
    decreases pairs.len(),
{
    if pairs.len() > 0 && pairs[0].0 != name {
        found_value_is_the_first(pairs.skip(1), name);
        match request::first_value(pairs.skip(1), name) {
            Some(v) => {
                let i = choose|i: int|
                    {
                        &&& 0 <= i < pairs.skip(1).len()
                        &&& #[trigger] pairs.skip(1)[i] == (name, v)
                        &&& forall|j: int| 0 <= j < i ==> (#[trigger] pairs.skip(1)[j]).0 != name
                    };
                assert(pairs[i + 1] == (name, v));
                assert forall|j: int| 0 <= j < i + 1 implies (#[trigger] pairs[j]).0 != name by {
                    if j > 0 {
                        assert(pairs.skip(1)[j - 1] == pairs[j]);
                    }
                }
            },
            None => {
                assert forall|i: int| 0 <= i < pairs.len() implies (#[trigger] pairs[i]).0
                    != name by {
                    if i > 0 {
                        assert(pairs.skip(1)[i - 1] == pairs[i]);
                    }
                }
            },
        }
    } else if pairs.len() > 0 {
        assert(pairs[0] == (name, pairs[0].1));
    }
}

/// A text that is not ASCII says true exactly if its lower-case form is `true`.
pub proof fn other_text_says_true_exactly_if(s: Seq<char>)
    requires
        !vstd::utf8::is_ascii_chars(s),
    ensures
        text::says_true(s) <==> text::lowercased(s) == seq!['t', 'r', 'u', 'e'],
{
    reveal_strlit("true");
    assert("true"@ =~= seq!['t', 'r', 'u', 'e']);
}

/// An ASCII text says true exactly if it is the word `true`, each letter in either case.
pub proof fn ascii_text_says_true_exactly_if(s: Seq<char>)
    requires
        vstd::utf8::is_ascii_chars(s),
    ensures
        text::says_true(s) <==> {
            &&& s.len() == 4
            &&& s[0] == 't' || s[0] == 'T'
            &&& s[1] == 'r' || s[1] == 'R'
            &&& s[2] == 'u' || s[2] == 'U'
            &&& s[3] == 'e' || s[3] == 'E'
        },
{
    reveal_strlit("true");
    let word = "true"@;
    assert(word.len() == 4 && word[0] == 't' && word[1] == 'r' && word[2] == 'u' && word[3] == 'e');
    let lower = text::ascii_lowercased(s);
    if text::says_true(s) {
        assert(lower == word);
        assert(lower.len() == s.len());
        assert(lower[0] == 't' && lower[1] == 'r' && lower[2] == 'u' && lower[3] == 'e');
    } else if s.len() == 4 && (s[0] == 't' || s[0] == 'T') && (s[1] == 'r' || s[1] == 'R') && (s[2]
        == 'u' || s[2] == 'U') && (s[3] == 'e' || s[3] == 'E') {
        assert(lower =~= word);
    }
}

/// A domain is asked with `http` exactly if it begins with `localhost:`, and with `https`
/// otherwise.
pub proof fn local_ports_are_asked_without_encryption(rest: Seq<char>, domain: Seq<char>)
    ensures
        lnurl_request::scheme_of(
            seq!['l', 'o', 'c', 'a', 'l', 'h', 'o', 's', 't', ':'] + rest,
        ) == seq!['h', 't', 't', 'p'],
        (domain.len() < 10 || domain.take(10) != seq![
            'l',
            'o',
            'c',
            'a',
            'l',
            'h',
            'o',
            's',
            't',
            ':',
        ]) ==> lnurl_request::scheme_of(domain) == seq!['h', 't', 't', 'p', 's'],
{
    let prefix = seq!['l', 'o', 'c', 'a', 'l', 'h', 'o', 's', 't', ':'];
    reveal_strlit("localhost:");
    reveal_strlit("http");
    reveal_strlit("https");
    assert("localhost:"@ =~= prefix);
    assert("http"@ =~= seq!['h', 't', 't', 'p']);
    assert("https"@ =~= seq!['h', 't', 't', 'p', 's']);
    assert((prefix + rest).take(10) =~= prefix);
}

/// A request is read from its parts with each field from the first parameter of its name: the
/// time as a number, the flag set exactly if its parameter says true, and the address made of
/// the last segment and the host.
pub proof fn read_request_holds_the_parameters(
    pairs: &[(String, String)],
    segments: &Option<Vec<String>>,
    host: &Option<String>,
    read: LnurlpRequest,
)
    requires
        call_ensures(parse_lnurlp_request_parts, (pairs, segments, host), Ok(read)),
    ensures
        ({
            let given = Seq::new(pairs@.len(), |i: int| (pairs@[i].0@, pairs@[i].1@));
            &&& read.signature matches Some(s) && request::first_value(given, "signature"@)
                == Some(s@)
            &&& read.vasp_domain matches Some(s) && request::first_value(given, "vaspDomain"@)
                == Some(s@)
            &&& read.nonce matches Some(s) && request::first_value(given, "nonce"@) == Some(s@)
            &&& read.uma_version matches Some(s) && request::first_value(given, "umaVersion"@)
                == Some(s@)
            &&& read.timestamp is Some
            &&& request::first_value(given, "timestamp"@) matches Some(s) && text::parsed_i64(s)
                == read.timestamp
            &&& read.is_subject_to_travel_rule == Some(
                match request::first_value(given, "isSubjectToTravelRule"@) {
                    Some(s) => text::says_true(s),
                    None => false,
                },
            )
            &&& segments matches Some(s) && host matches Some(h) && s@.len() == 3
                && read.receiver_address@ == s@[2]@ + seq!['@'] + h@
        }),
{
    reveal_strlit("@");
    assert("@"@ =~= seq!['@']);
    assert(web::pair_texts(pairs@) =~= Seq::new(
        pairs@.len(),
        |i: int| (pairs@[i].0@, pairs@[i].1@),
    ));
    let views = text::texts(segments->0@);
    assert(views.len() == segments->0@.len());
    assert(views[2] == segments->0@[2]@);
}

/// A request is read from its parts exactly if each parameter is there, the time is a number,
/// the path is `.well-known/lnurlp/` and a user, the version has major number 0 or 1, and there
/// is a host. The first of these that fails is reported.
pub proof fn request_is_read_exactly_if(
    pairs: &[(String, String)],
    segments: &Option<Vec<String>>,
    host: &Option<String>,
    res: Result<LnurlpRequest, Error>,
)
    requires
        call_ensures(parse_lnurlp_request_parts, (pairs, segments, host), res),
    ensures
        ({
            let given = Seq::new(pairs@.len(), |i: int| (pairs@[i].0@, pairs@[i].1@));
            let path_fits = segments matches Some(s) && s@.len() == 3 && s@[0]@ == ".well-known"@
                && s@[1]@ == "lnurlp"@;
            let spoken = {
                &&& request::first_value(given, "umaVersion"@) matches Some(v)
                &&& text::cut_at_only(v, '.') matches Some((major, minor))
                &&& text::parsed_i64(minor) is Some
                &&& text::parsed_i64(major) == Some(0i64) || text::parsed_i64(major) == Some(1i64)
            };
            if request::first_value(given, "signature"@) is None {
                res matches Err(Error::MissingUrlParam(p)) && p@ == "signature"@
            } else if request::first_value(given, "vaspDomain"@) is None {
                res matches Err(Error::MissingUrlParam(p)) && p@ == "vsapDomain"@
            } else if request::first_value(given, "nonce"@) is None {
                res matches Err(Error::MissingUrlParam(p)) && p@ == "nonce"@
            } else if request::first_value(given, "timestamp"@) is None || text::parsed_i64(
                request::first_value(given, "timestamp"@)->0,
            ) is None {
                res matches Err(Error::MissingUrlParam(p)) && p@ == "timestamp"@
            } else if request::first_value(given, "umaVersion"@) is None {
                res matches Err(Error::MissingUrlParam(p)) && p@ == "umaVersion"@
            } else if !path_fits {
                res matches Err(e) && e is InvalidUrlPath
            } else if !spoken {
                res matches Err(e) && e is UnsupportedVersion
            } else if host is None {
                res matches Err(e) && e is InvalidHost
            } else {
                res is Ok
            }
        }),
{
    assert(web::pair_texts(pairs@) =~= Seq::new(
        pairs@.len(),
        |i: int| (pairs@[i].0@, pairs@[i].1@),
    ));
    if let Some(s) = segments {
        let views = text::texts(s@);
        assert(views.len() == s@.len());
        if s@.len() == 3 {
            assert(views[0] == s@[0]@ && views[1] == s@[1]@);
        }
    }
}

/// A URL is read as its own parameters, segments and host are.
pub proof fn url_is_read_by_its_parts(
    url: &url::Url,
    pairs: &[(String, String)],
    segments: &Option<Vec<String>>,
    host: &Option<String>,
    of_url: Result<LnurlpRequest, Error>,
    of_parts: Result<LnurlpRequest, Error>,
)
    requires
        call_ensures(parse_lnurlp_request, (url,), of_url),
        call_ensures(parse_lnurlp_request_parts, (pairs, segments, host), of_parts),
        web::url_query_pairs(*url) == Seq::new(
            pairs@.len(),
            |i: int| (pairs@[i].0@, pairs@[i].1@),
        ),
        match *segments {
            Some(s) => web::url_path_segments(*url) == Some(Seq::new(s@.len(), |i: int| s@[i]@)),
            None => web::url_path_segments(*url) is None,
        },
        match *host {
            Some(h) => web::url_host(*url) == Some(h@),
            None => web::url_host(*url) is None,
        },
    ensures
        match (of_url, of_parts) {
            (Ok(a), Ok(b)) => {
                &&& a.receiver_address@ == b.receiver_address@
                &&& a.nonce->0@ == b.nonce->0@
                &&& a.signature->0@ == b.signature->0@
                &&& a.vasp_domain->0@ == b.vasp_domain->0@
                &&& a.uma_version->0@ == b.uma_version->0@
                &&& a.timestamp == b.timestamp
                &&& a.is_subject_to_travel_rule == b.is_subject_to_travel_rule
            },
            (Err(a), Err(b)) => a@ == b@,
            _ => false,
        },
{
    assert(web::pair_texts(pairs@) =~= web::url_query_pairs(*url));
    if let Some(s) = *segments {
        assert(text::texts(s@) =~= Seq::new(s@.len(), |i: int| s@[i]@));
    }
    if let (Ok(a), Ok(b)) = (of_url, of_parts) {
        assert(a@ == b@);
        assert(a@.nonce == b@.nonce && a@.signature == b@.signature);
        assert(a@.vasp_domain == b@.vasp_domain && a@.uma_version == b@.uma_version);
        request::parsed_request_is_complete(
            web::url_query_pairs(*url),
            web::url_path_segments(*url),
            web::url_host(*url),
        );
    }
}

/// A URL is a request exactly if it is read as one.
pub proof fn url_is_a_request_exactly_if_read(
    url: &url::Url,
    is_request: bool,
    read: Result<LnurlpRequest, Error>,
)
    requires
        call_ensures(is_uma_lnurl_query, (url,), is_request),
        call_ensures(parse_lnurlp_request, (url,), read),
    ensures
        is_request == (read is Ok),
{
}

/// The parameters of a request hold each field that it has under the field's name, and no
/// others.
pub proof fn parameters_hold_the_fields(sent: &LnurlpRequest)
    ensures
        ({
            let pairs = sent@.query();
            &&& match sent.signature {
                Some(s) => pairs.contains(("signature"@, s@)),
                None => true,
            }
            &&& match sent.vasp_domain {
                Some(s) => pairs.contains(("vaspDomain"@, s@)),
                None => true,
            }
            &&& match sent.nonce {
                Some(s) => pairs.contains(("nonce"@, s@)),
                None => true,
            }
            &&& match sent.is_subject_to_travel_rule {
                Some(true) => pairs.contains(("isSubjectToTravelRule"@, "true"@)),
                Some(false) => pairs.contains(("isSubjectToTravelRule"@, "false"@)),
                None => true,
            }
            &&& match sent.timestamp {
                Some(t) => pairs.contains(("timestamp"@, text::decimal_int(t as int))),
                None => true,
            }
            &&& match sent.uma_version {
                Some(s) => pairs.contains(("umaVersion"@, s@)),
                None => true,
            }
            &&& pairs.len() == count(sent.signature is Some) + count(sent.vasp_domain is Some)
                + count(sent.nonce is Some) + count(sent.is_subject_to_travel_rule is Some) + count(
                sent.timestamp is Some,
            ) + count(sent.uma_version is Some)
        }),
{
    let p0 = Seq::<(Seq<char>, Seq<char>)>::empty();
    let p1 = lnurl_request::with_pair(p0, "signature"@, sent@.signature);
    let p2 = lnurl_request::with_pair(p1, "vaspDomain"@, sent@.vasp_domain);
    let p3 = lnurl_request::with_pair(p2, "nonce"@, sent@.nonce);
    let p4 = lnurl_request::with_pair(
        p3,
        "isSubjectToTravelRule"@,
        lnurl_request::opt_flag_text(sent@.is_subject_to_travel_rule),
    );
    let p5 = lnurl_request::with_pair(
        p4,
        "timestamp"@,
        lnurl_request::opt_time_text(sent@.timestamp),
    );
    let p6 = lnurl_request::with_pair(p5, "umaVersion"@, sent@.uma_version);
    assert(sent@.query() == p6);
    lemma_with_pair_keeps(p0, "signature"@, sent@.signature);
    lemma_with_pair_keeps(p1, "vaspDomain"@, sent@.vasp_domain);
    lemma_with_pair_keeps(p2, "nonce"@, sent@.nonce);
    lemma_with_pair_keeps(
        p3,
        "isSubjectToTravelRule"@,
        lnurl_request::opt_flag_text(sent@.is_subject_to_travel_rule),
    );
    lemma_with_pair_keeps(p4, "timestamp"@, lnurl_request::opt_time_text(sent@.timestamp));
    lemma_with_pair_keeps(p5, "umaVersion"@, sent@.uma_version);
}

/// One for something that is there.
pub open spec fn count(there: bool) -> int {
    if there {
        1
    } else {
        0
    }
}

proof fn lemma_with_pair_keeps(
    pairs: Seq<(Seq<char>, Seq<char>)>,
    name: Seq<char>,
    value: Option<Seq<char>>,
)
    ensures
        forall|p: (Seq<char>, Seq<char>)| #[trigger]
            pairs.contains(p) ==> lnurl_request::with_pair(pairs, name, value).contains(p),
        value matches Some(v) ==> lnurl_request::with_pair(pairs, name, value).contains((name, v)),
        lnurl_request::with_pair(pairs, name, value).len() == pairs.len() + count(value is Some),
{
    if let Some(v) = value {
        let more = pairs.push((name, v));
        assert(more[pairs.len() as int] == (name, v));
        assert forall|p: (Seq<char>, Seq<char>)| #[trigger] pairs.contains(p) implies more.contains(
            p,
        ) by {
            let i = choose|i: int| 0 <= i < pairs.len() && pairs[i] == p;
            assert(more[i] == p);
        }
    }
}

/// A request is sent to the domain of its address, under `/.well-known/lnurlp/` and the user,
/// with its parameters. An address that is not `user@domain` is refused, and so is one of which
/// no URL can be made.
pub proof fn request_is_sent_to_its_domain(sent: &LnurlpRequest, res: Result<
    url::Url,
    protocol::Error,
>)
    requires
        call_ensures(LnurlpRequest::encode_to_url, (sent,), res),
    ensures
        match text::cut_at_only(sent.receiver_address@, '@') {
            None => res matches Err(e) && e is InvalidReceiverAddress,
            Some((user, domain)) => match web::url_of(
                (if "localhost:"@.is_prefix_of(domain) {
                    "http"@
                } else {
                    "https"@
                }) + "://"@ + domain + "/.well-known/lnurlp/"@ + user + "?"@ + web::form_encoded(
                    sent@.query(),
                ),
            ) {
                Ok(u) => res matches Ok(url) && url == u,
                Err(_) => res matches Err(e) && e is InvalidUrl,
            },
        },
{
}

/// The URL of a signed request is made exactly if the private key is one, the address is
/// `user@domain`, and a URL can be made of them. It holds the domain, the user, and as
/// parameters the signature over the address, the nonce and the time, and then what was given.
pub proof fn signed_url_holds_what_was_given(
    private_key: &[u8],
    receiver_address: &str,
    sender_vasp_domain: &str,
    is_subject_to_travel_rule: bool,
    uma_version: &str,
    nonce: &str,
    timestamp: i64,
    res: Result<url::Url, Error>,
)
    requires
        call_ensures(
            signed_lnurlp_request_url,
            (
                private_key,
                receiver_address,
                sender_vasp_domain,
                is_subject_to_travel_rule,
                uma_version,
                nonce,
                timestamp,
            ),
            res,
        ),
    ensures
        ({
            let signed = hexadecimal::hex_text(
                signature::ecdsa_der(
                    signature::sha256_digest(
                        vstd::utf8::encode_utf8(
                            receiver_address@ + seq!['|'] + nonce@ + seq!['|'] + text::decimal_int(
                                timestamp as int,
                            ),
                        ),
                    ),
                    private_key@,
                ),
            );
            let parameters = seq![
                ("signature"@, signed),
                ("vaspDomain"@, sender_vasp_domain@),
                ("nonce"@, nonce@),
                (
                    "isSubjectToTravelRule"@,
                    if is_subject_to_travel_rule {
                        "true"@
                    } else {
                        "false"@
                    },
                ),
                ("timestamp"@, text::decimal_int(timestamp as int)),
                ("umaVersion"@, uma_version@),
            ];
            if !signature::is_secret_key(private_key@) {
                res matches Err(e) && e == Error::Secp256k1Error(
                    signature::secret_key_error(private_key@),
                )
            } else {
                match text::cut_at_only(receiver_address@, '@') {
                    None => res matches Err(e) && e == Error::ProtocolError(
                        protocol::Error::InvalidReceiverAddress,
                    ),
                    Some((user, domain)) => match web::url_of(
                        (if "localhost:"@.is_prefix_of(domain) {
                            "http"@
                        } else {
                            "https"@
                        }) + "://"@ + domain + "/.well-known/lnurlp/"@ + user + "?"@
                            + web::form_encoded(parameters),
                    ) {
                        Ok(u) => res matches Ok(url) && url == u,
                        Err(_) => res matches Err(e) && e == Error::ProtocolError(
                            protocol::Error::InvalidUrl,
                        ),
                    },
                }
            }
        }),
{
    if signature::is_secret_key(private_key@) {
        lemma_signed_query(
            request::unsigned_request(
                receiver_address@,
                sender_vasp_domain@,
                is_subject_to_travel_rule,
                uma_version@,
                nonce@,
                timestamp,
            ),
            private_key@,
        );
    }
}

proof fn lemma_signed_query(unsigned: lnurl_request::LnurlpRequestView, private_key: Seq<u8>)
    requires
        signature::is_secret_key(private_key),
        unsigned.nonce is Some,
        unsigned.timestamp is Some,
        unsigned.vasp_domain is Some,
        unsigned.uma_version is Some,
        unsigned.is_subject_to_travel_rule is Some,
    ensures
        request::signed_request(unsigned, private_key) matches Ok(signed) && signed.query()
            == seq![
            ("signature"@, signed.signature->0),
            ("vaspDomain"@, unsigned.vasp_domain->0),
            ("nonce"@, unsigned.nonce->0),
            (
                "isSubjectToTravelRule"@,
                if unsigned.is_subject_to_travel_rule->0 {
                    "true"@
                } else {
                    "false"@
                },
            ),
            ("timestamp"@, text::decimal_int(unsigned.timestamp->0 as int)),
            ("umaVersion"@, unsigned.uma_version->0),
        ],
{
    let signed = request::signed_request(unsigned, private_key)->Ok_0;
    assert(signed.query() =~= seq![
        ("signature"@, signed.signature->0),
        ("vaspDomain"@, unsigned.vasp_domain->0),
        ("nonce"@, unsigned.nonce->0),
        (
            "isSubjectToTravelRule"@,
            if unsigned.is_subject_to_travel_rule->0 {
                "true"@
            } else {
                "false"@
            },
        ),
        ("timestamp"@, text::decimal_int(unsigned.timestamp->0 as int)),
        ("umaVersion"@, unsigned.uma_version->0),
    ]);
}

/// The URL of a signed request of now is one with a nonce that was drawn and a time that was
/// read from the clock, in the version that was asked for, or else in the latest.
pub proof fn signed_url_of_now_holds_what_was_given(
    private_key: &[u8],
    receiver_address: &str,
    sender_vasp_domain: &str,
    is_subject_to_travel_rule: bool,
    uma_version_override: Option<&str>,
    u: url::Url,
)
    requires
        call_ensures(
            get_signed_lnurlp_request_url,
            (
                private_key,
                receiver_address,
                sender_vasp_domain,
                is_subject_to_travel_rule,
                uma_version_override,
            ),
            Ok(u),
        ),
    ensures
        ({
            let told = match uma_version_override {
                Some(asked) => asked@,
                None => "1.0"@,
            };
            let flag = if is_subject_to_travel_rule {
                "true"@
            } else {
                "false"@
            };
            &&& signature::is_secret_key(private_key@)
            &&& text::cut_at_only(receiver_address@, '@') matches Some((user, domain))
            &&& exists|n: u64, timestamp: i64| #[trigger]
                ambient::is_drawn(n) && #[trigger] ambient::is_clock_reading(timestamp)
                    && web::url_of(
                    (if "localhost:"@.is_prefix_of(domain) {
                        "http"@
                    } else {
                        "https"@
                    }) + "://"@ + domain + "/.well-known/lnurlp/"@ + user + "?"@
                        + web::form_encoded(
                        seq![
                            (
                                "signature"@,
                                hexadecimal::hex_text(
                                    signature::ecdsa_der(
                                        signature::sha256_digest(
                                            vstd::utf8::encode_utf8(
                                                receiver_address@ + seq!['|'] + text::decimal(
                                                    n as nat,
                                                ) + seq!['|'] + text::decimal_int(timestamp as int),
                                            ),
                                        ),
                                        private_key@,
                                    ),
                                ),
                            ),
                            ("vaspDomain"@, sender_vasp_domain@),
                            ("nonce"@, text::decimal(n as nat)),
                            ("isSubjectToTravelRule"@, flag),
                            ("timestamp"@, text::decimal_int(timestamp as int)),
                            ("umaVersion"@, told),
                        ],
                    ),
                ) == Ok::<url::Url, url::ParseError>(u)
        }),
{
    let asked = request::chosen_version(text::opt_str(uma_version_override));
    let (nonce, timestamp) = choose|nonce: Seq<char>, timestamp: i64|
        nonce::is_nonce(nonce) && nonce.len() <= 20 && ambient::is_clock_reading(timestamp) && {
            let unsigned = #[trigger] request::unsigned_request(
                receiver_address@,
                sender_vasp_domain@,
                is_subject_to_travel_rule,
                asked,
                nonce,
                timestamp,
            );
            &&& error::plain_outcome(Ok(u)) == request::signed_request_url(unsigned, private_key@)
            &&& request::reaches_receiver(Ok(u), unsigned, private_key@)
            &&& request::signature_verifies(unsigned, private_key@)
        };
    let unsigned = request::unsigned_request(
        receiver_address@,
        sender_vasp_domain@,
        is_subject_to_travel_rule,
        asked,
        nonce,
        timestamp,
    );
    let n = choose|n: u64| #[trigger]
        ambient::is_drawn(n) && nonce == text::decimal(n as nat);
    assert(ambient::is_drawn(n) && ambient::is_clock_reading(timestamp));
    assert(signature::is_secret_key(private_key@));
    lemma_signed_query(unsigned, private_key@);
    let signed = request::signed_request(unsigned, private_key@)->Ok_0;
    let told = match uma_version_override {
        Some(asked) => asked@,
        None => "1.0"@,
    };
    assert(told == asked);
    let parameters = seq![
        ("signature"@, signed.signature->0),
        ("vaspDomain"@, sender_vasp_domain@),
        ("nonce"@, text::decimal(n as nat)),
        (
            "isSubjectToTravelRule"@,
            if is_subject_to_travel_rule {
                "true"@
            } else {
                "false"@
            },
        ),
        ("timestamp"@, text::decimal_int(timestamp as int)),
        ("umaVersion"@, told),
    ];
    assert(signed.query() == parameters);
    assert(signed.signature->0 == hexadecimal::hex_text(
        signature::ecdsa_der(
            signature::sha256_digest(
                vstd::utf8::encode_utf8(
                    receiver_address@ + seq!['|'] + text::decimal(n as nat) + seq!['|']
                        + text::decimal_int(timestamp as int),
                ),
            ),
            private_key@,
        ),
    ));
    let (user, domain) = text::cut_at_only(receiver_address@, '@')->0;
    assert(text::cut_at_only(receiver_address@, '@') == Some((user, domain)));
    assert(web::url_of(
        (if "localhost:"@.is_prefix_of(domain) {
            "http"@
        } else {
            "https"@
        }) + "://"@ + domain + "/.well-known/lnurlp/"@ + user + "?"@ + web::form_encoded(
            parameters,
        ),
    ) == Ok::<url::Url, url::ParseError>(u));
}

/// A signed request that reaches its receiver is read there as it was sent, and its signature is
/// accepted under the sender's own public key: where the user of the address is a plain segment,
/// the URL kept the domain as its host, and the version has major number 0 or 1.
pub proof fn sent_request_is_read_and_accepted(
    private_key: &[u8],
    receiver_address: &str,
    sender_vasp_domain: &str,
    is_subject_to_travel_rule: bool,
    uma_version: &str,
    nonce: &str,
    timestamp: i64,
    u: url::Url,
    user: Seq<char>,
    domain: Seq<char>,
    res: Result<LnurlpRequest, Error>,
    uma: Option<UmaLnurlpRequest>,
    public_key: &[u8],
    accepted: Result<(), Error>,
)
    requires
        call_ensures(
            signed_lnurlp_request_url,
            (
                private_key,
                receiver_address,
                sender_vasp_domain,
                is_subject_to_travel_rule,
                uma_version,
                nonce,
                timestamp,
            ),
            Ok(u),
        ),
        !user.contains('@'),
        !domain.contains('@'),
        receiver_address@ == user + seq!['@'] + domain,
        web::is_plain_segment(user),
        web::url_host(u) == Some(domain),
        version::supported(uma_version@),
        call_ensures(parse_lnurlp_request, (&u,), res),
        res matches Ok(read) ==> call_ensures(LnurlpRequest::as_uma_request, (&read,), uma),
        signature::public_key_of_bytes(public_key@) == Ok::<Seq<u8>, CurveError>(
            signature::public_key_of(private_key@),
        ),
        uma matches Some(query) ==> call_ensures(
            verify_uma_lnurlp_query_signature,
            (query, public_key),
            accepted,
        ),
    ensures
        ({
            &&& res matches Ok(read)
            &&& uma matches Some(query)
            &&& accepted is Ok
            &&& read.receiver_address@ == receiver_address@
            &&& query.receiver_address@ == receiver_address@
            &&& query.vasp_domain@ == sender_vasp_domain@
            &&& query.is_subject_to_travel_rule == is_subject_to_travel_rule
            &&& query.uma_version@ == uma_version@
            &&& query.nonce@ == nonce@
            &&& query.timestamp == timestamp
        }),
{
    text::cut_at_first_of_joined(user, '@', domain);
    assert(text::cut_at_only(receiver_address@, '@') == Some((user, domain)));
    let unsigned = request::unsigned_request(
        receiver_address@,
        sender_vasp_domain@,
        is_subject_to_travel_rule,
        uma_version@,
        nonce@,
        timestamp,
    );
    assert(request::is_read_and_verified(u, unsigned, private_key@));
    assert(signature::is_secret_key(private_key@));
    assert(signature::is_key_pair(private_key@, public_key@));
}

} // verus!
