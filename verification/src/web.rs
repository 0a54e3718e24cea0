//! The URLs that requests travel in.
use vstd::prelude::*;

use crate::text;

verus! {

/// A parsed URL.
#[verifier::external_type_specification]
#[verifier::external_body]
pub struct ExUrl(url::Url);

/// The error of a text that is no URL.
#[verifier::external_type_specification]
#[verifier::external_body]
pub struct ExParseError(url::ParseError);

/// The decoded name and value of each query parameter, as `Url::query_pairs` yields them.
pub uninterp spec fn url_query_pairs(u: url::Url) -> Seq<(Seq<char>, Seq<char>)>;

/// The segments of the path, as `Url::path_segments` yields them.
pub uninterp spec fn url_path_segments(u: url::Url) -> Option<Seq<Seq<char>>>;

/// The host, as `Url::host_str` gives it.
pub uninterp spec fn url_host(u: url::Url) -> Option<Seq<char>>;

/// What `Url::parse` makes of a text.
pub uninterp spec fn url_of(text: Seq<char>) -> Result<url::Url, url::ParseError>;

/// What `form_urlencoded::Serializer` writes of some names and values.
pub uninterp spec fn form_encoded(pairs: Seq<(Seq<char>, Seq<char>)>) -> Seq<char>;

/// The view of a list of names and values.
pub open spec fn pair_texts(v: Seq<(String, String)>) -> Seq<(Seq<char>, Seq<char>)> {
    Seq::new(v.len(), |i: int| (v[i].0@, v[i].1@))
}

/// The number of characters in a list of names and values, with two more for each pair.
pub open spec fn pairs_size(pairs: Seq<(Seq<char>, Seq<char>)>) -> nat
    decreases pairs.len(),
{
    if pairs.len() == 0 {
        0
    } else {
        pairs_size(pairs.drop_last()) + pairs.last().0.len() + pairs.last().1.len() + 2
    }
}

/// The text `scheme://host/.well-known/lnurlp/user?parameters`.
pub open spec fn lnurlp_text(
    scheme: Seq<char>,
    host: Seq<char>,
    user: Seq<char>,
    pairs: Seq<(Seq<char>, Seq<char>)>,
) -> Seq<char> {
    scheme + "://"@ + host + "/.well-known/lnurlp/"@ + user + "?"@ + form_encoded(pairs)
}

/// Whether a character stands for itself in the path of a URL.
pub open spec fn is_path_char(c: char) -> bool {
    &&& '!' <= c && c <= '~'
    &&& c != '"' && c != '#' && c != '/' && c != '<' && c != '>' && c != '?'
    &&& c != '\\' && c != '`' && c != '{' && c != '}'
}

/// Whether a text is a single dot, plain or percent-encoded.
pub open spec fn is_dot(s: Seq<char>) -> bool {
    s == "."@ || s == "%2e"@ || s == "%2E"@
}

/// Whether a text stands for itself as a segment of a path: its characters do, and it is
/// neither one nor two dots.
pub open spec fn is_plain_segment(s: Seq<char>) -> bool {
    &&& forall|i: int| 0 <= i < s.len() ==> is_path_char(#[trigger] s[i])
    &&& !is_dot(s)
    &&& forall|a: Seq<char>, b: Seq<char>| is_dot(a) && is_dot(b) ==> s != #[trigger] (a + b)
}

/// Whether a character separates the words of a host name.
pub open spec fn is_host_separator(c: char) -> bool {
    c == '-' || c == '.'
}

/// Whether a text is a host name in lower-case ASCII that is no address: letters and digits,
/// with single hyphens and dots between them, the last label starting with a letter.
pub open spec fn is_plain_host(s: Seq<char>) -> bool {
    &&& s.len() > 0 && !is_host_separator(s[0]) && !is_host_separator(s.last())
    &&& forall|i: int|
        0 <= i < s.len() ==> {
            let c = #[trigger] s[i];
            ('a' <= c && c <= 'z') || ('0' <= c && c <= '9') || is_host_separator(c)
        }
    &&& forall|i: int, j: int|
        0 <= i && j == i + 1 && j < s.len() ==> !(is_host_separator(#[trigger] s[i])
            && is_host_separator(#[trigger] s[j]))
    &&& exists|k: int|
        0 <= k < s.len() && 'a' <= #[trigger] s[k] && s[k] <= 'z' && (k == 0 || s[k - 1] == '.')
            && !s.skip(k).contains('.')
}

/// Whether a URL has the path, the host and the parameters that it was made with.
pub open spec fn keeps(
    u: url::Url,
    host: Seq<char>,
    user: Seq<char>,
    pairs: Seq<(Seq<char>, Seq<char>)>,
) -> bool {
    &&& url_path_segments(u) == Some(seq![".well-known"@, "lnurlp"@, user])
    &&& url_host(u) == Some(host)
    &&& url_query_pairs(u) == pairs
}

/// Whether a text is the name of a scheme of the web.
pub open spec fn is_web_scheme(s: Seq<char>) -> bool {
    s == "http"@ || s == "https"@
}

/// What a URL made of a text `scheme://host/.well-known/lnurlp/user?parameters` shows of its
/// parts, if the user is a plain segment. One whose host came out unchanged has the segments
/// and the parameters that were written. A plain host name is accepted and comes out
/// unchanged, if the text is no longer than 32-bit offsets reach.
pub open spec fn keeps_lnurlp_parts(
    res: Result<url::Url, url::ParseError>,
    text: Seq<char>,
) -> bool {
    forall|scheme: Seq<char>, host: Seq<char>, user: Seq<char>, pairs: Seq<(Seq<char>, Seq<char>)>|
        #![trigger lnurlp_text(scheme, host, user, pairs)]
        text == lnurlp_text(scheme, host, user, pairs) && is_web_scheme(scheme) && is_plain_segment(
            user,
        ) ==> {
            &&& res matches Ok(u) ==> url_host(u) == Some(host) ==> keeps(u, host, user, pairs)
            &&& is_plain_host(host) && text.len() <= u32::MAX ==> (res matches Ok(u) && url_host(u)
                == Some(host))
        }
}

/// Calls `Url::parse`. The result depends on the text alone.
///
/// Of a text `scheme://host/.well-known/lnurlp/user?parameters` with a plain user segment and
/// form-encoded parameters it claims that a plain host name is accepted and kept, unless the
/// text is too long, and that a URL that kept its host also has the segments that were written
/// and yields the parameters that were encoded.
#[verifier::external_body]
pub(crate) fn parse(text: &str) -> (res: Result<url::Url, url::ParseError>)
    ensures
        res == url_of(text@),
        keeps_lnurlp_parts(res, text@),
{
    url::Url::parse(text)
}

/// Encodes names and values with `form_urlencoded::Serializer`. What it writes depends on
/// them alone. It writes at most three characters for each byte, and two separators for each
/// pair.
#[verifier::external_body]
pub(crate) fn form_encode(pairs: &[(String, String)]) -> (res: String)
    ensures
        res@ == form_encoded(pair_texts(pairs@)),
        res@.len() <= 12 * pairs_size(pair_texts(pairs@)),
{
    url::form_urlencoded::Serializer::new(String::new()).extend_pairs(pairs).finish()
}

/// Calls `Url::query_pairs` and takes the decoded names and values it yields, in order.
#[verifier::external_body]
pub(crate) fn query_pairs(u: &url::Url) -> (res: Vec<(String, String)>)
    ensures
        pair_texts(res@) == url_query_pairs(*u),
{
    u.query_pairs().into_owned().collect()
}

/// Calls `Url::path_segments` and takes the segments it yields, in order.
#[verifier::external_body]
pub(crate) fn path_segments(u: &url::Url) -> (res: Option<Vec<String>>)
    ensures
        match res {
            Some(v) => url_path_segments(*u) == Some(text::texts(v@)),
            None => url_path_segments(*u) is None,
        },
{
    u.path_segments().map(|segments| segments.map(String::from).collect())
}

/// Calls `Url::host_str`.
#[verifier::external_body]
pub(crate) fn host_str(u: &url::Url) -> (res: Option<String>)
    ensures
        text::opt_text(res) == url_host(*u),
{
    u.host_str().map(String::from)
}

} // verus!
