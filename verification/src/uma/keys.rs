//! Fetching the public keys of another VASP.
use serde_json::Error as JsonError;
use vstd::prelude::*;
use vstd::string::*;

use crate::error::{Error, ErrorView};
use crate::protocol::lnurl_request;
use crate::protocol::pub_key_response::PubKeyResponse;
use crate::public_key_cache::{InMemoryPublicKeyCache, PublicKeyCache};

verus! {

/// How far fetching the keys of a VASP has come.
#[derive(Debug, Clone, Copy, PartialEq, Eq, Structural)]
pub enum FetchState {
    /// Nothing has been done.
    Start,
    /// The URL has been asked for.
    AwaitingStatus,
    /// The body of a reply is being read.
    AwaitingBody,
    /// The result is there.
    Finished,
}

/// What happens while the keys of a VASP are fetched.
#[derive(Debug)]
pub enum FetchEvent {
    /// The keys are wanted.
    Begin,
    /// The request or the reading of the reply failed.
    Failed,
    /// A reply came, with a status.
    Status(u16),
    /// The body of the reply was read, and decoded or not.
    Body(Result<PubKeyResponse, JsonError>),
}

/// What to do next to fetch the keys of a VASP.
#[derive(Debug)]
pub enum FetchAction {
    /// Ask for a URL.
    Get(String),
    /// Read the body of the reply.
    ReadBody,
    /// Nothing: this is the result.
    Done(Result<PubKeyResponse, Error>),
}

/// The URL under which a domain gives its public keys.
pub open spec fn pub_key_url(vasp_domain: Seq<char>) -> Seq<char> {
    lnurl_request::scheme_of(vasp_domain) + "://"@ + vasp_domain + "/.well-known/lnurlpubkey"@
}

/// Whether a status tells of success.
pub open spec fn is_success(status: u16) -> bool {
    200 <= status < 300
}

/// Whether a result is a certain error.
pub open spec fn done_with(action: FetchAction, e: ErrorView) -> bool {
    action matches FetchAction::Done(Err(error)) && error@ == e
}

/// What follows an event: the next state, the next action and what becomes of the cache.
///
/// Keys that the cache holds are the result, without a request. Otherwise the URL of the
/// domain is asked for. Only a reply with a status of success is read, and keys that are read
/// from it are added to the cache and are the result. Whatever else happens ends in an error,
/// with the cache as it was.
pub open spec fn follows<T: PublicKeyCache>(
    state: FetchState,
    event: FetchEvent,
    vasp_domain: Seq<char>,
    before: T,
    after: T,
    next: FetchState,
    action: FetchAction,
) -> bool {
    match (state, event) {
        (FetchState::Start, FetchEvent::Begin) => after == before && match action {
            FetchAction::Done(Ok(keys)) => next is Finished && before.may_find(
                vasp_domain,
                Some(keys@),
            ),
            FetchAction::Get(url) => next is AwaitingStatus && before.may_find(vasp_domain, None)
                && url@ == pub_key_url(vasp_domain),
            _ => false,
        },
        (FetchState::AwaitingStatus, FetchEvent::Status(status)) => after == before && if is_success(
            status,
        ) {
            next is AwaitingBody && action is ReadBody
        } else {
            next is Finished && done_with(action, ErrorView::InvalidResponse)
        },
        (FetchState::AwaitingBody, FetchEvent::Body(Ok(keys))) => {
            &&& next is Finished
            &&& action matches FetchAction::Done(Ok(result)) && result@ == keys@
            &&& before.may_become(vasp_domain, keys@, &after)
        },
        (FetchState::AwaitingBody, FetchEvent::Body(Err(e))) => after == before && next is Finished
            && done_with(action, ErrorView::InvalidData(e)),
        _ => after == before && next is Finished && done_with(action, ErrorView::InvalidResponse),
    }
}

/// Keys that were fetched with a cache in memory are in it for the next time: beginning again
/// with the same domain gives them at once, without a request.
pub proof fn fetched_keys_are_kept(
    keys: PubKeyResponse,
    vasp_domain: Seq<char>,
    before: InMemoryPublicKeyCache,
    kept: InMemoryPublicKeyCache,
    next: FetchState,
    action: FetchAction,
    after: InMemoryPublicKeyCache,
    again: FetchState,
    answer: FetchAction,
)
    requires
        follows(
            FetchState::AwaitingBody,
            FetchEvent::Body(Ok(keys)),
            vasp_domain,
            before,
            kept,
            next,
            action,
        ),
        follows(
            FetchState::Start,
            FetchEvent::Begin,
            vasp_domain,
            kept,
            after,
            again,
            answer,
        ),
    ensures
        answer matches FetchAction::Done(Ok(result)) && result@ == keys@,
        after == kept,
{
}

/// Fetching the keys of one domain with a cache in memory leaves those of the others alone.
pub proof fn fetching_keeps_other_domains(
    state: FetchState,
    event: FetchEvent,
    vasp_domain: Seq<char>,
    before: InMemoryPublicKeyCache,
    after: InMemoryPublicKeyCache,
    next: FetchState,
    action: FetchAction,
    other: Seq<char>,
)
    requires
        follows(state, event, vasp_domain, before, after, next, action),
        other != vasp_domain,
    ensures
        after@.dom().contains(other) == before@.dom().contains(other),
        before@.dom().contains(other) ==> after@[other] == before@[other],
{
}

/// The URL under which a domain gives its public keys.
fn pub_key_url_for(vasp_domain: &str) -> (res: String)
    ensures
        res@ == pub_key_url(vasp_domain@),
{
    let mut url = lnurl_request::scheme_for(vasp_domain).to_owned();
    url.append("://");
    url.append(vasp_domain);
    url.append("/.well-known/lnurlpubkey");
    url
}

/// Takes fetching the keys of a VASP one step further.
///
/// # Arguments
///
/// * `state` - how far it has come.
/// * `event` - what came of the action before.
/// * `vasp_domain` - the domain of the VASP.
/// * `public_key_cache` - the cache to use.
pub fn advance_fetch<T>(
    state: FetchState,
    event: FetchEvent,
    vasp_domain: &str,
    public_key_cache: &mut T,
) -> (res: (FetchState, FetchAction)) where T: PublicKeyCache
    ensures
        follows(
            state,
            event,
            vasp_domain@,
            *old(public_key_cache),
            *final(public_key_cache),
            res.0,
            res.1,
        ),
{
    match (state, event) {
        (
            FetchState::Start,
            FetchEvent::Begin,
        ) => match public_key_cache.fetch_public_key_for_vasp(vasp_domain) {
            Some(keys) => (FetchState::Finished, FetchAction::Done(Ok(keys.clone()))),
            None => (FetchState::AwaitingStatus, FetchAction::Get(pub_key_url_for(vasp_domain))),
        },
        (FetchState::AwaitingStatus, FetchEvent::Status(status)) => if 200 <= status && status < 300 {
            (FetchState::AwaitingBody, FetchAction::ReadBody)
        } else {
            (FetchState::Finished, FetchAction::Done(Err(Error::InvalidResponse)))
        },
        (FetchState::AwaitingBody, FetchEvent::Body(Ok(keys))) => {
            public_key_cache.add_public_key_for_vasp(vasp_domain, &keys);
            (FetchState::Finished, FetchAction::Done(Ok(keys)))
        },
        (FetchState::AwaitingBody, FetchEvent::Body(Err(e))) => (
            FetchState::Finished,
            FetchAction::Done(Err(Error::InvalidData(e))),
        ),
        _ => (FetchState::Finished, FetchAction::Done(Err(Error::InvalidResponse))),
    }
}

} // verus!
