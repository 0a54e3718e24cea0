//! Laws on fetching the public keys of another VASP.
use serde_json::Error as JsonError;
use vstd::prelude::*;

use crate::error::Error;
use crate::protocol::pub_key_response::PubKeyResponse;
use crate::public_key_cache;
use crate::public_key_cache::{InMemoryPublicKeyCache, PublicKeyCache};
use crate::uma::keys;
use crate::uma::keys::{advance_fetch, FetchAction, FetchEvent, FetchState};

verus! {

/// A fetch begins with a look-up, and leaves the cache as it was. What it finds is the result;
/// if it finds nothing, the domain is asked, with `http` for a port of the local host and with
/// `https` otherwise.
pub proof fn fetch_begins_with_the_cache<T: PublicKeyCache>(
    vasp_domain: Seq<char>,
    before: T,
    after: T,
    next: FetchState,
    action: FetchAction,
)
    requires
        keys::follows(
            FetchState::Start,
            FetchEvent::Begin,
            vasp_domain,
            before,
            after,
            next,
            action,
        ),
    ensures
        after == before,
        action is Done ==> (action matches FetchAction::Done(Ok(found)) && before.may_find(
            vasp_domain,
            public_key_cache::opt_keys(Some(&found)),
        )),
        !(action is Done) ==> before.may_find(vasp_domain, None) && next is AwaitingStatus && (
        action matches FetchAction::Get(url) && url@ == (
        if "localhost:"@.is_prefix_of(vasp_domain) {
            "http"@
        } else {
            "https"@
        }) + "://"@ + vasp_domain + "/.well-known/lnurlpubkey"@),
{
}

/// With a cache in memory, a domain is asked exactly if the cache has no keys for it.
pub proof fn domain_is_asked_exactly_if_unknown(
    vasp_domain: Seq<char>,
    before: InMemoryPublicKeyCache,
    after: InMemoryPublicKeyCache,
    next: FetchState,
    action: FetchAction,
)
    requires
        keys::follows(
            FetchState::Start,
            FetchEvent::Begin,
            vasp_domain,
            before,
            after,
            next,
            action,
        ),
    ensures
        action is Get <==> !before@.dom().contains(vasp_domain),
        action is Done <==> before@.dom().contains(vasp_domain),
{
}

/// A reply is read exactly if its status is from 200 to 299. Any other status ends the fetch
/// as an invalid response. The cache stays as it was.
pub proof fn reply_is_read_exactly_on_success<T: PublicKeyCache>(
    status: u16,
    vasp_domain: Seq<char>,
    before: T,
    after: T,
    next: FetchState,
    action: FetchAction,
)
    requires
        keys::follows(
            FetchState::AwaitingStatus,
            FetchEvent::Status(status),
            vasp_domain,
            before,
            after,
            next,
            action,
        ),
    ensures
        after == before,
        action is ReadBody <==> 200 <= status <= 299,
        next is AwaitingBody <==> 200 <= status <= 299,
        !(200 <= status <= 299) ==> next is Finished && (action matches FetchAction::Done(Err(e))
            && e is InvalidResponse),
{
}

/// Keys that were decoded are the result, each field as it was decoded, and they are added to
/// the cache.
pub proof fn decoded_keys_are_the_result<T: PublicKeyCache>(
    decoded: PubKeyResponse,
    vasp_domain: Seq<char>,
    before: T,
    after: T,
    next: FetchState,
    action: FetchAction,
)
    requires
        keys::follows(
            FetchState::AwaitingBody,
            FetchEvent::Body(Ok(decoded)),
            vasp_domain,
            before,
            after,
            next,
            action,
        ),
    ensures
        next is Finished,
        action matches FetchAction::Done(Ok(result)) && {
            &&& result.signing_pub_key@ == decoded.signing_pub_key@
            &&& result.encryption_pub_key@ == decoded.encryption_pub_key@
            &&& result.expiration_timestamp == decoded.expiration_timestamp
        },
        before.may_become(vasp_domain, decoded@, &after),
{
}

/// A body that could not be decoded ends the fetch with the error of the decoder, and leaves
/// the cache as it was.
pub proof fn undecodable_body_is_reported<T: PublicKeyCache>(
    failure: JsonError,
    vasp_domain: Seq<char>,
    before: T,
    after: T,
    next: FetchState,
    action: FetchAction,
)
    requires
        keys::follows(
            FetchState::AwaitingBody,
            FetchEvent::Body(Err(failure)),
            vasp_domain,
            before,
            after,
            next,
            action,
        ),
    ensures
        next is Finished,
        after == before,
        action matches FetchAction::Done(Err(e)) && e == Error::InvalidData(failure),
{
}

/// A failure, at any time, ends the fetch as an invalid response and leaves the cache as it was.
pub proof fn failure_is_an_invalid_response<T: PublicKeyCache>(
    state: FetchState,
    vasp_domain: Seq<char>,
    before: T,
    after: T,
    next: FetchState,
    action: FetchAction,
)
    requires
        keys::follows(state, FetchEvent::Failed, vasp_domain, before, after, next, action),
    ensures
        next is Finished,
        after == before,
        action matches FetchAction::Done(Err(e)) && e is InvalidResponse,
{
}

/// The cache changes only when keys were decoded from a reply that was read.
pub proof fn cache_changes_only_with_decoded_keys<T: PublicKeyCache>(
    state: FetchState,
    event: FetchEvent,
    vasp_domain: Seq<char>,
    before: T,
    after: T,
    next: FetchState,
    action: FetchAction,
)
    requires
        keys::follows(state, event, vasp_domain, before, after, next, action),
    ensures
        after == before || (event matches FetchEvent::Body(Ok(decoded)) && state is AwaitingBody
            && before.may_become(vasp_domain, decoded@, &after)),
{
}

/// A fetch ends with keys only if they were in the cache or were decoded from a reply.
pub proof fn keys_come_from_cache_or_reply<T: PublicKeyCache>(
    state: FetchState,
    event: FetchEvent,
    vasp_domain: Seq<char>,
    before: T,
    after: T,
    next: FetchState,
    result: PubKeyResponse,
)
    requires
        keys::follows(
            state,
            event,
            vasp_domain,
            before,
            after,
            next,
            FetchAction::Done(Ok(result)),
        ),
    ensures
        ({
            ||| state is Start && event is Begin && before.may_find(
                vasp_domain,
                public_key_cache::opt_keys(Some(&result)),
            )
            ||| state is AwaitingBody && (event matches FetchEvent::Body(Ok(decoded)) && {
                &&& result.signing_pub_key@ == decoded.signing_pub_key@
                &&& result.encryption_pub_key@ == decoded.encryption_pub_key@
                &&& result.expiration_timestamp == decoded.expiration_timestamp
            })
        }),
{
}

/// With a cache in memory, the next fetch for the domain gives the same keys as the one that
/// decoded them, field by field, and asks nobody.
pub proof fn next_fetch_gives_the_same_keys(
    decoded: PubKeyResponse,
    vasp_domain: Seq<char>,
    before: InMemoryPublicKeyCache,
    between: InMemoryPublicKeyCache,
    next: FetchState,
    first: FetchAction,
    after: InMemoryPublicKeyCache,
    again: FetchState,
    second: FetchAction,
)
    requires
        keys::follows(
            FetchState::AwaitingBody,
            FetchEvent::Body(Ok(decoded)),
            vasp_domain,
            before,
            between,
            next,
            first,
        ),
        keys::follows(
            FetchState::Start,
            FetchEvent::Begin,
            vasp_domain,
            between,
            after,
            again,
            second,
        ),
    ensures
        ({
            &&& first matches FetchAction::Done(Ok(a))
            &&& second matches FetchAction::Done(Ok(b))
            &&& a.signing_pub_key@ == decoded.signing_pub_key@
            &&& b.signing_pub_key@ == decoded.signing_pub_key@
            &&& a.encryption_pub_key@ == decoded.encryption_pub_key@
            &&& b.encryption_pub_key@ == decoded.encryption_pub_key@
            &&& a.expiration_timestamp == decoded.expiration_timestamp
            &&& b.expiration_timestamp == decoded.expiration_timestamp
        }),
{
}

/// A new cache in memory finds nothing.
pub proof fn new_cache_is_empty(
    cache: InMemoryPublicKeyCache,
    vasp_domain: &str,
    found: Option<&PubKeyResponse>,
)
    requires
        call_ensures(InMemoryPublicKeyCache::new, (), cache),
        call_ensures(
            InMemoryPublicKeyCache::fetch_public_key_for_vasp,
            (&cache, vasp_domain),
            found,
        ),
    ensures
        found is None,
{
}

/// A cache in memory finds the keys that were added last for a domain, field by field, and for
/// another domain what it found before.
pub proof fn added_keys_are_found(
    before: InMemoryPublicKeyCache,
    after: InMemoryPublicKeyCache,
    vasp_domain: Seq<char>,
    added: PubKeyResponse,
    looked_up: &str,
    found: Option<&PubKeyResponse>,
    found_before: Option<&PubKeyResponse>,
)
    requires
        before.may_become(vasp_domain, added@, &after),
        call_ensures(
            InMemoryPublicKeyCache::fetch_public_key_for_vasp,
            (&after, looked_up),
            found,
        ),
        call_ensures(
            InMemoryPublicKeyCache::fetch_public_key_for_vasp,
            (&before, looked_up),
            found_before,
        ),
    ensures
        looked_up@ == vasp_domain ==> (found matches Some(k) && {
            &&& k.signing_pub_key@ == added.signing_pub_key@
            &&& k.encryption_pub_key@ == added.encryption_pub_key@
            &&& k.expiration_timestamp == added.expiration_timestamp
        }),
        looked_up@ != vasp_domain ==> match (found, found_before) {
            (Some(k), Some(l)) => {
                &&& k.signing_pub_key@ == l.signing_pub_key@
                &&& k.encryption_pub_key@ == l.encryption_pub_key@
                &&& k.expiration_timestamp == l.expiration_timestamp
            },
            (None, None) => true,
            _ => false,
        },
{
}

/// A copy of keys has each field of them.
pub proof fn copied_keys_are_the_same(given: &PubKeyResponse, copy: PubKeyResponse)
    requires
        call_ensures(PubKeyResponse::clone, (given,), copy),
    ensures
        copy.signing_pub_key@ == given.signing_pub_key@,
        copy.encryption_pub_key@ == given.encryption_pub_key@,
        copy.expiration_timestamp == given.expiration_timestamp,
{
}

/// The actions come in their order: the domain is asked only at the beginning, a reply is read
/// only after a status of success, and all else ends the fetch.
pub proof fn actions_come_in_order<T: PublicKeyCache>(
    state: FetchState,
    event: FetchEvent,
    vasp_domain: Seq<char>,
    before: T,
    after: T,
    next: FetchState,
    action: FetchAction,
)
    requires
        keys::follows(state, event, vasp_domain, before, after, next, action),
    ensures
        action is Get ==> state is Start && event is Begin && next is AwaitingStatus,
        action is ReadBody ==> state is AwaitingStatus && next is AwaitingBody && (
        event matches FetchEvent::Status(status) && 200 <= status <= 299),
        action is Done <==> next is Finished,
{
}

/// A fetch that ends in an error ends in the decoder's error, if the body of a reply could not
/// be decoded, and as an invalid response otherwise.
pub proof fn errors_are_of_the_decoder_or_invalid_responses<T: PublicKeyCache>(
    state: FetchState,
    event: FetchEvent,
    vasp_domain: Seq<char>,
    before: T,
    after: T,
    next: FetchState,
    error: Error,
)
    requires
        keys::follows(
            state,
            event,
            vasp_domain,
            before,
            after,
            next,
            FetchAction::Done(Err(error)),
        ),
    ensures
        match event {
            FetchEvent::Body(Err(failure)) => if state is AwaitingBody {
                error == Error::InvalidData(failure)
            } else {
                error is InvalidResponse
            },
            _ => error is InvalidResponse,
        },
{
}

/// A step gives what its state and its event call for. A look-up that finds keys gives them, and
/// one that finds none asks the domain. A status of success has the reply read. Keys that were
/// decoded are added to the cache and given, field by field. All else ends in an error and
/// leaves the cache as it was.
pub proof fn step_gives_what_is_called_for<T: PublicKeyCache>(
    state: FetchState,
    event: FetchEvent,
    vasp_domain: &str,
    cache: &mut T,
    next: FetchState,
    action: FetchAction,
)
    requires
        call_ensures(
            advance_fetch::<T>,
            (state, event, vasp_domain, old(cache)),
            (next, action),
        ),
    ensures
        match (state, event) {
            (FetchState::Start, FetchEvent::Begin) => *final(cache) == *old(cache) && match action {
                FetchAction::Done(res) => res matches Ok(found) && old(cache).may_find(
                    vasp_domain@,
                    Some(found@),
                ),
                FetchAction::Get(url) => old(cache).may_find(vasp_domain@, None) && url@ == (
                if "localhost:"@.is_prefix_of(vasp_domain@) {
                    "http"@
                } else {
                    "https"@
                }) + "://"@ + vasp_domain@ + "/.well-known/lnurlpubkey"@,
                FetchAction::ReadBody => false,
            },
            (FetchState::AwaitingStatus, FetchEvent::Status(status)) => *final(cache) == *old(cache)
                && if 200 <= status <= 299 {
                action is ReadBody
            } else {
                action matches FetchAction::Done(Err(e)) && e is InvalidResponse
            },
            (FetchState::AwaitingBody, FetchEvent::Body(Ok(decoded))) => {
                &&& action matches FetchAction::Done(Ok(given))
                &&& given.signing_pub_key@ == decoded.signing_pub_key@
                &&& given.encryption_pub_key@ == decoded.encryption_pub_key@
                &&& given.expiration_timestamp == decoded.expiration_timestamp
                &&& old(cache).may_become(vasp_domain@, decoded@, final(cache))
            },
            (FetchState::AwaitingBody, FetchEvent::Body(Err(failure))) => *final(cache) == *old(
                cache,
            ) && (action matches FetchAction::Done(Err(e)) && e == Error::InvalidData(failure)),
            _ => *final(cache) == *old(cache) && (action matches FetchAction::Done(Err(e))
                && e is InvalidResponse),
        },
{
}

/// Keys that were added to a cache in memory are found there, field by field.
pub proof fn cache_gives_back_what_was_added(
    cache: &mut InMemoryPublicKeyCache,
    vasp_domain: &str,
    added: &PubKeyResponse,
    found: Option<&PubKeyResponse>,
)
    requires
        call_ensures(
            InMemoryPublicKeyCache::add_public_key_for_vasp,
            (old(cache), vasp_domain, added),
            (),
        ),
    ensures
        call_ensures(
            InMemoryPublicKeyCache::fetch_public_key_for_vasp,
            (final(cache), vasp_domain),
            found,
        ) ==> (found matches Some(k) && {
            &&& k.signing_pub_key@ == added.signing_pub_key@
            &&& k.encryption_pub_key@ == added.encryption_pub_key@
            &&& k.expiration_timestamp == added.expiration_timestamp
        }),
{
}

} // verus!
