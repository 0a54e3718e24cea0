use uma::error::Error;
use uma::protocol::pub_key_response::PubKeyResponse;
use uma::public_key_cache::{InMemoryPublicKeyCache, PublicKeyCache};
use uma::uma::keys::{advance_fetch, FetchAction, FetchEvent, FetchState};

fn keys(byte: u8) -> PubKeyResponse {
    PubKeyResponse {
        signing_pub_key: vec![byte; 33],
        encryption_pub_key: vec![byte + 1; 33],
        expiration_timestamp: Some(99),
    }
}

#[test]
fn cache_keeps_the_last_keys_of_each_domain() {
    let mut cache = InMemoryPublicKeyCache::new();
    assert!(cache.fetch_public_key_for_vasp("a.com").is_none());
    cache.add_public_key_for_vasp("a.com", &keys(1));
    cache.add_public_key_for_vasp("b.com", &keys(2));
    cache.add_public_key_for_vasp("a.com", &keys(3));
    let found = cache.fetch_public_key_for_vasp("a.com").unwrap();
    assert_eq!(found.signing_pub_key, vec![3; 33]);
    assert_eq!(found.encryption_pub_key, vec![4; 33]);
    assert_eq!(found.expiration_timestamp, Some(99));
    let found = cache.fetch_public_key_for_vasp("b.com").unwrap();
    assert_eq!(found.signing_pub_key, vec![2; 33]);
    assert!(cache.fetch_public_key_for_vasp("c.com").is_none());
}

#[test]
fn keys_are_fetched_and_kept() {
    let mut cache = InMemoryPublicKeyCache::new();
    let (state, action) =
        advance_fetch(FetchState::Start, FetchEvent::Begin, "vasp.com", &mut cache);
    assert_eq!(state, FetchState::AwaitingStatus);
    match action {
        FetchAction::Get(url) => assert_eq!(url, "https://vasp.com/.well-known/lnurlpubkey"),
        other => panic!("{:?}", other),
    }
    let (state, action) = advance_fetch(state, FetchEvent::Status(200), "vasp.com", &mut cache);
    assert_eq!(state, FetchState::AwaitingBody);
    assert!(matches!(action, FetchAction::ReadBody));
    let body = FetchEvent::Body(Ok(keys(5)));
    let (state, action) = advance_fetch(state, body, "vasp.com", &mut cache);
    assert_eq!(state, FetchState::Finished);
    match action {
        FetchAction::Done(Ok(found)) => assert_eq!(found.signing_pub_key, vec![5; 33]),
        other => panic!("{:?}", other),
    }
    let (state, action) =
        advance_fetch(FetchState::Start, FetchEvent::Begin, "vasp.com", &mut cache);
    assert_eq!(state, FetchState::Finished);
    match action {
        FetchAction::Done(Ok(found)) => assert_eq!(found.signing_pub_key, vec![5; 33]),
        other => panic!("{:?}", other),
    }
}

#[test]
fn local_host_is_asked_for_keys_without_encryption() {
    let mut cache = InMemoryPublicKeyCache::new();
    let (_, action) =
        advance_fetch(FetchState::Start, FetchEvent::Begin, "localhost:8080", &mut cache);
    match action {
        FetchAction::Get(url) => assert_eq!(url, "http://localhost:8080/.well-known/lnurlpubkey"),
        other => panic!("{:?}", other),
    }
}

#[test]
fn failures_end_the_fetch_and_keep_nothing() {
    let mut cache = InMemoryPublicKeyCache::new();
    for (state, event) in [
        (FetchState::AwaitingStatus, FetchEvent::Failed),
        (FetchState::AwaitingStatus, FetchEvent::Status(199)),
        (FetchState::AwaitingStatus, FetchEvent::Status(300)),
        (FetchState::AwaitingStatus, FetchEvent::Status(404)),
        (FetchState::AwaitingBody, FetchEvent::Failed),
        (FetchState::Start, FetchEvent::Status(200)),
    ] {
        let (next, action) = advance_fetch(state, event, "vasp.com", &mut cache);
        assert_eq!(next, FetchState::Finished);
        assert!(matches!(action, FetchAction::Done(Err(Error::InvalidResponse))));
        assert!(cache.fetch_public_key_for_vasp("vasp.com").is_none());
    }
}

#[test]
fn body_that_cannot_be_decoded() {
    let mut cache = InMemoryPublicKeyCache::new();
    let error = serde_json::from_str::<u8>("no number").unwrap_err();
    let (next, action) = advance_fetch(
        FetchState::AwaitingBody,
        FetchEvent::Body(Err(error)),
        "vasp.com",
        &mut cache,
    );
    assert_eq!(next, FetchState::Finished);
    assert!(matches!(action, FetchAction::Done(Err(Error::InvalidData(_)))));
    assert!(cache.fetch_public_key_for_vasp("vasp.com").is_none());
}

struct Forgetful;

impl PublicKeyCache for Forgetful {
    fn fetch_public_key_for_vasp(&self, _vasp_domain: &str) -> Option<&PubKeyResponse> {
        None
    }

    fn add_public_key_for_vasp(&mut self, _vasp_domain: &str, _public_key: &PubKeyResponse) {}
}

#[test]
fn cache_of_another_kind() {
    let mut cache = Forgetful;
    let body = FetchEvent::Body(Ok(keys(5)));
    let (_, action) = advance_fetch(FetchState::AwaitingBody, body, "vasp.com", &mut cache);
    assert!(matches!(action, FetchAction::Done(Ok(_))));
    let (_, action) = advance_fetch(FetchState::Start, FetchEvent::Begin, "vasp.com", &mut cache);
    assert!(matches!(action, FetchAction::Get(_)));
}
