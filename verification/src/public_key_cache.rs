//! Where the public keys of other VASPs are kept.
use vstd::prelude::*;

use crate::protocol::pub_key_response::{PubKeyResponse, PubKeyResponseView};
use crate::text;

verus! {

/// The view of keys that may be missing.
pub open spec fn opt_keys(o: Option<&PubKeyResponse>) -> Option<PubKeyResponseView> {
    match o {
        Some(k) => Some(k@),
        None => None,
    }
}

/// Keeps the public keys of other VASPs. A cache may forget: each can say for itself what a
/// look-up may find and what it may become, and promises nothing if it does not.
pub trait PublicKeyCache: Sized {
    /// Whether a look-up of a domain may find some keys, or nothing.
    open spec fn may_find(
        &self,
        vasp_domain: Seq<char>,
        found: Option<PubKeyResponseView>,
    ) -> bool {
        true
    }

    /// Whether adding the keys of a domain may turn a cache into another.
    open spec fn may_become(
        &self,
        vasp_domain: Seq<char>,
        public_key: PubKeyResponseView,
        after: &Self,
    ) -> bool {
        true
    }

    /// Looks up the keys of a domain.
    fn fetch_public_key_for_vasp(&self, vasp_domain: &str) -> (res: Option<&PubKeyResponse>)
        ensures
            self.may_find(vasp_domain@, opt_keys(res)),
    ;

    /// Adds the keys of a domain.
    fn add_public_key_for_vasp(&mut self, vasp_domain: &str, public_key: &PubKeyResponse)
        ensures
            old(self).may_become(vasp_domain@, public_key@, final(self)),
    ;
}

/// A cache in memory, which forgets nothing.
#[derive(Debug)]
pub struct InMemoryPublicKeyCache {
    entries: Vec<(String, PubKeyResponse)>,
}

/// The keys in the first entry for a domain.
pub open spec fn first_entry(
    entries: Seq<(Seq<char>, PubKeyResponseView)>,
    vasp_domain: Seq<char>,
) -> Option<PubKeyResponseView>
    decreases entries.len(),
{
    if entries.len() == 0 {
        None
    } else if entries[0].0 == vasp_domain {
        Some(entries[0].1)
    } else {
        first_entry(entries.skip(1), vasp_domain)
    }
}

proof fn lemma_first_entry_at(
    entries: Seq<(Seq<char>, PubKeyResponseView)>,
    vasp_domain: Seq<char>,
    i: int,
)
    requires
        0 <= i < entries.len(),
        entries[i].0 == vasp_domain,
        forall|j: int| 0 <= j < i ==> (#[trigger] entries[j]).0 != vasp_domain,
    ensures
        first_entry(entries, vasp_domain) == Some(entries[i].1),
    decreases i,
{
    if i > 0 {
        assert(entries.skip(1)[i - 1] == entries[i]);
        assert forall|j: int| 0 <= j < i - 1 implies (#[trigger] entries.skip(1)[j]).0
            != vasp_domain by {
            assert(entries[j + 1].0 != vasp_domain);
        }
        lemma_first_entry_at(entries.skip(1), vasp_domain, i - 1);
    }
}

proof fn lemma_first_entry_none(
    entries: Seq<(Seq<char>, PubKeyResponseView)>,
    vasp_domain: Seq<char>,
)
    requires
        forall|j: int| 0 <= j < entries.len() ==> (#[trigger] entries[j]).0 != vasp_domain,
    ensures
        first_entry(entries, vasp_domain) is None,
    decreases entries.len(),
{
    if entries.len() > 0 {
        assert forall|j: int| 0 <= j < entries.skip(1).len() implies (#[trigger] entries.skip(1)[j])
            .0 != vasp_domain by {
            assert(entries[j + 1].0 != vasp_domain);
        }
        lemma_first_entry_none(entries.skip(1), vasp_domain);
    }
}

/// The entries for other domains are not touched by a change of one entry.
proof fn lemma_first_entry_updated(
    entries: Seq<(Seq<char>, PubKeyResponseView)>,
    i: int,
    key: PubKeyResponseView,
    other: Seq<char>,
)
    requires
        0 <= i < entries.len(),
        entries[i].0 != other,
    ensures
        first_entry(entries.update(i, (entries[i].0, key)), other) == first_entry(entries, other),
    decreases i,
{
    let changed = entries.update(i, (entries[i].0, key));
    if i > 0 {
        assert(changed.skip(1) =~= entries.skip(1).update(i - 1, (entries[i].0, key)));
        assert(entries.skip(1)[i - 1] == entries[i]);
        lemma_first_entry_updated(entries.skip(1), i - 1, key, other);
    } else {
        assert(changed.skip(1) =~= entries.skip(1));
    }
}

/// The entries for other domains are not touched by one more entry at the end.
proof fn lemma_first_entry_pushed(
    entries: Seq<(Seq<char>, PubKeyResponseView)>,
    entry: (Seq<char>, PubKeyResponseView),
    other: Seq<char>,
)
    requires
        entry.0 != other,
    ensures
        first_entry(entries.push(entry), other) == first_entry(entries, other),
    decreases entries.len(),
{
    if entries.len() > 0 {
        assert(entries.push(entry).skip(1) =~= entries.skip(1).push(entry));
        lemma_first_entry_pushed(entries.skip(1), entry, other);
    } else {
        assert(first_entry(entries.push(entry).skip(1), other) is None);
    }
}

impl InMemoryPublicKeyCache {
    closed spec fn entry_views(&self) -> Seq<(Seq<char>, PubKeyResponseView)> {
        Seq::new(self.entries@.len(), |i: int| (self.entries@[i].0@, self.entries@[i].1@))
    }

    /// The keys that are kept for a domain.
    pub closed spec fn kept(&self, vasp_domain: Seq<char>) -> Option<PubKeyResponseView> {
        first_entry(self.entry_views(), vasp_domain)
    }

    /// Makes an empty cache.
    pub fn new() -> (res: InMemoryPublicKeyCache)
        ensures
            res@ == Map::<Seq<char>, PubKeyResponseView>::empty(),
    {
        let res = InMemoryPublicKeyCache { entries: Vec::new() };
        assert(res@ =~= Map::<Seq<char>, PubKeyResponseView>::empty());
        res
    }

    /// The place of the first entry for a domain.
    fn position(&self, vasp_domain: &str) -> (res: Option<usize>)
        ensures
            match res {
                Some(i) => {
                    &&& i < self.entries@.len()
                    &&& self.entries@[i as int].0@ == vasp_domain@
                    &&& self.kept(vasp_domain@) == Some(self.entries@[i as int].1@)
                    &&& forall|j: int| 0 <= j < i ==> (#[trigger] self.entries@[j]).0@ != vasp_domain@
                },
                None => {
                    &&& self.kept(vasp_domain@) is None
                    &&& forall|j: int|
                        0 <= j < self.entries@.len() ==> (#[trigger] self.entries@[j]).0@
                            != vasp_domain@
                },
            },
    {
        let mut i: usize = 0;
        while i < self.entries.len()
            invariant
                i <= self.entries.len(),
                forall|j: int| 0 <= j < i ==> (#[trigger] self.entries@[j]).0@ != vasp_domain@,
            decreases self.entries.len() - i,
        {
            if text::same_text(self.entries[i].0.as_str(), vasp_domain) {
                proof {
                    lemma_first_entry_at(self.entry_views(), vasp_domain@, i as int);
                }
                return Some(i);
            }
            i += 1;
        }
        proof {
            lemma_first_entry_none(self.entry_views(), vasp_domain@);
        }
        None
    }
}

impl View for InMemoryPublicKeyCache {
    type V = Map<Seq<char>, PubKeyResponseView>;

    closed spec fn view(&self) -> Map<Seq<char>, PubKeyResponseView> {
        Map::new(
            |vasp_domain: Seq<char>| self.kept(vasp_domain) is Some,
            |vasp_domain: Seq<char>| self.kept(vasp_domain)->0,
        )
    }
}

impl PublicKeyCache for InMemoryPublicKeyCache {
    open spec fn may_find(
        &self,
        vasp_domain: Seq<char>,
        found: Option<PubKeyResponseView>,
    ) -> bool {
        match found {
            Some(keys) => self@.dom().contains(vasp_domain) && self@[vasp_domain] == keys,
            None => !self@.dom().contains(vasp_domain),
        }
    }

    open spec fn may_become(
        &self,
        vasp_domain: Seq<char>,
        public_key: PubKeyResponseView,
        after: &Self,
    ) -> bool {
        after@ == self@.insert(vasp_domain, public_key)
    }

    fn fetch_public_key_for_vasp(&self, vasp_domain: &str) -> (res: Option<&PubKeyResponse>) {
        match self.position(vasp_domain) {
            Some(i) => Some(&self.entries[i].1),
            None => None,
        }
    }

    fn add_public_key_for_vasp(&mut self, vasp_domain: &str, public_key: &PubKeyResponse) {
        let ghost before = self.entry_views();
        let key = public_key.clone();
        match self.position(vasp_domain) {
            Some(i) => {
                let domain = vasp_domain.to_owned();
                self.entries.set(i, (domain, key));
                proof {
                    let after = self.entry_views();
                    assert(after =~= before.update(i as int, (before[i as int].0, public_key@)));
                    lemma_first_entry_at(after, vasp_domain@, i as int);
                    assert forall|other: Seq<char>| other != vasp_domain@ implies first_entry(
                        after,
                        other,
                    ) == #[trigger] first_entry(before, other) by {
                        lemma_first_entry_updated(before, i as int, public_key@, other);
                    }
                }
            },
            None => {
                self.entries.push((vasp_domain.to_owned(), key));
                proof {
                    let after = self.entry_views();
                    assert(after =~= before.push((vasp_domain@, public_key@)));
                    lemma_first_entry_at(after, vasp_domain@, before.len() as int);
                    assert forall|other: Seq<char>| other != vasp_domain@ implies first_entry(
                        after,
                        other,
                    ) == #[trigger] first_entry(before, other) by {
                        lemma_first_entry_pushed(before, (vasp_domain@, public_key@), other);
                    }
                }
            },
        }
        assert(self@ =~= old(self)@.insert(vasp_domain@, public_key@));
    }
}

} // verus!
