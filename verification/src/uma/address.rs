//! Addresses of the form `user@domain`.
use vstd::prelude::*;

use crate::error;
use crate::error::{Error, ErrorView};
use crate::text;

verus! {

/// The domain in an address: what stands behind the one `@` in it.
pub open spec fn vasp_domain(uma_address: Seq<char>) -> Result<Seq<char>, ErrorView> {
    match text::cut_at_only(uma_address, '@') {
        Some((_, domain)) => Ok(domain),
        None => Err(ErrorView::InvalidUMAAddress),
    }
}

/// The domain of `user@domain` is `domain`, if there is no further `@` in it.
pub proof fn vasp_domain_of_address(user: Seq<char>, domain: Seq<char>)
    requires
        !user.contains('@'),
        !domain.contains('@'),
    ensures
        vasp_domain(user + seq!['@'] + domain) == Ok::<Seq<char>, ErrorView>(domain),
{
    text::cut_at_first_of_joined(user, '@', domain);
}

/// An address that has a domain is made of a user, an `@` and that domain, and there is no
/// other `@` in it.
pub proof fn address_with_vasp_domain(uma_address: Seq<char>)
    ensures
        vasp_domain(uma_address) matches Ok(domain) ==> exists|user: Seq<char>|
            !#[trigger] user.contains('@') && !domain.contains('@') && uma_address == user
                + seq!['@'] + domain,
{
    text::cut_at_first_restores(uma_address, '@');
    if let Some((user, domain)) = text::cut_at_only(uma_address, '@') {
        assert(!user.contains('@') && uma_address == user + seq!['@'] + domain);
    }
}

/// Gets the domain of the VASP from an address.
pub fn get_vasp_domain_from_uma_address(uma_address: &str) -> (res: Result<String, Error>)
    ensures
        error::outcome(res) == vasp_domain(uma_address@),
{
    match text::split_at_only(uma_address, '@') {
        Some((_, domain)) => Ok(domain),
        None => Err(Error::InvalidUMAAddress),
    }
}

} // verus!
