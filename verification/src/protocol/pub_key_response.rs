//! The public keys of a VASP.
use vstd::prelude::*;

verus! {

/// The public keys of a VASP.
#[derive(Debug)]
pub struct PubKeyResponse {
    /// The key that the VASP's signatures verify under.
    pub signing_pub_key: Vec<u8>,
    /// The key that information for the VASP is encrypted with.
    pub encryption_pub_key: Vec<u8>,
    /// When the keys expire, in seconds since the epoch.
    pub expiration_timestamp: Option<i64>,
}

/// A [`PubKeyResponse`] with its keys as sequences of bytes.
pub struct PubKeyResponseView {
    pub signing_pub_key: Seq<u8>,
    pub encryption_pub_key: Seq<u8>,
    pub expiration_timestamp: Option<i64>,
}

impl View for PubKeyResponse {
    type V = PubKeyResponseView;

    open spec fn view(&self) -> PubKeyResponseView {
        PubKeyResponseView {
            signing_pub_key: self.signing_pub_key@,
            encryption_pub_key: self.encryption_pub_key@,
            expiration_timestamp: self.expiration_timestamp,
        }
    }
}

impl Clone for PubKeyResponse {
    fn clone(&self) -> (res: Self)
        ensures
            res@ == self@,
    {
        let res = PubKeyResponse {
            signing_pub_key: self.signing_pub_key.clone(),
            encryption_pub_key: self.encryption_pub_key.clone(),
            expiration_timestamp: self.expiration_timestamp,
        };
        assert(res.signing_pub_key@ =~= self.signing_pub_key@);
        assert(res.encryption_pub_key@ =~= self.encryption_pub_key@);
        res
    }
}

} // verus!
