//! How far a customer's identity has been checked.
use vstd::prelude::*;

use crate::text;

verus! {

/// How far a customer's identity has been checked.
#[derive(Debug, Clone, Copy, PartialEq, Eq, Structural)]
pub enum KycStatus {
    Unknown,
    NotVerified,
    Pending,
    Verified,
}

impl KycStatus {
    /// The name of a status in a message.
    pub open spec fn name(self) -> Seq<char> {
        match self {
            KycStatus::Unknown => "UNKNOWN"@,
            KycStatus::NotVerified => "NOT_VERIFIED"@,
            KycStatus::Pending => "PENDING"@,
            KycStatus::Verified => "VERIFIED"@,
        }
    }

    /// The status with a name.
    pub open spec fn named(name: Seq<char>) -> Option<KycStatus> {
        if name == "UNKNOWN"@ {
            Some(KycStatus::Unknown)
        } else if name == "NOT_VERIFIED"@ {
            Some(KycStatus::NotVerified)
        } else if name == "PENDING"@ {
            Some(KycStatus::Pending)
        } else if name == "VERIFIED"@ {
            Some(KycStatus::Verified)
        } else {
            None
        }
    }

    /// Each status is the one with its name.
    pub proof fn named_of_name(self)
        ensures
            KycStatus::named(self.name()) == Some(self),
    {
        reveal_strlit("UNKNOWN");
        reveal_strlit("NOT_VERIFIED");
        reveal_strlit("PENDING");
        reveal_strlit("VERIFIED");
        assert("UNKNOWN"@.len() == 7 && "UNKNOWN"@[0] == 'U');
        assert("NOT_VERIFIED"@.len() == 12);
        assert("PENDING"@.len() == 7 && "PENDING"@[0] == 'P');
        assert("VERIFIED"@.len() == 8);
    }

    /// The name of a status in a message.
    pub fn as_str(&self) -> (res: &'static str)
        ensures
            res@ == self.name(),
    {
        match self {
            KycStatus::Unknown => "UNKNOWN",
            KycStatus::NotVerified => "NOT_VERIFIED",
            KycStatus::Pending => "PENDING",
            KycStatus::Verified => "VERIFIED",
        }
    }

    /// The status with a name.
    pub fn from_name(name: &str) -> (res: Option<KycStatus>)
        ensures
            res == KycStatus::named(name@),
    {
        if text::same_text(name, "UNKNOWN") {
            Some(KycStatus::Unknown)
        } else if text::same_text(name, "NOT_VERIFIED") {
            Some(KycStatus::NotVerified)
        } else if text::same_text(name, "PENDING") {
            Some(KycStatus::Pending)
        } else if text::same_text(name, "VERIFIED") {
            Some(KycStatus::Verified)
        } else {
            None
        }
    }
}

} // verus!
