//! The registry of the one party that may configure raffles.

use vstd::prelude::*;
use crate::pubkey::Pubkey;

verus! {

/// The admin registry. There is one of it; it is never destroyed.
#[derive(Clone, Copy, Debug, PartialEq, Eq)]
pub struct AdminSettings {
    /// Nonce with which the address of the registry was derived.
    pub bump: u8,
    /// The party that may create raffles, allocate rewards and settle.
    pub admin: Pubkey,
}

impl AdminSettings {
    /// Whether `who` is the registered admin.
    pub open spec fn authorizes(&self, who: Pubkey) -> bool {
        self.admin@ == who@
    }

    /// Tells whether `who` is the registered admin.
    pub fn is_admin(&self, who: &Pubkey) -> (yes: bool)
        ensures
            yes == self.authorizes(*who),
            yes == (self.admin == *who),
    {
        proof {
            Pubkey::lemma_view_injective(self.admin, *who);
        }
        self.admin == *who
    }
}

} // verus!
