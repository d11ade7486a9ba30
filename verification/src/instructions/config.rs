//! Setting up the admin registry and handing it on.

use vstd::prelude::*;
use crate::pubkey::Pubkey;
use crate::states::admin::AdminSettings;

verus! {

/// The registry as it is created at deployment, with `admin` registered.
pub fn init_admin(bump: u8, admin: Pubkey) -> (settings: AdminSettings)
    ensures
        settings == (AdminSettings { bump, admin }),
        settings.authorizes(admin),
{
    AdminSettings { bump, admin }
}

/// Registers `admin` in place of the current admin, who is the only one that
/// may ask for it. Nothing else in the registry changes.
pub fn set_admin(admin_settings: &mut AdminSettings, authority: &Pubkey, admin: Pubkey)
    requires
        old(admin_settings).authorizes(*authority),
    ensures
        *final(admin_settings) == (AdminSettings { admin, ..*old(admin_settings) }),
        final(admin_settings).authorizes(admin),
{
    admin_settings.admin = admin;
}

} // verus!
