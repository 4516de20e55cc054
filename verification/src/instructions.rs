//! The two operations of the ACL core: the read-only authorization check
//! and the authority-gated removal of a membership entry.

pub mod can_thaw_permissionless;
pub mod remove_wallet;

pub use can_thaw_permissionless::CanThawPermissionless;
pub use remove_wallet::RemoveWallet;
