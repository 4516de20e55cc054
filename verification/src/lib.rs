//! An access-control-list decision engine for token accounts.
//!
//! A list configuration names a policy mode (allow, allow-all-EOAs, block)
//! and an authority; wallet membership entries tie individual wallets to a
//! list. The library decides, from persisted record buffers alone, whether a
//! token account's owner may have the account thawed, and carries out the
//! authority-gated removal of a membership entry.

pub mod account;
pub mod curve;
pub mod error;
pub mod instructions;
pub mod state;

pub use account::AccountInfo;
pub use instructions::CanThawPermissionless;
pub use instructions::RemoveWallet;
pub use error::ABLError;
pub use error::ProgramError;
pub use state::has_immutable_owner_extension;
pub use state::load;
pub use state::load_mut;
pub use state::load_mut_unchecked;
pub use state::load_unchecked;
pub use state::Discriminator;
pub use state::ListConfig;
pub use state::Mode;
pub use state::Transmutable;
pub use state::WalletEntry;
