//! The wallet membership record: one per wallet granted or denied
//! membership in a specific list.

use vstd::prelude::*;

use crate::state::Discriminator;
use crate::state::Transmutable;

verus! {

/// The exact byte length of a serialized [`WalletEntry`].
pub const WALLET_ENTRY_LEN: usize = 65;

/// The initialization marker a live [`WalletEntry`] buffer starts with.
pub const WALLET_ENTRY_DISCRIMINATOR: u8 = 2;

/// The membership record tying one wallet to one list.
///
/// Its buffer layout is `[discriminator | list_config (32) | wallet (32)]`.
/// The `list_config` back-reference must equal the address of the list the
/// entry is validated against; that binding is what prevents an entry of
/// one list from being replayed against another.
#[derive(Debug)]
pub struct WalletEntry {
    /// The initialization marker.
    pub discriminator: u8,
    /// The address of the owning [`crate::ListConfig`] account.
    pub list_config: Vec<u8>,
    /// The wallet the membership is about.
    pub wallet: Vec<u8>,
}

/// The mathematical image of a [`WalletEntry`].
pub struct WalletEntryView {
    pub discriminator: u8,
    pub list_config: Seq<u8>,
    pub wallet: Seq<u8>,
}

impl View for WalletEntry {
    type V = WalletEntryView;

    open spec fn view(&self) -> WalletEntryView {
        WalletEntryView {
            discriminator: self.discriminator,
            list_config: self.list_config@,
            wallet: self.wallet@,
        }
    }
}

impl Transmutable for WalletEntry {
    open spec fn spec_len() -> usize {
        WALLET_ENTRY_LEN
    }

    open spec fn spec_from_bytes(bytes: Seq<u8>) -> WalletEntryView {
        WalletEntryView {
            discriminator: bytes[0],
            list_config: bytes.subrange(1, 33),
            wallet: bytes.subrange(33, 65),
        }
    }

    fn record_len() -> usize {
        WALLET_ENTRY_LEN
    }

    fn from_bytes(bytes: &[u8]) -> (r: Self) {
        let discriminator = *vstd::slice::slice_index_get(bytes, 0);
        let list_config = vstd::slice::slice_to_vec(vstd::slice::slice_subrange(bytes, 1, 33));
        let wallet = vstd::slice::slice_to_vec(vstd::slice::slice_subrange(bytes, 33, 65));
        WalletEntry { discriminator, list_config, wallet }
    }
}

impl Discriminator for WalletEntry {
    open spec fn spec_discriminator() -> u8 {
        WALLET_ENTRY_DISCRIMINATOR
    }

    open spec fn spec_initialized(v: WalletEntryView) -> bool {
        v.discriminator == WALLET_ENTRY_DISCRIMINATOR
    }

    fn discriminator() -> u8 {
        WALLET_ENTRY_DISCRIMINATOR
    }

    fn is_initialized(&self) -> bool {
        self.discriminator == WALLET_ENTRY_DISCRIMINATOR
    }
}

} // verus!
