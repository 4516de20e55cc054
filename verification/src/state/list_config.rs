//! The list configuration record: one per ACL list.

use vstd::prelude::*;

use crate::error::ProgramError;
use crate::state::Discriminator;
use crate::state::Transmutable;

verus! {

/// The exact byte length of a serialized [`ListConfig`].
pub const LIST_CONFIG_LEN: usize = 42;

/// The initialization marker a live [`ListConfig`] buffer starts with.
pub const LIST_CONFIG_DISCRIMINATOR: u8 = 1;

/// The mode byte of a list whose wallets are allowed only by membership.
pub const MODE_ALLOW: u8 = 0;

/// The mode byte of a list that passes every externally-owned key and gates
/// program-derived keys by membership.
pub const MODE_ALLOW_ALL_EOAS: u8 = 1;

/// The mode byte of a list whose membership entries deny.
pub const MODE_BLOCK: u8 = 2;

/// The three policy modes, a closed set fixed when a list is created.
#[derive(Clone, Copy, Debug, PartialEq, Eq, Structural)]
pub enum Mode {
    Allow,
    AllowAllEoas,
    Block,
}

/// The policy record of one ACL list.
///
/// Its buffer layout is `[discriminator | authority (32) | mode |
/// wallets_count (8, little endian)]`. A buffer whose mode byte names none
/// of the three modes is not a valid record: the closed [`Mode`] set is part
/// of the initialization marker.
#[derive(Debug)]
pub struct ListConfig {
    /// The initialization marker.
    pub discriminator: u8,
    /// The key permitted to mutate the list and remove its entries.
    pub authority: Vec<u8>,
    /// The raw policy mode byte; see [`Mode`].
    pub mode: u8,
    /// The number of live membership entries that reference this list.
    pub wallets_count: u64,
}

/// The mathematical image of a [`ListConfig`].
pub struct ListConfigView {
    pub discriminator: u8,
    pub authority: Seq<u8>,
    pub mode: u8,
    pub wallets_count: u64,
}

impl View for ListConfig {
    type V = ListConfigView;

    open spec fn view(&self) -> ListConfigView {
        ListConfigView {
            discriminator: self.discriminator,
            authority: self.authority@,
            mode: self.mode,
            wallets_count: self.wallets_count,
        }
    }
}

impl ListConfigView {
    /// The policy mode the record's mode byte names.
    pub open spec fn spec_mode(self) -> Mode
        recommends
            self.mode <= MODE_BLOCK,
    {
        if self.mode == MODE_ALLOW {
            Mode::Allow
        } else if self.mode == MODE_ALLOW_ALL_EOAS {
            Mode::AllowAllEoas
        } else {
            Mode::Block
        }
    }

    /// The buffer a record serializes to; inverse of
    /// [`ListConfig::spec_from_bytes`] on well-formed records.
    pub open spec fn spec_serialize(self) -> Seq<u8> {
        seq![self.discriminator] + self.authority + seq![self.mode]
            + vstd::bytes::spec_u64_to_le_bytes(self.wallets_count)
    }
}

impl Transmutable for ListConfig {
    open spec fn spec_len() -> usize {
        LIST_CONFIG_LEN
    }

    open spec fn spec_from_bytes(bytes: Seq<u8>) -> ListConfigView {
        ListConfigView {
            discriminator: bytes[0],
            authority: bytes.subrange(1, 33),
            mode: bytes[33],
            wallets_count: vstd::bytes::spec_u64_from_le_bytes(bytes.subrange(34, 42)),
        }
    }

    fn record_len() -> usize {
        LIST_CONFIG_LEN
    }

    fn from_bytes(bytes: &[u8]) -> (r: Self) {
        let discriminator = *vstd::slice::slice_index_get(bytes, 0);
        let authority = vstd::slice::slice_to_vec(vstd::slice::slice_subrange(bytes, 1, 33));
        let mode = *vstd::slice::slice_index_get(bytes, 33);
        let wallets_count = vstd::bytes::u64_from_le_bytes(
            vstd::slice::slice_subrange(bytes, 34, 42),
        );
        ListConfig { discriminator, authority, mode, wallets_count }
    }
}

impl Discriminator for ListConfig {
    open spec fn spec_discriminator() -> u8 {
        LIST_CONFIG_DISCRIMINATOR
    }

    open spec fn spec_initialized(v: ListConfigView) -> bool {
        &&& v.discriminator == LIST_CONFIG_DISCRIMINATOR
        &&& v.mode <= MODE_BLOCK
    }

    fn discriminator() -> u8 {
        LIST_CONFIG_DISCRIMINATOR
    }

    fn is_initialized(&self) -> bool {
        self.discriminator == LIST_CONFIG_DISCRIMINATOR && self.mode <= MODE_BLOCK
    }
}

impl ListConfig {
    /// The policy mode of an initialized record.
    pub fn get_mode(&self) -> (m: Mode)
        requires
            self@.mode <= MODE_BLOCK,
        ensures
            m == self@.spec_mode(),
    {
        if self.mode == MODE_ALLOW {
            Mode::Allow
        } else if self.mode == MODE_ALLOW_ALL_EOAS {
            Mode::AllowAllEoas
        } else {
            Mode::Block
        }
    }

    /// Serialize the record back into its buffer form.
    pub fn to_bytes(&self) -> (r: Vec<u8>)
        requires
            self.authority@.len() == 32,
        ensures
            r@ == self@.spec_serialize(),
            r@.len() == LIST_CONFIG_LEN,
    {
        let mut v: Vec<u8> = Vec::new();
        v.push(self.discriminator);
        let mut i: usize = 0;
        while i < 32
            invariant
                i <= 32,
                self.authority@.len() == 32,
                v@.len() == 1 + i,
                v@[0] == self.discriminator,
                forall|j: int| 0 <= j < i ==> v@[1 + j] == self.authority@[j],
            decreases 32 - i,
        {
            v.push(self.authority[i]);
            i = i + 1;
        }
        v.push(self.mode);
        let count_bytes = vstd::bytes::u64_to_le_bytes(self.wallets_count);
        let mut k: usize = 0;
        while k < count_bytes.len()
            invariant
                k <= count_bytes@.len(),
                count_bytes@ == vstd::bytes::spec_u64_to_le_bytes(self.wallets_count),
                count_bytes@.len() == 8,
                self.authority@.len() == 32,
                v@.len() == 34 + k,
                v@[0] == self.discriminator,
                forall|j: int| 0 <= j < 32 ==> v@[1 + j] == self.authority@[j],
                v@[33] == self.mode,
                forall|j: int| 0 <= j < k ==> v@[34 + j] == count_bytes@[j],
            decreases count_bytes@.len() - k,
        {
            v.push(count_bytes[k]);
            k = k + 1;
        }
        proof {
            assert(v@ =~= self@.spec_serialize());
        }
        v
    }

    /// Take one live membership entry off the list's counter. Decrementing
    /// a zero counter is a fatal invariant violation, never a silent wrap.
    pub fn decrement_wallets_count(&mut self) -> (r: Result<(), ProgramError>)
        ensures
            old(self).wallets_count == 0 ==> r == Err::<(), ProgramError>(
                ProgramError::ArithmeticOverflow,
            ) && *final(self) == *old(self),
            old(self).wallets_count > 0 ==> r == Ok::<(), ProgramError>(()) && *final(self)
                == (ListConfig { wallets_count: (old(self).wallets_count - 1) as u64, ..*old(self) }),
    {
        if self.wallets_count == 0 {
            Err(ProgramError::ArithmeticOverflow)
        } else {
            self.wallets_count = self.wallets_count - 1;
            Ok(())
        }
    }
}

/// Serialization and parsing are inverses: reading back a serialized record
/// yields the record.
pub proof fn lemma_serialize_parse_roundtrip(v: ListConfigView)
    requires
        v.authority.len() == 32,
    ensures
        v.spec_serialize().len() == LIST_CONFIG_LEN,
        ListConfig::spec_from_bytes(v.spec_serialize()) == v,
{
    vstd::bytes::lemma_auto_spec_u64_to_from_le_bytes();
    let s = v.spec_serialize();
    assert(s.subrange(1, 33) =~= v.authority);
    assert(s.subrange(34, 42) =~= vstd::bytes::spec_u64_to_le_bytes(v.wallets_count));
}

} // verus!
