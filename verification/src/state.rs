//! Typed records over raw account buffers.
//!
//! Record state is persisted as fixed-length byte buffers. The loaders here
//! are the only place a buffer becomes a typed record: they check the exact
//! length and (for the checked variants) the record's initialization marker,
//! and hand every other component an already-typed value. The module also
//! holds the scanner that walks a token account's TLV extension region.

pub mod list_config;
pub mod wallet_entry;

use vstd::prelude::*;

use crate::account::AccountInfo;
use crate::error::ABLError;

pub use list_config::ListConfig;
pub use list_config::ListConfigView;
pub use list_config::Mode;
pub use wallet_entry::WalletEntry;
pub use wallet_entry::WalletEntryView;

verus! {

/// A record with a fixed byte length that can be read off a buffer of
/// exactly that length. `spec_from_bytes` is total over buffers of the
/// right length: every bit pattern reads as some record, and the
/// initialization marker (see [`Discriminator`]) tells live records apart
/// from zeroed storage.
pub trait Transmutable: Sized + View {
    /// The exact byte length of the record's buffer.
    spec fn spec_len() -> usize;

    /// The record a buffer of length [`Self::spec_len`] holds.
    spec fn spec_from_bytes(bytes: Seq<u8>) -> Self::V
        recommends
            bytes.len() == Self::spec_len(),
    ;

    /// Executable twin of [`Self::spec_len`].
    fn record_len() -> (n: usize)
        ensures
            n == Self::spec_len(),
    ;

    /// Read the record off a buffer of exactly the record's length.
    fn from_bytes(bytes: &[u8]) -> (r: Self)
        requires
            bytes@.len() == Self::spec_len(),
        ensures
            r@ == Self::spec_from_bytes(bytes@),
    ;
}

/// A record type tagged by a one-byte discriminator, whose value doubles as
/// the initialization marker: zeroed storage never carries it.
pub trait Discriminator: View {
    /// The tag this record type is created with.
    spec fn spec_discriminator() -> u8;

    /// Whether a record read off a buffer is a live, initialized instance.
    spec fn spec_initialized(v: Self::V) -> bool;

    /// Executable twin of [`Self::spec_discriminator`].
    fn discriminator() -> (d: u8)
        ensures
            d == Self::spec_discriminator(),
    ;

    /// Executable twin of [`Self::spec_initialized`].
    fn is_initialized(&self) -> (r: bool)
        ensures
            r == Self::spec_initialized(self@),
    ;
}

/// What [`load_unchecked`] returns for a given buffer: the record whenever
/// the buffer has exactly the record's length, `InvalidAccountData`
/// otherwise.
pub open spec fn spec_load_unchecked<T: Transmutable>(bytes: Seq<u8>) -> Result<T::V, ABLError> {
    if bytes.len() == T::spec_len() {
        Ok(T::spec_from_bytes(bytes))
    } else {
        Err(ABLError::InvalidAccountData)
    }
}

/// What [`load`] returns for a given buffer: as [`spec_load_unchecked`],
/// and additionally `InvalidAccountData` when the record's initialization
/// marker is missing.
pub open spec fn spec_load<T: Transmutable + Discriminator>(bytes: Seq<u8>) -> Result<
    T::V,
    ABLError,
> {
    match spec_load_unchecked::<T>(bytes) {
        Ok(v) => if T::spec_initialized(v) {
            Ok(v)
        } else {
            Err(ABLError::InvalidAccountData)
        },
        Err(e) => Err(e),
    }
}

/// Read a `T` from the given bytes, without checking initialization.
pub fn load_unchecked<T: Transmutable>(bytes: &[u8]) -> (r: Result<T, ABLError>)
    ensures
        r is Ok <==> spec_load_unchecked::<T>(bytes@) is Ok,
        r is Ok ==> Ok::<T::V, ABLError>(r->Ok_0@) == spec_load_unchecked::<T>(bytes@),
        r is Err ==> Err::<T::V, ABLError>(r->Err_0) == spec_load_unchecked::<T>(bytes@),
{
    if bytes.len() != T::record_len() {
        return Err(ABLError::InvalidAccountData);
    }
    Ok(T::from_bytes(bytes))
}

/// Read an initialized `T` from the given bytes.
pub fn load<T: Transmutable + Discriminator>(bytes: &[u8]) -> (r: Result<T, ABLError>)
    ensures
        r is Ok <==> spec_load::<T>(bytes@) is Ok,
        r is Ok ==> Ok::<T::V, ABLError>(r->Ok_0@) == spec_load::<T>(bytes@),
        r is Err ==> Err::<T::V, ABLError>(r->Err_0) == spec_load::<T>(bytes@),
{
    match load_unchecked::<T>(bytes) {
        Ok(t) => {
            if t.is_initialized() {
                Ok(t)
            } else {
                Err(ABLError::InvalidAccountData)
            }
        },
        Err(e) => Err(e),
    }
}

/// Read a `T` from a mutable buffer, without checking initialization. The
/// buffer is left as it was: a caller mutates the record as a value and
/// writes it back through the record's own serializer.
pub fn load_mut_unchecked<T: Transmutable>(bytes: &mut Vec<u8>) -> (r: Result<T, ABLError>)
    ensures
        final(bytes)@ == old(bytes)@,
        r is Ok <==> spec_load_unchecked::<T>(old(bytes)@) is Ok,
        r is Ok ==> Ok::<T::V, ABLError>(r->Ok_0@) == spec_load_unchecked::<T>(old(bytes)@),
        r is Err ==> Err::<T::V, ABLError>(r->Err_0) == spec_load_unchecked::<T>(old(bytes)@),
{
    load_unchecked::<T>(bytes.as_slice())
}

/// Read an initialized `T` from a mutable buffer. The buffer is left as it
/// was; see [`load_mut_unchecked`].
pub fn load_mut<T: Transmutable + Discriminator>(bytes: &mut Vec<u8>) -> (r: Result<T, ABLError>)
    ensures
        final(bytes)@ == old(bytes)@,
        r is Ok <==> spec_load::<T>(old(bytes)@) is Ok,
        r is Ok ==> Ok::<T::V, ABLError>(r->Ok_0@) == spec_load::<T>(old(bytes)@),
        r is Err ==> Err::<T::V, ABLError>(r->Err_0) == spec_load::<T>(old(bytes)@),
{
    load::<T>(bytes.as_slice())
}

/// The 16-bit tag of the immutable-owner extension in a token account's
/// TLV region.
pub const IMMUTABLE_OWNER_EXTENSION_ID: u16 = 7;

/// The fixed length of the base (non-extension) token account record.
pub const TOKEN_ACCOUNT_LEN: usize = 165;

/// The padding byte between the base record and the extension region.
pub const EXTENSION_START_PADDING: usize = 1;

/// Where the TLV extension region starts within a token account buffer.
pub const EXTENSION_DATA_START_INDEX: usize = TOKEN_ACCOUNT_LEN + EXTENSION_START_PADDING;

/// The extension type at header position `start`: a header is a 2-byte
/// little-endian type followed by a 2-byte little-endian length.
pub open spec fn spec_tag_at(data: Seq<u8>, start: int) -> u16
    recommends
        0 <= start && start + 2 <= data.len(),
{
    vstd::bytes::spec_u16_from_le_bytes(data.subrange(start, start + 2))
}

/// The declared data length at header position `start`.
pub open spec fn spec_ext_len_at(data: Seq<u8>, start: int) -> u16
    recommends
        0 <= start && start + 4 <= data.len(),
{
    vstd::bytes::spec_u16_from_le_bytes(data.subrange(start + 2, start + 4))
}

/// Whether the scan that begins at header position `start` encounters the
/// immutable-owner tag. The scan stops, reporting absence, as soon as a
/// whole header no longer fits before the end of the buffer: a truncated
/// trailing header is never read past.
pub open spec fn spec_scan_finds(data: Seq<u8>, start: int) -> bool
    decreases data.len() - start,
{
    if start < 0 || start + 2 > data.len() {
        false
    } else if spec_tag_at(data, start) == IMMUTABLE_OWNER_EXTENSION_ID {
        true
    } else if start + 4 > data.len() {
        false
    } else {
        let next = start + 4 + spec_ext_len_at(data, start);
        if next + 2 <= data.len() {
            spec_scan_finds(data, next)
        } else {
            false
        }
    }
}

/// The extension types of every whole header the scan visits from `start`,
/// in scan order.
pub open spec fn spec_tlv_tags(data: Seq<u8>, start: int) -> Seq<u16>
    decreases data.len() - start,
{
    if start < 0 || start + 2 > data.len() {
        Seq::empty()
    } else if start + 4 > data.len() {
        seq![spec_tag_at(data, start)]
    } else {
        let next = start + 4 + spec_ext_len_at(data, start);
        if next + 2 <= data.len() {
            seq![spec_tag_at(data, start)] + spec_tlv_tags(data, next)
        } else {
            seq![spec_tag_at(data, start)]
        }
    }
}

/// What [`has_immutable_owner_extension`] returns for a token account with
/// the given data: the buffer reaches the extension region and the scan of
/// that region meets the immutable-owner tag.
pub open spec fn spec_has_immutable_owner_extension(data: Seq<u8>) -> bool {
    &&& data.len() >= EXTENSION_DATA_START_INDEX
    &&& spec_scan_finds(data, EXTENSION_DATA_START_INDEX as int)
}

/// The scan finds the immutable-owner tag exactly when some header it
/// visits carries that tag, wherever in the region the header stands.
pub proof fn lemma_scan_finds_iff_tag_listed(data: Seq<u8>, start: int)
    ensures
        spec_scan_finds(data, start) <==> spec_tlv_tags(data, start).contains(
            IMMUTABLE_OWNER_EXTENSION_ID,
        ),
    decreases data.len() - start,
{
    if start < 0 || start + 2 > data.len() {
        assert(!spec_tlv_tags(data, start).contains(IMMUTABLE_OWNER_EXTENSION_ID));
    } else {
        let tag = spec_tag_at(data, start);
        if tag == IMMUTABLE_OWNER_EXTENSION_ID {
            assert(spec_tlv_tags(data, start)[0] == tag);
            assert(spec_tlv_tags(data, start).contains(IMMUTABLE_OWNER_EXTENSION_ID));
        } else if start + 4 > data.len() {
            assert(forall|i: int|
                0 <= i < spec_tlv_tags(data, start).len() ==> spec_tlv_tags(data, start)[i] == tag);
        } else {
            let next = start + 4 + spec_ext_len_at(data, start);
            if next + 2 <= data.len() {
                lemma_scan_finds_iff_tag_listed(data, next);
                let rest = spec_tlv_tags(data, next);
                let whole = spec_tlv_tags(data, start);
                assert(whole == seq![tag] + rest);
                if rest.contains(IMMUTABLE_OWNER_EXTENSION_ID) {
                    let i = choose|i: int|
                        0 <= i < rest.len() && rest[i] == IMMUTABLE_OWNER_EXTENSION_ID;
                    assert(whole[i + 1] == IMMUTABLE_OWNER_EXTENSION_ID);
                    assert(whole.contains(IMMUTABLE_OWNER_EXTENSION_ID));
                }
                if whole.contains(IMMUTABLE_OWNER_EXTENSION_ID) {
                    let i = choose|i: int|
                        0 <= i < whole.len() && whole[i] == IMMUTABLE_OWNER_EXTENSION_ID;
                    assert(i > 0);
                    assert(rest[i - 1] == IMMUTABLE_OWNER_EXTENSION_ID);
                    assert(rest.contains(IMMUTABLE_OWNER_EXTENSION_ID));
                }
            } else {
                assert(forall|i: int|
                    0 <= i < spec_tlv_tags(data, start).len() ==> spec_tlv_tags(data, start)[i]
                        == tag);
            }
        }
    }
}

/// A token account carries the immutable-owner extension exactly when its
/// TLV region lists that extension's tag, at whatever position; a buffer
/// short of the extension region never does.
pub proof fn lemma_extension_found_iff_tag_present(data: Seq<u8>)
    ensures
        spec_has_immutable_owner_extension(data) <==> (data.len() >= EXTENSION_DATA_START_INDEX
            && spec_tlv_tags(data, EXTENSION_DATA_START_INDEX as int).contains(
            IMMUTABLE_OWNER_EXTENSION_ID,
        )),
{
    lemma_scan_finds_iff_tag_listed(data, EXTENSION_DATA_START_INDEX as int);
}

/// Whether the token account carries the immutable-owner extension.
///
/// A buffer too short to reach the extension region reports the extension
/// as absent (fail closed) rather than as an error.
pub fn has_immutable_owner_extension(token_account: &AccountInfo) -> (r: bool)
    ensures
        r == spec_has_immutable_owner_extension(token_account.data@),
{
    let data = token_account.data.as_slice();
    let end = data.len();
    if end < EXTENSION_DATA_START_INDEX {
        return false;
    }
    let mut start: usize = EXTENSION_DATA_START_INDEX;
    while start <= end - 2
        invariant
            EXTENSION_DATA_START_INDEX <= start,
            start <= end,
            end == data@.len(),
            data@ == token_account.data@,
            spec_scan_finds(data@, EXTENSION_DATA_START_INDEX as int) == spec_scan_finds(
                data@,
                start as int,
            ),
        decreases end - start,
    {
        let tag = vstd::bytes::u16_from_le_bytes(vstd::slice::slice_subrange(
            data,
            start,
            start + 2,
        ));
        if tag == IMMUTABLE_OWNER_EXTENSION_ID {
            return true;
        }
        if end - start < 4 {
            return false;
        }
        let declared_len = vstd::bytes::u16_from_le_bytes(vstd::slice::slice_subrange(
            data,
            start + 2,
            start + 4,
        )) as usize;
        let room = end - (start + 4);
        if declared_len + 2 > room {
            return false;
        }
        start = start + 4 + declared_len;
    }
    false
}

} // verus!
