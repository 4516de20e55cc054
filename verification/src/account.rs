//! The account model: a typed snapshot of one storage account.
//!
//! The host hands a program its accounts as raw memory regions; this library
//! works on a plain-value image of such a region. An [`AccountInfo`] carries
//! exactly the attributes the ACL logic reads: the account's address, the
//! owning program's address, the lamport balance, the data bytes, and the
//! signer/writable flags of the invocation.

use vstd::prelude::*;

verus! {

/// The byte every position of this program's own address holds.
///
/// Storage ownership is an explicit tagged attribute compared against this
/// configured constant; a deployment substitutes the address it was given.
pub const PROGRAM_ID_BYTE: u8 = 0xAB;

/// The address of this program's storage namespace. A record buffer is only
/// trusted as typed data when its account is owned by this address.
pub open spec fn spec_program_id() -> Seq<u8> {
    Seq::new(32, |i: int| PROGRAM_ID_BYTE)
}

/// The "empty" ownership marker: the address of an account that no program
/// has claimed (all zeroes).
pub open spec fn spec_default_owner() -> Seq<u8> {
    Seq::new(32, |i: int| 0u8)
}

/// One account of an invocation, as plain values.
#[derive(Debug)]
pub struct AccountInfo {
    /// The account's own address; a record account's address is its identity.
    pub key: Vec<u8>,
    /// The address of the program that owns the account's storage.
    pub owner: Vec<u8>,
    /// The account's balance, which doubles as its storage deposit.
    pub lamports: u64,
    /// The account's data bytes.
    pub data: Vec<u8>,
    /// Whether this account signed the invocation.
    pub is_signer: bool,
    /// Whether the invocation may mutate this account.
    pub is_writable: bool,
}

/// The mathematical image of an [`AccountInfo`].
pub struct AccountInfoView {
    pub key: Seq<u8>,
    pub owner: Seq<u8>,
    pub lamports: u64,
    pub data: Seq<u8>,
    pub is_signer: bool,
    pub is_writable: bool,
}

impl View for AccountInfo {
    type V = AccountInfoView;

    open spec fn view(&self) -> AccountInfoView {
        AccountInfoView {
            key: self.key@,
            owner: self.owner@,
            lamports: self.lamports,
            data: self.data@,
            is_signer: self.is_signer,
            is_writable: self.is_writable,
        }
    }
}

impl AccountInfo {
    /// Whether this account's storage belongs to the program at `program`.
    pub fn is_owned_by(&self, program: &[u8]) -> (r: bool)
        ensures
            r == (self.owner@ == program@),
    {
        bytes_equal(self.owner.as_slice(), program)
    }
}

/// Byte-for-byte equality of two byte strings.
pub fn bytes_equal(a: &[u8], b: &[u8]) -> (r: bool)
    ensures
        r == (a@ == b@),
{
    if a.len() != b.len() {
        return false;
    }
    let n = a.len();
    let mut i: usize = 0;
    while i < n
        invariant
            i <= n,
            n == a@.len(),
            n == b@.len(),
            forall|j: int| 0 <= j < i ==> a@[j] == b@[j],
        decreases n - i,
    {
        if a[i] != b[i] {
            return false;
        }
        i = i + 1;
    }
    proof {
        assert(a@ =~= b@);
    }
    true
}

/// A 32-byte vector holding `b` at every position.
fn byte_repeat32(b: u8) -> (r: Vec<u8>)
    ensures
        r@ == Seq::new(32, |i: int| b),
{
    let mut v: Vec<u8> = Vec::new();
    let mut i: usize = 0;
    while i < 32
        invariant
            i <= 32,
            v@.len() == i,
            forall|j: int| 0 <= j < i ==> v@[j] == b,
        decreases 32 - i,
    {
        v.push(b);
        i = i + 1;
    }
    proof {
        assert(v@ =~= Seq::new(32, |j: int| b));
    }
    v
}

/// Executable twin of [`spec_program_id`].
pub fn program_id() -> (r: Vec<u8>)
    ensures
        r@ == spec_program_id(),
{
    byte_repeat32(PROGRAM_ID_BYTE)
}

/// Executable twin of [`spec_default_owner`].
pub fn default_owner() -> (r: Vec<u8>)
    ensures
        r@ == spec_default_owner(),
{
    byte_repeat32(0)
}

} // verus!
