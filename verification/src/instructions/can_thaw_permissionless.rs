//! The authorization check: may this owner have its token account thawed?
//!
//! The check never mutates ACL state. It requires the token account to
//! carry the immutable-owner extension, then evaluates every supplied
//! `(list, wallet entry)` pair independently, in order, and passes only
//! when every pair passes; the first failing pair's error is the result.

use vstd::prelude::*;

use crate::account::bytes_equal;
use crate::account::default_owner;
use crate::account::program_id;
use crate::account::spec_default_owner;
use crate::account::spec_program_id;
use crate::account::AccountInfo;
use crate::curve::is_valid_curve_point;
use crate::curve::validate_edwards_key;
use crate::error::ABLError;
use crate::error::ProgramError;
use crate::state::has_immutable_owner_extension;
use crate::state::list_config::Mode;
use crate::state::load;
use crate::state::spec_has_immutable_owner_extension;
use crate::state::spec_load;
use crate::state::ListConfig;
use crate::state::WalletEntry;

verus! {

/// The ordered accounts of one authorization check: a fixed prefix, then
/// `(list, wallet entry)` pairs.
#[derive(Debug)]
pub struct CanThawPermissionless {
    pub authority: AccountInfo,
    pub token_account: AccountInfo,
    pub mint: AccountInfo,
    pub owner: AccountInfo,
    pub extra_metas: AccountInfo,
    pub remaining_accounts: Vec<AccountInfo>,
}

/// Whether the wallet entry is a live membership record of this exact
/// list: it loads as an initialized record, its account is owned by this
/// program, and its back-reference names the list's address.
pub open spec fn spec_is_valid_member(list: AccountInfo, wallet_entry: AccountInfo) -> bool {
    &&& spec_load::<WalletEntry>(wallet_entry.data@) is Ok
    &&& wallet_entry.owner@ == spec_program_id()
    &&& spec_load::<WalletEntry>(wallet_entry.data@)->Ok_0.list_config == list.key@
}

/// The membership test shared by `Allow` mode and the fallback of
/// `AllowAllEoas` mode: an absent or uninitialized record denies
/// (`AccountBlocked`); a live record with the wrong owner or the wrong
/// back-reference is rejected as forged (`InvalidWalletEntry`).
pub open spec fn spec_wallet_entry_check(list: AccountInfo, wallet_entry: AccountInfo) -> Result<
    (),
    ProgramError,
> {
    match spec_load::<WalletEntry>(wallet_entry.data@) {
        Ok(entry) => if wallet_entry.owner@ != spec_program_id() || entry.list_config
            != list.key@ {
            Err(ProgramError::Acl(ABLError::InvalidWalletEntry))
        } else {
            Ok(())
        },
        Err(_) => Err(ProgramError::Acl(ABLError::AccountBlocked)),
    }
}

/// The `Block`-mode test: the entry account must be owned by this program
/// or by nobody (any other owner is a forged pairing); a live record that
/// references this list is an explicit block; a record that does not load
/// means the wallet is not blocked.
pub open spec fn spec_block_check(list: AccountInfo, wallet_entry: AccountInfo) -> Result<
    (),
    ProgramError,
> {
    if wallet_entry.owner@ != spec_default_owner() && wallet_entry.owner@ != spec_program_id() {
        Err(ProgramError::Acl(ABLError::InvalidWalletEntry))
    } else {
        match spec_load::<WalletEntry>(wallet_entry.data@) {
            Ok(entry) => if entry.list_config != list.key@ {
                Err(ProgramError::Acl(ABLError::InvalidWalletEntry))
            } else {
                Err(ProgramError::Acl(ABLError::AccountBlocked))
            },
            Err(_) => Ok(()),
        }
    }
}

/// What [`validate_thaw_list`] returns: one pair's decision, keyed on the
/// list's mode.
pub open spec fn spec_validate_thaw_list(
    list: AccountInfo,
    owner: AccountInfo,
    wallet_entry: AccountInfo,
) -> Result<(), ProgramError> {
    if list.owner@ != spec_program_id() {
        Err(ProgramError::Acl(ABLError::InvalidConfigAccount))
    } else {
        match spec_load::<ListConfig>(list.data@) {
            Err(e) => Err(ProgramError::Acl(e)),
            Ok(cfg) => match cfg.spec_mode() {
                Mode::Allow => spec_wallet_entry_check(list, wallet_entry),
                Mode::AllowAllEoas => if is_valid_curve_point(owner.key@) {
                    Ok(())
                } else {
                    spec_wallet_entry_check(list, wallet_entry)
                },
                Mode::Block => spec_block_check(list, wallet_entry),
            },
        }
    }
}

/// The decision over the pairs at positions `i, i+1, ...`: pass only when
/// every pair passes, with the first failure as the result.
pub open spec fn spec_check_pairs(
    remaining: Seq<AccountInfo>,
    owner: AccountInfo,
    i: int,
) -> Result<(), ProgramError>
    decreases remaining.len() - i,
{
    if i < 0 || i + 2 > remaining.len() {
        Ok(())
    } else {
        match spec_validate_thaw_list(remaining[i], owner, remaining[i + 1]) {
            Ok(_) => spec_check_pairs(remaining, owner, i + 2),
            Err(e) => Err(e),
        }
    }
}

/// What [`CanThawPermissionless::process`] returns.
pub open spec fn spec_process(s: CanThawPermissionless) -> Result<(), ProgramError> {
    if !spec_has_immutable_owner_extension(s.token_account.data@) {
        Err(ProgramError::Acl(ABLError::ImmutableOwnerExtensionMissing))
    } else {
        spec_check_pairs(s.remaining_accounts@, s.owner, 0)
    }
}

/// In `Allow` mode the pair passes exactly when a correctly-owned wallet
/// entry back-references the exact list; an absent or uninitialized record
/// denies with `AccountBlocked`, and a live record with the wrong owner or
/// the wrong back-reference fails as `InvalidWalletEntry`.
pub proof fn lemma_allow_mode_passes_iff_member(
    list: AccountInfo,
    owner: AccountInfo,
    wallet_entry: AccountInfo,
)
    requires
        list.owner@ == spec_program_id(),
        spec_load::<ListConfig>(list.data@) is Ok,
        spec_load::<ListConfig>(list.data@)->Ok_0.spec_mode() == Mode::Allow,
    ensures
        spec_validate_thaw_list(list, owner, wallet_entry) is Ok <==> spec_is_valid_member(
            list,
            wallet_entry,
        ),
        !(spec_load::<WalletEntry>(wallet_entry.data@) is Ok) ==> spec_validate_thaw_list(
            list,
            owner,
            wallet_entry,
        ) == Err::<(), ProgramError>(ProgramError::Acl(ABLError::AccountBlocked)),
        spec_load::<WalletEntry>(wallet_entry.data@) is Ok && !spec_is_valid_member(
            list,
            wallet_entry,
        ) ==> spec_validate_thaw_list(list, owner, wallet_entry) == Err::<(), ProgramError>(
            ProgramError::Acl(ABLError::InvalidWalletEntry),
        ),
{
}

/// In `Block` mode the pair passes exactly when no live wallet entry
/// exists (absence means not blocked) and the entry account is owned by
/// this program or by nobody; a live record referencing the list is an
/// explicit block, and a back-reference mismatch or a foreign owner is
/// rejected as `InvalidWalletEntry` regardless of block intent.
pub proof fn lemma_block_mode_passes_iff_absent(
    list: AccountInfo,
    owner: AccountInfo,
    wallet_entry: AccountInfo,
)
    requires
        list.owner@ == spec_program_id(),
        spec_load::<ListConfig>(list.data@) is Ok,
        spec_load::<ListConfig>(list.data@)->Ok_0.spec_mode() == Mode::Block,
    ensures
        spec_validate_thaw_list(list, owner, wallet_entry) is Ok <==> ((wallet_entry.owner@
            == spec_default_owner() || wallet_entry.owner@ == spec_program_id()) && !(spec_load::<
            WalletEntry,
        >(wallet_entry.data@) is Ok)),
        wallet_entry.owner@ != spec_default_owner() && wallet_entry.owner@ != spec_program_id()
            ==> spec_validate_thaw_list(list, owner, wallet_entry) == Err::<(), ProgramError>(
            ProgramError::Acl(ABLError::InvalidWalletEntry),
        ),
        (wallet_entry.owner@ == spec_default_owner() || wallet_entry.owner@ == spec_program_id())
            && spec_load::<WalletEntry>(wallet_entry.data@) is Ok ==> spec_validate_thaw_list(
            list,
            owner,
            wallet_entry,
        ) == (if spec_load::<WalletEntry>(wallet_entry.data@)->Ok_0.list_config != list.key@ {
            Err::<(), ProgramError>(ProgramError::Acl(ABLError::InvalidWalletEntry))
        } else {
            Err::<(), ProgramError>(ProgramError::Acl(ABLError::AccountBlocked))
        }),
{
}

/// In `AllowAllEoas` mode a valid-curve-point owner always passes, with no
/// wallet entry consulted; an invalid-curve-point owner is held to exactly
/// the `Allow`-mode membership rule.
pub proof fn lemma_allow_all_eoas_mode(
    list: AccountInfo,
    owner: AccountInfo,
    wallet_entry: AccountInfo,
)
    requires
        list.owner@ == spec_program_id(),
        spec_load::<ListConfig>(list.data@) is Ok,
        spec_load::<ListConfig>(list.data@)->Ok_0.spec_mode() == Mode::AllowAllEoas,
    ensures
        is_valid_curve_point(owner.key@) ==> spec_validate_thaw_list(list, owner, wallet_entry)
            == Ok::<(), ProgramError>(()),
        !is_valid_curve_point(owner.key@) ==> spec_validate_thaw_list(list, owner, wallet_entry)
            == spec_wallet_entry_check(list, wallet_entry),
{
}

/// The whole pair walk passes exactly when every pair passes.
pub proof fn lemma_check_passes_iff_every_pair_passes(
    remaining: Seq<AccountInfo>,
    owner: AccountInfo,
    i: int,
)
    requires
        i >= 0,
    ensures
        spec_check_pairs(remaining, owner, i) is Ok <==> (forall|j: int|
            i <= j && j + 2 <= remaining.len() && (j - i) % 2 == 0
                ==> #[trigger] spec_validate_thaw_list(remaining[j], owner, remaining[j + 1])
                is Ok),
    decreases remaining.len() - i,
{
    if i + 2 > remaining.len() {
    } else {
        lemma_check_passes_iff_every_pair_passes(remaining, owner, i + 2);
        if spec_validate_thaw_list(remaining[i], owner, remaining[i + 1]) is Ok {
            assert forall|j: int|
                i <= j && j + 2 <= remaining.len() && (j - i) % 2 == 0 && spec_check_pairs(
                    remaining,
                    owner,
                    i,
                ) is Ok implies #[trigger] spec_validate_thaw_list(
                remaining[j],
                owner,
                remaining[j + 1],
            ) is Ok by {
                if j != i {
                    assert(j >= i + 2 && (j - (i + 2)) % 2 == 0);
                }
            }
        }
    }
}

/// Evaluate one `(list, wallet entry)` pair against the owner's key.
pub fn validate_thaw_list(
    list: &AccountInfo,
    owner: &AccountInfo,
    wallet_entry: &AccountInfo,
) -> (r: Result<(), ProgramError>)
    requires
        owner.key@.len() == 32,
    ensures
        r == spec_validate_thaw_list(*list, *owner, *wallet_entry),
{
    let pid = program_id();
    if !list.is_owned_by(pid.as_slice()) {
        return Err(ProgramError::Acl(ABLError::InvalidConfigAccount));
    }
    let list_config = match load::<ListConfig>(list.data.as_slice()) {
        Ok(c) => c,
        Err(e) => {
            return Err(ProgramError::Acl(e));
        },
    };
    match list_config.get_mode() {
        Mode::Allow => wallet_entry_check(list, wallet_entry),
        Mode::AllowAllEoas => {
            if validate_edwards_key(&owner.key) {
                Ok(())
            } else {
                wallet_entry_check(list, wallet_entry)
            }
        },
        Mode::Block => block_check(list, wallet_entry),
    }
}

/// Executable twin of [`spec_wallet_entry_check`].
fn wallet_entry_check(list: &AccountInfo, wallet_entry: &AccountInfo) -> (r: Result<
    (),
    ProgramError,
>)
    ensures
        r == spec_wallet_entry_check(*list, *wallet_entry),
{
    let entry = match load::<WalletEntry>(wallet_entry.data.as_slice()) {
        Ok(w) => w,
        Err(_) => {
            return Err(ProgramError::Acl(ABLError::AccountBlocked));
        },
    };
    let pid = program_id();
    if !wallet_entry.is_owned_by(pid.as_slice()) || !bytes_equal(
        entry.list_config.as_slice(),
        list.key.as_slice(),
    ) {
        return Err(ProgramError::Acl(ABLError::InvalidWalletEntry));
    }
    Ok(())
}

/// Executable twin of [`spec_block_check`].
fn block_check(list: &AccountInfo, wallet_entry: &AccountInfo) -> (r: Result<(), ProgramError>)
    ensures
        r == spec_block_check(*list, *wallet_entry),
{
    let zero = default_owner();
    let pid = program_id();
    if !wallet_entry.is_owned_by(zero.as_slice()) && !wallet_entry.is_owned_by(pid.as_slice()) {
        return Err(ProgramError::Acl(ABLError::InvalidWalletEntry));
    }
    match load::<WalletEntry>(wallet_entry.data.as_slice()) {
        Ok(entry) => {
            if !bytes_equal(entry.list_config.as_slice(), list.key.as_slice()) {
                Err(ProgramError::Acl(ABLError::InvalidWalletEntry))
            } else {
                Err(ProgramError::Acl(ABLError::AccountBlocked))
            }
        },
        Err(_) => Ok(()),
    }
}

impl CanThawPermissionless {
    /// The instruction tag the router dispatches to this operation.
    pub const DISCRIMINATOR: u8 = 8;

    /// Run the whole authorization check over the supplied accounts.
    pub fn process(&self) -> (r: Result<(), ProgramError>)
        requires
            self.owner.key@.len() == 32,
            self.remaining_accounts@.len() % 2 == 0,
        ensures
            r == spec_process(*self),
    {
        if !has_immutable_owner_extension(&self.token_account) {
            return Err(ProgramError::Acl(ABLError::ImmutableOwnerExtensionMissing));
        }
        let n = self.remaining_accounts.len();
        let mut i: usize = 0;
        while i < n
            invariant
                i <= n,
                i % 2 == 0,
                n % 2 == 0,
                n == self.remaining_accounts@.len(),
                self.owner.key@.len() == 32,
                spec_has_immutable_owner_extension(self.token_account.data@),
                spec_check_pairs(self.remaining_accounts@, self.owner, 0) == spec_check_pairs(
                    self.remaining_accounts@,
                    self.owner,
                    i as int,
                ),
            decreases n - i,
        {
            let list = &self.remaining_accounts[i];
            let wallet_entry = &self.remaining_accounts[i + 1];
            match validate_thaw_list(list, &self.owner, wallet_entry) {
                Ok(_) => {},
                Err(e) => {
                    return Err(e);
                },
            }
            i = i + 2;
        }
        Ok(())
    }

    /// Bind an ordered account list to the check's shape: a six-account
    /// prefix, then an even number of trailing accounts forming the
    /// `(list, wallet entry)` pairs.
    pub fn try_from_accounts(accounts: Vec<AccountInfo>) -> (r: Result<
        CanThawPermissionless,
        ABLError,
    >)
        ensures
            accounts@.len() < 6 ==> r == Err::<CanThawPermissionless, ABLError>(
                ABLError::NotEnoughAccounts,
            ),
            accounts@.len() >= 6 && (accounts@.len() - 6) % 2 != 0 ==> r == Err::<
                CanThawPermissionless,
                ABLError,
            >(ABLError::InvalidRemainingAccounts),
            accounts@.len() >= 6 && (accounts@.len() - 6) % 2 == 0 ==> {
                &&& r is Ok
                &&& r->Ok_0.authority == accounts@[0]
                &&& r->Ok_0.token_account == accounts@[1]
                &&& r->Ok_0.mint == accounts@[2]
                &&& r->Ok_0.owner == accounts@[3]
                &&& r->Ok_0.extra_metas == accounts@[5]
                &&& r->Ok_0.remaining_accounts@ == accounts@.skip(6)
            },
    {
        let mut accounts = accounts;
        let ghost input = accounts@;
        if accounts.len() < 6 {
            return Err(ABLError::NotEnoughAccounts);
        }
        let remaining_accounts = accounts.split_off(6);
        if remaining_accounts.len() % 2 != 0 {
            return Err(ABLError::InvalidRemainingAccounts);
        }
        let extra_metas = accounts.pop().unwrap();
        let _flag_account = accounts.pop().unwrap();
        let owner = accounts.pop().unwrap();
        let mint = accounts.pop().unwrap();
        let token_account = accounts.pop().unwrap();
        let authority = accounts.pop().unwrap();
        proof {
            assert(remaining_accounts@ =~= input.skip(6));
        }
        Ok(
            CanThawPermissionless {
                authority,
                token_account,
                mint,
                owner,
                extra_metas,
                remaining_accounts,
            },
        )
    }
}

} // verus!
