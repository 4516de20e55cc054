//! The membership removal: destroy a wallet entry, return its storage
//! deposit to the list's authority, and decrement the list's counter.
//!
//! Every check precedes every mutation, so a failing invocation leaves all
//! three accounts exactly as they were.

use vstd::prelude::*;

use crate::account::bytes_equal;
use crate::account::default_owner;
use crate::account::program_id;
use crate::account::spec_default_owner;
use crate::account::spec_program_id;
use crate::account::AccountInfo;
use crate::account::AccountInfoView;
use crate::error::ABLError;
use crate::error::ProgramError;
use crate::state::list_config::ListConfigView;
use crate::state::load;
use crate::state::load_mut_unchecked;
use crate::state::spec_load;
use crate::state::spec_load_unchecked;
use crate::state::ListConfig;
use crate::state::WalletEntry;

verus! {

/// The ordered accounts of one removal: the signing authority, the list
/// configuration, and the wallet entry to destroy.
#[derive(Debug)]
pub struct RemoveWallet {
    pub authority: AccountInfo,
    pub list_config: AccountInfo,
    pub wallet_entry: AccountInfo,
}

/// What [`RemoveWallet::try_from_accounts`] returns: exactly three
/// accounts, the list owned by this program, both record accounts
/// writable, and the entry a live record referencing this exact list.
pub open spec fn spec_try_from_accounts(accounts: Seq<AccountInfo>) -> Result<
    RemoveWallet,
    ABLError,
> {
    if accounts.len() != 3 {
        Err(ABLError::NotEnoughAccounts)
    } else if accounts[1].owner@ != spec_program_id() {
        Err(ABLError::InvalidConfigAccount)
    } else if !accounts[1].is_writable || !accounts[2].is_writable {
        Err(ABLError::AccountNotWritable)
    } else {
        match spec_load::<WalletEntry>(accounts[2].data@) {
            Err(e) => Err(e),
            Ok(entry) => if entry.list_config != accounts[1].key@ {
                Err(ABLError::InvalidWalletEntry)
            } else {
                Ok(
                    RemoveWallet {
                        authority: accounts[0],
                        list_config: accounts[1],
                        wallet_entry: accounts[2],
                    },
                )
            },
        }
    }
}

/// What [`RemoveWallet::process`] returns: the list buffer must read as a
/// record, the authority must have signed and match the list's stored
/// authority, the deposit return must not overflow, and the counter must
/// not underflow.
pub open spec fn spec_process_result(s: RemoveWallet) -> Result<(), ProgramError> {
    match spec_load_unchecked::<ListConfig>(s.list_config.data@) {
        Err(e) => Err(ProgramError::Acl(e)),
        Ok(cfg) => if !s.authority.is_signer || cfg.authority != s.authority.key@ {
            Err(ProgramError::Acl(ABLError::InvalidAuthority))
        } else if s.authority.lamports + s.wallet_entry.lamports > u64::MAX {
            Err(ProgramError::ArithmeticOverflow)
        } else if cfg.wallets_count == 0 {
            Err(ProgramError::ArithmeticOverflow)
        } else {
            Ok(())
        },
    }
}

/// Removal is not repeatable: a successful removal closes the entry's
/// storage, and constructing a second removal over a closed entry fails,
/// whatever the other two accounts hold.
pub proof fn lemma_removal_not_repeatable(accounts: Seq<AccountInfo>)
    requires
        accounts.len() == 3,
        accounts[2].data@.len() == 0,
    ensures
        spec_try_from_accounts(accounts) is Err,
{
}

/// The counter never underflows: removal against a list whose counter is
/// already zero fails, and by [`RemoveWallet::process`]'s contract leaves
/// every account unchanged.
pub proof fn lemma_counter_never_underflows(s: RemoveWallet)
    requires
        spec_load_unchecked::<ListConfig>(s.list_config.data@) is Ok,
        spec_load_unchecked::<ListConfig>(s.list_config.data@)->Ok_0.wallets_count == 0,
    ensures
        spec_process_result(s) is Err,
{
}

/// The sum of a sequence of storage deposits.
pub open spec fn spec_sum_deposits(deposits: Seq<u64>) -> int
    decreases deposits.len(),
{
    if deposits.len() == 0 {
        0
    } else {
        deposits[0] + spec_sum_deposits(deposits.drop_first())
    }
}

/// One successful removal, at the counter-and-balance level: the list's
/// counter comes down by one and the authority's balance grows by the
/// removed entry's deposit — the exact effect [`RemoveWallet::process`]
/// proves of each successful call.
pub open spec fn spec_remove_step(count: int, balance: int, deposit: u64) -> (int, int) {
    (count - 1, balance + deposit)
}

/// [`spec_remove_step`] applied over a whole sequence of deposits, first
/// to last.
pub open spec fn spec_drain(count: int, balance: int, deposits: Seq<u64>) -> (int, int)
    decreases deposits.len(),
{
    if deposits.len() == 0 {
        (count, balance)
    } else {
        let step = spec_remove_step(count, balance, deposits[0]);
        spec_drain(step.0, step.1, deposits.drop_first())
    }
}

/// Round trip: removing every one of a list's membership entries brings
/// the counter back to zero and pays the authority exactly the sum of the
/// removed entries' deposits.
pub proof fn lemma_drain_restores_counter_and_pays_deposits(
    count: int,
    balance: int,
    deposits: Seq<u64>,
)
    requires
        count == deposits.len(),
    ensures
        spec_drain(count, balance, deposits) == (0int, balance + spec_sum_deposits(deposits)),
    decreases deposits.len(),
{
    if deposits.len() == 0 {
    } else {
        lemma_drain_restores_counter_and_pays_deposits(
            count - 1,
            balance + deposits[0],
            deposits.drop_first(),
        );
    }
}

impl RemoveWallet {
    /// The instruction tag the router dispatches to this operation.
    pub const DISCRIMINATOR: u8 = 3;

    /// Bind an ordered account list to the removal's shape and reject a
    /// pairing of the entry with a foreign list before any mutation is
    /// possible.
    pub fn try_from_accounts(accounts: Vec<AccountInfo>) -> (r: Result<RemoveWallet, ABLError>)
        ensures
            r == spec_try_from_accounts(accounts@),
    {
        let mut accounts = accounts;
        if accounts.len() != 3 {
            return Err(ABLError::NotEnoughAccounts);
        }
        let wallet_entry = accounts.pop().unwrap();
        let list_config = accounts.pop().unwrap();
        let authority = accounts.pop().unwrap();
        let pid = program_id();
        if !list_config.is_owned_by(pid.as_slice()) {
            return Err(ABLError::InvalidConfigAccount);
        }
        if !list_config.is_writable || !wallet_entry.is_writable {
            return Err(ABLError::AccountNotWritable);
        }
        let entry = match load::<WalletEntry>(wallet_entry.data.as_slice()) {
            Ok(w) => w,
            Err(e) => {
                return Err(e);
            },
        };
        if !bytes_equal(entry.list_config.as_slice(), list_config.key.as_slice()) {
            return Err(ABLError::InvalidWalletEntry);
        }
        Ok(RemoveWallet { authority, list_config, wallet_entry })
    }

    /// Carry out the removal: move the entry's deposit to the authority,
    /// close the entry's storage, and take the entry off the list's
    /// counter. On any failure nothing has changed.
    pub fn process(&mut self) -> (r: Result<(), ProgramError>)
        ensures
            r == spec_process_result(*old(self)),
            r is Err ==> {
                &&& final(self).authority@ == old(self).authority@
                &&& final(self).list_config@ == old(self).list_config@
                &&& final(self).wallet_entry@ == old(self).wallet_entry@
            },
            r is Ok ==> {
                let cfg = spec_load_unchecked::<ListConfig>(
                    old(self).list_config.data@,
                )->Ok_0;
                &&& final(self).authority@ == (AccountInfoView {
                    lamports: (old(self).authority.lamports
                        + old(self).wallet_entry.lamports) as u64,
                    ..old(self).authority@
                })
                &&& final(self).wallet_entry@ == (AccountInfoView {
                    lamports: 0u64,
                    data: Seq::<u8>::empty(),
                    owner: spec_default_owner(),
                    ..old(self).wallet_entry@
                })
                &&& final(self).list_config@ == (AccountInfoView {
                    data: (ListConfigView {
                        wallets_count: (cfg.wallets_count - 1) as u64,
                        ..cfg
                    }).spec_serialize(),
                    ..old(self).list_config@
                })
            },
    {
        let mut list_record = match load_mut_unchecked::<ListConfig>(&mut self.list_config.data) {
            Ok(c) => c,
            Err(e) => {
                return Err(ProgramError::Acl(e));
            },
        };
        if !self.authority.is_signer || !bytes_equal(
            list_record.authority.as_slice(),
            self.authority.key.as_slice(),
        ) {
            return Err(ProgramError::Acl(ABLError::InvalidAuthority));
        }
        let deposit = self.wallet_entry.lamports;
        if self.authority.lamports > u64::MAX - deposit {
            return Err(ProgramError::ArithmeticOverflow);
        }
        if list_record.wallets_count == 0 {
            return Err(ProgramError::ArithmeticOverflow);
        }
        // Every check has passed; the mutations below cannot fail.
        self.authority.lamports = self.authority.lamports + deposit;
        self.wallet_entry.lamports = 0;
        self.wallet_entry.data.clear();
        self.wallet_entry.owner = default_owner();
        list_record.decrement_wallets_count()?;
        self.list_config.data = list_record.to_bytes();
        Ok(())
    }
}

} // verus!
