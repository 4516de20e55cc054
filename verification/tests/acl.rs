//! End-to-end tests of the ACL engine on concrete account buffers.

use token_acl::account::default_owner;
use token_acl::account::program_id;
use token_acl::state::list_config::LIST_CONFIG_DISCRIMINATOR;
use token_acl::state::list_config::LIST_CONFIG_LEN;
use token_acl::state::list_config::MODE_ALLOW;
use token_acl::state::list_config::MODE_ALLOW_ALL_EOAS;
use token_acl::state::list_config::MODE_BLOCK;
use token_acl::state::wallet_entry::WALLET_ENTRY_DISCRIMINATOR;
use token_acl::state::wallet_entry::WALLET_ENTRY_LEN;
use token_acl::state::EXTENSION_DATA_START_INDEX;
use token_acl::ABLError;
use token_acl::AccountInfo;
use token_acl::CanThawPermissionless;
use token_acl::ListConfig;
use token_acl::Mode;
use token_acl::ProgramError;
use token_acl::RemoveWallet;
use token_acl::WalletEntry;

/// The compressed ed25519 base point: a valid curve point, as an
/// externally-owned key is.
const VALID_CURVE_KEY: [u8; 32] = [
    0x58, 0x66, 0x66, 0x66, 0x66, 0x66, 0x66, 0x66, 0x66, 0x66, 0x66, 0x66, 0x66, 0x66, 0x66,
    0x66, 0x66, 0x66, 0x66, 0x66, 0x66, 0x66, 0x66, 0x66, 0x66, 0x66, 0x66, 0x66, 0x66, 0x66,
    0x66, 0x66,
];

/// Thirty-two bytes that do not decompress to a curve point, as a
/// program-derived address is expected to be.
const INVALID_CURVE_KEY: [u8; 32] = [
    120, 140, 152, 233, 41, 227, 203, 27, 87, 115, 25, 251, 219, 5, 84, 148, 117, 38, 84, 60, 87,
    144, 161, 146, 42, 34, 91, 155, 158, 189, 121, 79,
];

fn key32(b: u8) -> Vec<u8> {
    vec![b; 32]
}

fn account(key: Vec<u8>, owner: Vec<u8>, lamports: u64, data: Vec<u8>) -> AccountInfo {
    AccountInfo { key, owner, lamports, data, is_signer: false, is_writable: true }
}

fn list_config_bytes(authority: &[u8], mode: u8, wallets_count: u64) -> Vec<u8> {
    let mut v = vec![LIST_CONFIG_DISCRIMINATOR];
    v.extend_from_slice(authority);
    v.push(mode);
    v.extend_from_slice(&wallets_count.to_le_bytes());
    v
}

fn wallet_entry_bytes(list_key: &[u8], wallet: &[u8]) -> Vec<u8> {
    let mut v = vec![WALLET_ENTRY_DISCRIMINATOR];
    v.extend_from_slice(list_key);
    v.extend_from_slice(wallet);
    v
}

/// A token account buffer whose TLV region holds the given
/// `(type, data length, data)` extensions.
fn token_account_bytes(extensions: &[(u16, &[u8])]) -> Vec<u8> {
    let mut v = vec![0u8; EXTENSION_DATA_START_INDEX];
    for (tag, data) in extensions {
        v.extend_from_slice(&tag.to_le_bytes());
        v.extend_from_slice(&(data.len() as u16).to_le_bytes());
        v.extend_from_slice(data);
    }
    v
}

fn token_account_with_extension() -> Vec<u8> {
    token_account_bytes(&[(7, &[])])
}

fn list_account(key: &[u8], mode: u8, wallets_count: u64) -> AccountInfo {
    account(
        key.to_vec(),
        program_id(),
        0,
        list_config_bytes(&key32(0xA1), mode, wallets_count),
    )
}

fn member_account(list_key: &[u8], wallet: &[u8]) -> AccountInfo {
    account(key32(0xE1), program_id(), 0, wallet_entry_bytes(list_key, wallet))
}

fn absent_account() -> AccountInfo {
    account(key32(0xE2), default_owner(), 0, vec![0u8; WALLET_ENTRY_LEN])
}

/// The full ordered account list of one check: the six-account prefix,
/// then the supplied pairs.
fn check_accounts(
    token_data: Vec<u8>,
    owner_key: Vec<u8>,
    pairs: Vec<AccountInfo>,
) -> Vec<AccountInfo> {
    let mut accounts = vec![
        account(key32(0x01), default_owner(), 0, Vec::new()),
        account(key32(0x02), default_owner(), 0, token_data),
        account(key32(0x03), default_owner(), 0, Vec::new()),
        account(owner_key, default_owner(), 0, Vec::new()),
        account(key32(0x05), default_owner(), 0, Vec::new()),
        account(key32(0x06), default_owner(), 0, Vec::new()),
    ];
    accounts.extend(pairs);
    accounts
}

fn run_check(token_data: Vec<u8>, owner_key: Vec<u8>, pairs: Vec<AccountInfo>) -> Result<
    (),
    ProgramError,
> {
    let check =
        CanThawPermissionless::try_from_accounts(check_accounts(token_data, owner_key, pairs))
            .unwrap();
    check.process()
}

#[test]
fn missing_extension_fails_every_mode() {
    for mode in [MODE_ALLOW, MODE_ALLOW_ALL_EOAS, MODE_BLOCK] {
        let list_key = key32(0x10);
        let list = list_account(&list_key, mode, 1);
        let member = member_account(&list_key, &key32(0x20));
        let r = run_check(vec![0u8; EXTENSION_DATA_START_INDEX], key32(0x20), vec![list, member]);
        assert_eq!(
            r,
            Err(ProgramError::Acl(ABLError::ImmutableOwnerExtensionMissing)),
            "mode {mode}"
        );
    }
}

#[test]
fn extension_short_buffer_is_absent() {
    let r = run_check(vec![0u8; 165], key32(0x20), vec![]);
    assert_eq!(r, Err(ProgramError::Acl(ABLError::ImmutableOwnerExtensionMissing)));
}

#[test]
fn extension_found_at_first_position() {
    let r = run_check(token_account_with_extension(), key32(0x20), vec![]);
    assert_eq!(r, Ok(()));
}

#[test]
fn extension_found_at_later_position() {
    let data = token_account_bytes(&[(3, &[1, 2, 3, 4]), (12, &[]), (7, &[9])]);
    let r = run_check(data, key32(0x20), vec![]);
    assert_eq!(r, Ok(()));
}

#[test]
fn extension_other_tags_only_is_absent() {
    let data = token_account_bytes(&[(3, &[1, 2]), (12, &[])]);
    let r = run_check(data, key32(0x20), vec![]);
    assert_eq!(r, Err(ProgramError::Acl(ABLError::ImmutableOwnerExtensionMissing)));
}

#[test]
fn extension_truncated_trailing_header_is_absent() {
    // One whole foreign extension, then a single stray byte: the scan must
    // stop without reading past the end.
    let mut data = token_account_bytes(&[(3, &[])]);
    data.push(7);
    let r = run_check(data, key32(0x20), vec![]);
    assert_eq!(r, Err(ProgramError::Acl(ABLError::ImmutableOwnerExtensionMissing)));
}

#[test]
fn tag_bytes_inside_foreign_data_not_found() {
    // The immutable-owner tag pattern occurs only inside another
    // extension's data; the scan must step over it, not find it.
    let data = token_account_bytes(&[(3, &[7, 0, 7, 0]), (12, &[])]);
    let r = run_check(data, key32(0x20), vec![]);
    assert_eq!(r, Err(ProgramError::Acl(ABLError::ImmutableOwnerExtensionMissing)));
}

#[test]
fn odd_remaining_accounts_rejected() {
    let list_key = key32(0x10);
    let mut accounts = check_accounts(token_account_with_extension(), key32(0x20), vec![]);
    accounts.push(list_account(&list_key, MODE_ALLOW, 1));
    assert_eq!(
        CanThawPermissionless::try_from_accounts(accounts).unwrap_err(),
        ABLError::InvalidRemainingAccounts
    );
}

#[test]
fn too_few_accounts_rejected() {
    let accounts = vec![
        account(key32(0x01), default_owner(), 0, Vec::new()),
        account(key32(0x02), default_owner(), 0, Vec::new()),
    ];
    assert_eq!(
        CanThawPermissionless::try_from_accounts(accounts).unwrap_err(),
        ABLError::NotEnoughAccounts
    );
}

#[test]
fn allow_mode_member_passes() {
    let list_key = key32(0x10);
    let owner_key = key32(0x20);
    let list = list_account(&list_key, MODE_ALLOW, 1);
    let member = member_account(&list_key, &owner_key);
    let r = run_check(token_account_with_extension(), owner_key, vec![list, member]);
    assert_eq!(r, Ok(()));
}

#[test]
fn allow_mode_zeroed_entry_blocked() {
    let list_key = key32(0x10);
    let list = list_account(&list_key, MODE_ALLOW, 0);
    let r = run_check(token_account_with_extension(), key32(0x20), vec![list, absent_account()]);
    assert_eq!(r, Err(ProgramError::Acl(ABLError::AccountBlocked)));
}

#[test]
fn allow_mode_foreign_owned_entry_rejected() {
    let list_key = key32(0x10);
    let list = list_account(&list_key, MODE_ALLOW, 1);
    let mut member = member_account(&list_key, &key32(0x20));
    member.owner = key32(0x77);
    let r = run_check(token_account_with_extension(), key32(0x20), vec![list, member]);
    assert_eq!(r, Err(ProgramError::Acl(ABLError::InvalidWalletEntry)));
}

#[test]
fn allow_mode_wrong_back_reference_rejected() {
    let list_key = key32(0x10);
    let list = list_account(&list_key, MODE_ALLOW, 1);
    let member = member_account(&key32(0x11), &key32(0x20));
    let r = run_check(token_account_with_extension(), key32(0x20), vec![list, member]);
    assert_eq!(r, Err(ProgramError::Acl(ABLError::InvalidWalletEntry)));
}

#[test]
fn list_not_owned_by_program_rejected() {
    let list_key = key32(0x10);
    let mut list = list_account(&list_key, MODE_ALLOW, 1);
    list.owner = key32(0x77);
    let member = member_account(&list_key, &key32(0x20));
    let r = run_check(token_account_with_extension(), key32(0x20), vec![list, member]);
    assert_eq!(r, Err(ProgramError::Acl(ABLError::InvalidConfigAccount)));
}

#[test]
fn uninitialized_list_rejected() {
    let list_key = key32(0x10);
    let list = account(list_key.clone(), program_id(), 0, vec![0u8; LIST_CONFIG_LEN]);
    let member = member_account(&list_key, &key32(0x20));
    let r = run_check(token_account_with_extension(), key32(0x20), vec![list, member]);
    assert_eq!(r, Err(ProgramError::Acl(ABLError::InvalidAccountData)));
}

#[test]
fn invalid_mode_byte_rejected() {
    let list_key = key32(0x10);
    let list = account(
        list_key.clone(),
        program_id(),
        0,
        list_config_bytes(&key32(0xA1), 9, 1),
    );
    let member = member_account(&list_key, &key32(0x20));
    let r = run_check(token_account_with_extension(), key32(0x20), vec![list, member]);
    assert_eq!(r, Err(ProgramError::Acl(ABLError::InvalidAccountData)));
}

#[test]
fn block_mode_absent_entry_passes() {
    let list_key = key32(0x10);
    let list = list_account(&list_key, MODE_BLOCK, 1);
    let r = run_check(token_account_with_extension(), key32(0x20), vec![list, absent_account()]);
    assert_eq!(r, Ok(()));
}

#[test]
fn block_mode_live_entry_blocked() {
    let list_key = key32(0x10);
    let owner_key = key32(0x20);
    let list = list_account(&list_key, MODE_BLOCK, 1);
    let member = member_account(&list_key, &owner_key);
    let r = run_check(token_account_with_extension(), owner_key, vec![list, member]);
    assert_eq!(r, Err(ProgramError::Acl(ABLError::AccountBlocked)));
}

#[test]
fn block_mode_wrong_back_reference_rejected() {
    let list_key = key32(0x10);
    let list = list_account(&list_key, MODE_BLOCK, 1);
    let member = member_account(&key32(0x11), &key32(0x20));
    let r = run_check(token_account_with_extension(), key32(0x20), vec![list, member]);
    assert_eq!(r, Err(ProgramError::Acl(ABLError::InvalidWalletEntry)));
}

#[test]
fn block_mode_foreign_owned_entry_rejected() {
    let list_key = key32(0x10);
    let list = list_account(&list_key, MODE_BLOCK, 1);
    let mut entry = absent_account();
    entry.owner = key32(0x77);
    let r = run_check(token_account_with_extension(), key32(0x20), vec![list, entry]);
    assert_eq!(r, Err(ProgramError::Acl(ABLError::InvalidWalletEntry)));
}

#[test]
fn allow_all_eoas_valid_curve_point_passes() {
    let list_key = key32(0x10);
    let list = list_account(&list_key, MODE_ALLOW_ALL_EOAS, 0);
    // No live wallet entry anywhere: the curve test alone must pass.
    let r = run_check(
        token_account_with_extension(),
        VALID_CURVE_KEY.to_vec(),
        vec![list, absent_account()],
    );
    assert_eq!(r, Ok(()));
}

#[test]
fn allow_all_eoas_invalid_curve_point_needs_membership() {
    let list_key = key32(0x10);
    let list = list_account(&list_key, MODE_ALLOW_ALL_EOAS, 0);
    let r = run_check(
        token_account_with_extension(),
        INVALID_CURVE_KEY.to_vec(),
        vec![list, absent_account()],
    );
    assert_eq!(r, Err(ProgramError::Acl(ABLError::AccountBlocked)));

    let list = list_account(&list_key, MODE_ALLOW_ALL_EOAS, 1);
    let member = member_account(&list_key, &INVALID_CURVE_KEY);
    let r = run_check(
        token_account_with_extension(),
        INVALID_CURVE_KEY.to_vec(),
        vec![list, member],
    );
    assert_eq!(r, Ok(()));
}

#[test]
fn every_pair_must_pass() {
    let first_key = key32(0x10);
    let second_key = key32(0x11);
    let owner_key = key32(0x20);
    let first = list_account(&first_key, MODE_ALLOW, 1);
    let first_member = member_account(&first_key, &owner_key);
    let second = list_account(&second_key, MODE_ALLOW, 0);
    let r = run_check(
        token_account_with_extension(),
        owner_key,
        vec![first, first_member, second, absent_account()],
    );
    assert_eq!(r, Err(ProgramError::Acl(ABLError::AccountBlocked)));
}

#[test]
fn no_pairs_passes_with_extension() {
    let r = run_check(token_account_with_extension(), key32(0x20), vec![]);
    assert_eq!(r, Ok(()));
}

fn removal_accounts(
    authority_key: &[u8],
    authority_lamports: u64,
    list_key: &[u8],
    wallets_count: u64,
    entry_lamports: u64,
) -> Vec<AccountInfo> {
    let mut authority = account(authority_key.to_vec(), default_owner(), authority_lamports, Vec::new());
    authority.is_signer = true;
    let list = account(
        list_key.to_vec(),
        program_id(),
        0,
        list_config_bytes(authority_key, MODE_ALLOW, wallets_count),
    );
    let entry = account(
        key32(0xE1),
        program_id(),
        entry_lamports,
        wallet_entry_bytes(list_key, &key32(0x20)),
    );
    vec![authority, list, entry]
}

#[test]
fn removal_pays_deposit_and_decrements() {
    let authority_key = key32(0xA1);
    let accounts = removal_accounts(&authority_key, 100, &key32(0x10), 1, 40);
    let mut rw = RemoveWallet::try_from_accounts(accounts).unwrap();
    assert_eq!(rw.process(), Ok(()));
    assert_eq!(rw.authority.lamports, 140);
    assert_eq!(rw.wallet_entry.lamports, 0);
    assert!(rw.wallet_entry.data.is_empty());
    assert_eq!(rw.wallet_entry.owner, default_owner());
    let cfg: ListConfig = token_acl::load(rw.list_config.data.as_slice()).unwrap();
    assert_eq!(cfg.wallets_count, 0);
    assert_eq!(cfg.authority, authority_key);
}

#[test]
fn removal_by_non_authority_changes_nothing() {
    let accounts = removal_accounts(&key32(0xA1), 100, &key32(0x10), 1, 40);
    let mut wrong = clone_accounts(&accounts);
    wrong[0].key = key32(0xB2);
    let mut rw = RemoveWallet::try_from_accounts(wrong).unwrap();
    assert_eq!(rw.process(), Err(ProgramError::Acl(ABLError::InvalidAuthority)));
    assert_eq!(rw.authority.lamports, 100);
    assert_eq!(rw.list_config.data, accounts[1].data);
    assert_eq!(rw.wallet_entry.data, accounts[2].data);
}

#[test]
fn removal_by_non_signer_changes_nothing() {
    let accounts = removal_accounts(&key32(0xA1), 100, &key32(0x10), 1, 40);
    let mut unsigned = clone_accounts(&accounts);
    unsigned[0].is_signer = false;
    let mut rw = RemoveWallet::try_from_accounts(unsigned).unwrap();
    assert_eq!(rw.process(), Err(ProgramError::Acl(ABLError::InvalidAuthority)));
    assert_eq!(rw.authority.lamports, 100);
    assert_eq!(rw.list_config.data, accounts[1].data);
    assert_eq!(rw.wallet_entry.data, accounts[2].data);
}

#[test]
fn removal_twice_fails() {
    let authority_key = key32(0xA1);
    let accounts = removal_accounts(&authority_key, 100, &key32(0x10), 2, 40);
    let mut rw = RemoveWallet::try_from_accounts(accounts).unwrap();
    assert_eq!(rw.process(), Ok(()));
    let again = vec![rw.authority, rw.list_config, rw.wallet_entry];
    assert_eq!(
        RemoveWallet::try_from_accounts(again).unwrap_err(),
        ABLError::InvalidAccountData
    );
}

#[test]
fn removal_round_trip_restores_counter() {
    let authority_key = key32(0xA1);
    let list_key = key32(0x10);
    let deposits: [u64; 3] = [10, 20, 30];
    let mut authority =
        account(authority_key.clone(), default_owner(), 100, Vec::new());
    authority.is_signer = true;
    let mut list = account(
        list_key.clone(),
        program_id(),
        0,
        list_config_bytes(&authority_key, MODE_ALLOW, deposits.len() as u64),
    );
    for (i, deposit) in deposits.iter().enumerate() {
        let entry = account(
            key32(0xE1 + i as u8),
            program_id(),
            *deposit,
            wallet_entry_bytes(&list_key, &key32(0x20 + i as u8)),
        );
        let mut rw = RemoveWallet::try_from_accounts(vec![authority, list, entry]).unwrap();
        assert_eq!(rw.process(), Ok(()));
        authority = rw.authority;
        list = rw.list_config;
    }
    assert_eq!(authority.lamports, 160);
    let cfg: ListConfig = token_acl::load(list.data.as_slice()).unwrap();
    assert_eq!(cfg.wallets_count, 0);
}

#[test]
fn removal_counter_underflow_is_fatal() {
    let accounts = removal_accounts(&key32(0xA1), 100, &key32(0x10), 0, 40);
    let mut rw = RemoveWallet::try_from_accounts(accounts).unwrap();
    assert_eq!(rw.process(), Err(ProgramError::ArithmeticOverflow));
    assert_eq!(rw.authority.lamports, 100);
}

#[test]
fn removal_deposit_overflow_is_fatal() {
    let accounts = removal_accounts(&key32(0xA1), u64::MAX, &key32(0x10), 1, 1);
    let mut rw = RemoveWallet::try_from_accounts(accounts).unwrap();
    assert_eq!(rw.process(), Err(ProgramError::ArithmeticOverflow));
    assert_eq!(rw.authority.lamports, u64::MAX);
    let cfg: ListConfig = token_acl::load(rw.list_config.data.as_slice()).unwrap();
    assert_eq!(cfg.wallets_count, 1);
}

#[test]
fn removal_list_not_owned_rejected() {
    let mut accounts = removal_accounts(&key32(0xA1), 100, &key32(0x10), 1, 40);
    accounts[1].owner = key32(0x77);
    assert_eq!(
        RemoveWallet::try_from_accounts(accounts).unwrap_err(),
        ABLError::InvalidConfigAccount
    );
}

#[test]
fn removal_not_writable_rejected() {
    let mut accounts = removal_accounts(&key32(0xA1), 100, &key32(0x10), 1, 40);
    accounts[2].is_writable = false;
    assert_eq!(
        RemoveWallet::try_from_accounts(accounts).unwrap_err(),
        ABLError::AccountNotWritable
    );
}

#[test]
fn removal_wrong_back_reference_rejected() {
    let mut accounts = removal_accounts(&key32(0xA1), 100, &key32(0x10), 1, 40);
    accounts[2].data = wallet_entry_bytes(&key32(0x11), &key32(0x20));
    assert_eq!(
        RemoveWallet::try_from_accounts(accounts).unwrap_err(),
        ABLError::InvalidWalletEntry
    );
}

#[test]
fn removal_needs_exactly_three_accounts() {
    let mut accounts = removal_accounts(&key32(0xA1), 100, &key32(0x10), 1, 40);
    accounts.pop();
    assert_eq!(
        RemoveWallet::try_from_accounts(accounts).unwrap_err(),
        ABLError::NotEnoughAccounts
    );
}

fn clone_accounts(accounts: &[AccountInfo]) -> Vec<AccountInfo> {
    accounts
        .iter()
        .map(|a| AccountInfo {
            key: a.key.clone(),
            owner: a.owner.clone(),
            lamports: a.lamports,
            data: a.data.clone(),
            is_signer: a.is_signer,
            is_writable: a.is_writable,
        })
        .collect()
}

#[test]
fn mode_mapping_is_fixed() {
    let cfg = ListConfig {
        discriminator: LIST_CONFIG_DISCRIMINATOR,
        authority: key32(0xA1),
        mode: MODE_ALLOW,
        wallets_count: 0,
    };
    assert_eq!(cfg.get_mode(), Mode::Allow);
    let cfg = ListConfig { mode: MODE_ALLOW_ALL_EOAS, ..cfg };
    assert_eq!(cfg.get_mode(), Mode::AllowAllEoas);
    let cfg = ListConfig { mode: MODE_BLOCK, ..cfg };
    assert_eq!(cfg.get_mode(), Mode::Block);
}

#[test]
fn loaders_check_length_and_marker() {
    let good = list_config_bytes(&key32(0xA1), MODE_ALLOW, 7);
    let cfg: ListConfig = token_acl::load(good.as_slice()).unwrap();
    assert_eq!(cfg.wallets_count, 7);
    assert_eq!(cfg.mode, MODE_ALLOW);
    assert_eq!(cfg.authority, key32(0xA1));

    let err: Result<ListConfig, ABLError> = token_acl::load(&good[..LIST_CONFIG_LEN - 1]);
    assert_eq!(err.unwrap_err(), ABLError::InvalidAccountData);

    let zeroed = vec![0u8; LIST_CONFIG_LEN];
    let err: Result<ListConfig, ABLError> = token_acl::load(zeroed.as_slice());
    assert_eq!(err.unwrap_err(), ABLError::InvalidAccountData);

    let raw: ListConfig = token_acl::load_unchecked(zeroed.as_slice()).unwrap();
    assert_eq!(raw.discriminator, 0);
    assert_eq!(raw.wallets_count, 0);
}

#[test]
fn load_mut_leaves_buffer_as_it_was() {
    let mut bytes = wallet_entry_bytes(&key32(0x10), &key32(0x20));
    let before = bytes.clone();
    let entry: WalletEntry = token_acl::load_mut(&mut bytes).unwrap();
    assert_eq!(bytes, before);
    assert_eq!(entry.list_config, key32(0x10));
    assert_eq!(entry.wallet, key32(0x20));
    let mut short = vec![0u8; 3];
    let err: Result<WalletEntry, ABLError> = token_acl::load_mut_unchecked(&mut short);
    assert_eq!(err.unwrap_err(), ABLError::InvalidAccountData);
}

#[test]
fn serialize_parse_round_trip() {
    let cfg = ListConfig {
        discriminator: LIST_CONFIG_DISCRIMINATOR,
        authority: key32(0xA1),
        mode: MODE_BLOCK,
        wallets_count: 123456789,
    };
    let bytes = cfg.to_bytes();
    assert_eq!(bytes.len(), LIST_CONFIG_LEN);
    let back: ListConfig = token_acl::load_unchecked(bytes.as_slice()).unwrap();
    assert_eq!(back.discriminator, cfg.discriminator);
    assert_eq!(back.authority, cfg.authority);
    assert_eq!(back.mode, cfg.mode);
    assert_eq!(back.wallets_count, cfg.wallets_count);
}

#[test]
fn error_codes_follow_declaration_order() {
    assert_eq!(ABLError::InvalidInstruction.code(), 0);
    assert_eq!(ABLError::AccountBlocked.code(), 2);
    assert_eq!(ABLError::InvalidAccountData.code(), 4);
    assert_eq!(ABLError::ImmutableOwnerExtensionMissing.code(), 10);
    assert_eq!(ABLError::InvalidWalletEntry.code(), 15);
}
