//! End-to-end scenarios against the in-process backend: idempotent and
//! non-idempotent creation, read-after-write, chunk isolation, and the
//! execution errors of malformed submissions.

use boomerang::address::{Address, Keypair};
use boomerang::client::{transaction_result_matches_failure, BoomerangClient, BoomerangClientError};
use boomerang::codec::{u64_from_le_bytes_at, u64_to_le_bytes};
use boomerang::config::BoomerangTestClientConfig;
use boomerang::ledger::relax_authority_feature;
use boomerang::transaction::{
    create_lookup_table,
    create_lookup_table_signed,
    AccountMeta,
    Instruction,
    InstructionError,
    TransactionError,
};

fn addr(s: &str) -> Address {
    Address::from_str(s)
}

fn fresh_client(config: &BoomerangTestClientConfig) -> BoomerangClient {
    BoomerangClient::new(config, true, None)
}

fn warp_config() -> BoomerangTestClientConfig {
    let mut config = BoomerangTestClientConfig::default();
    config.program_id = addr("lookup-table-under-test");
    config.warp_slot = 123;
    config
}

fn expected_fresh_data(slot: u64) -> Vec<u8> {
    let mut data = vec![1u8];
    data.extend(u64_to_le_bytes(slot));
    data
}

#[test]
fn test_create_lookup_table_idempotent() {
    let config = warp_config();
    let mut client = fresh_client(&config);

    let authority_address = addr("authority-1");
    let payer_pubkey = client.fee_payer().pubkey();
    let (create_lookup_table_ix, lookup_table_address) =
        create_lookup_table(&authority_address, &payer_pubkey, 123);

    // First create should succeed.
    let transaction =
        client.create_default_transaction(&vec![create_lookup_table_ix.clone()], &vec![]);
    client.expect_successful_transaction(transaction).unwrap();

    // The freshly initialized account holds the expected byte layout.
    let check_lookup_table = expected_fresh_data(123);
    client
        .expect_account_data(&lookup_table_address, &check_lookup_table)
        .unwrap();

    // Second create should succeed too.
    let transaction = client
        .create_default_transaction_with_new_blockhash(&vec![create_lookup_table_ix], &vec![]);
    client.expect_successful_transaction(transaction).unwrap();
}

#[test]
fn test_create_lookup_table_not_idempotent() {
    let mut config = warp_config();
    config.features_disabled = vec![relax_authority_feature()];
    let mut client = fresh_client(&config);

    let authority_keypair = Keypair::new(addr("authority-2"));
    let authority_address = authority_keypair.pubkey();
    let payer_pubkey = client.fee_payer().pubkey();
    let (create_lookup_table_ix, _) =
        create_lookup_table_signed(&authority_address, &payer_pubkey, 123);

    let transaction = client.create_default_transaction(
        &vec![create_lookup_table_ix.clone()],
        &vec![authority_keypair.insecure_clone()],
    );
    client.expect_successful_transaction(transaction).unwrap();

    // Second create should fail at instruction zero: already initialized.
    let transaction = client.create_default_transaction_with_new_blockhash(
        &vec![create_lookup_table_ix],
        &vec![authority_keypair],
    );
    client
        .expect_failed_transaction_instruction(
            transaction,
            0,
            InstructionError::AccountAlreadyInitialized,
        )
        .unwrap();
}

#[test]
fn read_after_write_within_one_session() {
    let config = warp_config();
    let mut client = fresh_client(&config);
    let authority = addr("authority-3");
    let payer = client.fee_payer().pubkey();
    let (ix, table_address) = create_lookup_table(&authority, &payer, 123);

    assert!(matches!(client.get_account(&table_address), Ok(None)));
    let transaction = client.create_default_transaction(&vec![ix], &vec![]);
    client.expect_successful_transaction(transaction).unwrap();

    let account = client.get_account(&table_address).unwrap().unwrap();
    assert_eq!(account.data, expected_fresh_data(123));
    assert_eq!(account.owner, config.program_id);
    assert_eq!(account.lamports, 1);
}

#[test]
fn every_account_written_by_one_transaction_is_visible() {
    let config = warp_config();
    let mut client = fresh_client(&config);
    let payer = client.fee_payer().pubkey();
    let (first_ix, first_address) = create_lookup_table(&addr("authority-a"), &payer, 123);
    let (second_ix, second_address) = create_lookup_table(&addr("authority-b"), &payer, 123);

    let transaction = client.create_default_transaction(&vec![first_ix, second_ix], &vec![]);
    client.expect_successful_transaction(transaction).unwrap();

    assert!(matches!(client.get_account(&first_address), Ok(Some(_))));
    assert!(matches!(client.get_account(&second_address), Ok(Some(_))));
}

#[test]
fn independently_constructed_chunks_share_no_ledger_state() {
    let config = warp_config();
    let mut first = fresh_client(&config);
    let authority = addr("authority-4");
    let payer = first.fee_payer().pubkey();
    let (ix, table_address) = create_lookup_table(&authority, &payer, 123);
    let transaction = first.create_default_transaction(&vec![ix], &vec![]);
    first.expect_successful_transaction(transaction).unwrap();
    assert!(matches!(first.get_account(&table_address), Ok(Some(_))));

    // A second, independently constructed backend from the same
    // configuration sees none of the first one's writes.
    let mut second = fresh_client(&config);
    assert!(matches!(second.get_account(&table_address), Ok(None)));
}

#[test]
fn test_create_lookup_table_missing_signer() {
    let mut config = BoomerangTestClientConfig::default();
    config.program_id = addr("lookup-table-under-test");
    config.features_disabled = vec![relax_authority_feature()];
    let mut client = fresh_client(&config);
    let unsigned_authority_address = addr("authority-5");
    let payer = client.fee_payer().pubkey();
    let (mut ix, _) = create_lookup_table_signed(&unsigned_authority_address, &payer, u64::MAX);
    ix.accounts[1].is_signer = false;

    // The authority never signs: the missing signature is reported even
    // though the slot is stale too.
    let transaction = client.create_default_transaction_with_new_blockhash(&vec![ix], &vec![]);
    client
        .expect_failed_transaction_instruction(
            transaction,
            0,
            InstructionError::MissingRequiredSignature,
        )
        .unwrap();
}

#[test]
fn unsigned_create_requires_signature_when_relax_feature_disabled() {
    let mut config = warp_config();
    config.features_disabled = vec![relax_authority_feature()];
    let mut client = fresh_client(&config);
    let authority = addr("authority-10");
    let payer = client.fee_payer().pubkey();

    // With the relax-authority feature disabled, the unsigned create's
    // authority must sign, and the unsigned builder marks it as no signer.
    let (ix, _) = create_lookup_table(&authority, &payer, 123);
    let transaction = client.create_default_transaction(&vec![ix], &vec![]);
    client
        .expect_failed_transaction_instruction(
            transaction,
            0,
            InstructionError::MissingRequiredSignature,
        )
        .unwrap();
}

#[test]
fn test_create_lookup_table_not_recent_slot() {
    // No warp: the requested slot was never seeded into history.
    let mut config = BoomerangTestClientConfig::default();
    config.program_id = addr("lookup-table-under-test");
    let mut client = fresh_client(&config);
    let authority = addr("authority-6");
    let payer = client.fee_payer().pubkey();
    let (ix, _) = create_lookup_table(&authority, &payer, u64::MAX);

    let transaction = client.create_default_transaction_with_new_blockhash(&vec![ix], &vec![]);
    client
        .expect_failed_transaction_instruction(
            transaction,
            0,
            InstructionError::InvalidInstructionData,
        )
        .unwrap();
}

#[test]
fn test_create_lookup_table_pda_mismatch() {
    let config = warp_config();
    let mut client = fresh_client(&config);
    let authority = addr("authority-7");
    let payer = client.fee_payer().pubkey();
    let (well_formed, _) = create_lookup_table(&authority, &payer, 123);

    // Point the instruction at an account other than the derived one.
    let mut accounts: Vec<AccountMeta> = well_formed.accounts.clone();
    accounts[0] = AccountMeta {
        address: addr("not-the-derived-address"),
        is_signer: false,
        is_writable: true,
    };
    let ix = Instruction {
        program_id: well_formed.program_id.clone(),
        accounts,
        data: well_formed.data.clone(),
    };
    let transaction = client.create_default_transaction_with_new_blockhash(&vec![ix], &vec![]);
    client
        .expect_failed_transaction_instruction(transaction, 0, InstructionError::InvalidArgument)
        .unwrap();
}

#[test]
fn identical_resubmission_is_rejected() {
    let config = warp_config();
    let mut client = fresh_client(&config);
    let authority = addr("authority-8");
    let payer = client.fee_payer().pubkey();
    let (ix, _) = create_lookup_table(&authority, &payer, 123);

    let transaction = client.create_default_transaction(&vec![ix.clone()], &vec![]);
    client.expect_successful_transaction(transaction).unwrap();

    // The identical transaction against the same blockhash is a duplicate.
    let transaction = client.create_default_transaction(&vec![ix], &vec![]);
    let result = client.process_transaction(transaction);
    assert_eq!(result, Err(Some(TransactionError::AlreadyProcessed)));
}

#[test]
fn expectation_failures_are_reported_apart() {
    let config = warp_config();
    let mut client = fresh_client(&config);
    let authority = addr("authority-9");
    let payer = client.fee_payer().pubkey();
    let (ix, table_address) = create_lookup_table(&authority, &payer, 123);

    assert_eq!(
        client.expect_account_data(&table_address, &vec![1u8]),
        Err(BoomerangClientError::AccountNotFound)
    );

    let transaction = client.create_default_transaction(&vec![ix], &vec![]);
    client.expect_successful_transaction(transaction).unwrap();

    assert_eq!(
        client.expect_account_data(&table_address, &vec![9u8, 9u8]),
        Err(BoomerangClientError::AssertionFailed)
    );
    assert!(client.expect_account_data(&table_address, &expected_fresh_data(123)).is_ok());
}

#[test]
fn test_create_lookup_table_use_payer_as_authority() {
    let config = warp_config();
    let mut client = fresh_client(&config);
    let payer_pubkey = client.fee_payer().pubkey();
    let authority_address = payer_pubkey.clone();

    // The fee payer's own signature satisfies the signed create's authority
    // check.
    let (ix, table_address) = create_lookup_table_signed(&authority_address, &payer_pubkey, 123);
    let transaction = client.create_default_transaction(&vec![ix], &vec![]);
    client.expect_successful_transaction(transaction).unwrap();
    client
        .expect_account_data(&table_address, &expected_fresh_data(123))
        .unwrap();
}

#[test]
fn transport_results_check_against_expected_failures() {
    let already = TransactionError::AlreadyProcessed;
    let result: Result<(), Option<TransactionError>> = Err(Some(already));
    assert!(transaction_result_matches_failure(&result, &already));
    let wrong = TransactionError::InstructionError(0, InstructionError::InvalidInstructionData);
    assert!(!transaction_result_matches_failure(&result, &wrong));
    let transport: Result<(), Option<TransactionError>> = Err(None);
    assert!(!transaction_result_matches_failure(&transport, &already));
    let ok: Result<(), Option<TransactionError>> = Ok(());
    assert!(!transaction_result_matches_failure(&ok, &already));
}

#[test]
fn derived_lookup_table_address_is_deterministic() {
    let authority = addr("auth");
    let payer = addr("payer");
    let (_, first) = create_lookup_table(&authority, &payer, 123);
    let (_, second) = create_lookup_table(&authority, &payer, 123);
    assert_eq!(first, second);
    assert_eq!(first.to_text(), "auth-123");
}

#[test]
fn slot_bytes_round_trip() {
    let bytes = u64_to_le_bytes(123);
    assert_eq!(bytes, vec![123u8, 0, 0, 0, 0, 0, 0, 0]);
    assert_eq!(u64_from_le_bytes_at(&bytes, 0), 123);
    let bytes = u64_to_le_bytes(u64::MAX);
    assert_eq!(bytes, vec![255u8; 8]);
    assert_eq!(u64_from_le_bytes_at(&bytes, 0), u64::MAX);
    let bytes = u64_to_le_bytes(0x0102030405060708);
    assert_eq!(u64_from_le_bytes_at(&bytes, 0), 0x0102030405060708);
}
