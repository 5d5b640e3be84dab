use accountability_log::record::MAX_CATEGORY_LEN;
use accountability_log::{create_log, CreateLog, CustomError, LogAccount, LogStore};
use anchor_lang::prelude::Pubkey;
use std::str::FromStr;

fn program_id() -> [u8; 32] {
    Pubkey::from_str("FyDH94Zi7Rsehwr2jbCKioydseojDtpSHuQppLF2MatF")
        .unwrap()
        .to_bytes()
}

fn alice() -> [u8; 32] {
    let mut key = [0u8; 32];
    for (i, byte) in key.iter_mut().enumerate() {
        *byte = 0xa0 ^ (i as u8);
    }
    key
}

fn bob() -> [u8; 32] {
    [0xb0; 32]
}

fn expected_address(owner: &[u8; 32], timestamp: i64) -> ([u8; 32], u8) {
    let (address, bump) = Pubkey::find_program_address(
        &[b"log", owner.as_ref(), &timestamp.to_le_bytes()],
        &Pubkey::new_from_array(program_id()),
    );
    (address.to_bytes(), bump)
}

#[test]
fn expense_record_is_created_for_alice() {
    let mut store = LogStore::new(program_id());
    let result = store.create_log(alice(), 1_700_000_000, [0u8; 32], String::from("expense"));
    let (address, bump) = expected_address(&alice(), 1_700_000_000);
    assert_eq!(result, Ok(address));
    let record = store.get(&address).expect("the record is stored at its address");
    assert_eq!(record.owner, alice());
    assert_eq!(record.timestamp, 1_700_000_000);
    assert_eq!(record.hash, [0u8; 32]);
    assert_eq!(record.category, "expense");
    assert_eq!(record.bump, bump);
}

#[test]
fn expense_record_address_is_the_same_in_every_store() {
    let mut one = LogStore::new(program_id());
    let mut two = LogStore::new(program_id());
    let first = one.create_log(alice(), 1_700_000_000, [0u8; 32], String::from("expense"));
    let second = two.create_log(alice(), 1_700_000_000, [0u8; 32], String::from("expense"));
    assert!(first.is_ok());
    assert_eq!(first, second);
}

#[test]
fn category_of_33_bytes_is_refused() {
    let mut store = LogStore::new(program_id());
    let category = "a".repeat(33);
    let result = store.create_log(alice(), 1_700_000_000, [0u8; 32], category);
    assert_eq!(result, Err(CustomError::CategoryTooLong));
    let (address, _) = expected_address(&alice(), 1_700_000_000);
    assert!(!store.contains(&address));
    assert!(store.get(&address).is_none());
}

#[test]
fn refused_category_leaves_the_address_free_for_a_corrected_record() {
    let mut store = LogStore::new(program_id());
    let refused = store.create_log(alice(), 5, [1u8; 32], "b".repeat(40));
    assert_eq!(refused, Err(CustomError::CategoryTooLong));
    let accepted = store.create_log(alice(), 5, [1u8; 32], "b".repeat(4));
    assert_eq!(accepted, Ok(expected_address(&alice(), 5).0));
}

#[test]
fn category_of_32_bytes_is_accepted() {
    let mut store = LogStore::new(program_id());
    let category = "c".repeat(MAX_CATEGORY_LEN);
    let result = store.create_log(alice(), 7, [2u8; 32], category.clone());
    let address = result.expect("a category of 32 bytes fits");
    assert_eq!(store.get(&address).unwrap().category, category);
}

#[test]
fn empty_category_is_accepted() {
    let mut store = LogStore::new(program_id());
    let address = store
        .create_log(alice(), 8, [3u8; 32], String::new())
        .expect("an empty category fits");
    assert_eq!(store.get(&address).unwrap().category, "");
}

#[test]
fn category_length_is_counted_in_bytes() {
    let mut store = LogStore::new(program_id());
    // Sixteen two-byte characters take 32 bytes.
    let fits = "é".repeat(16);
    assert_eq!(fits.len(), 32);
    assert!(store.create_log(alice(), 9, [0u8; 32], fits).is_ok());
    // Eleven three-byte characters take 33 bytes, though they are only 11 characters.
    let too_long = "€".repeat(11);
    assert_eq!(too_long.chars().count(), 11);
    assert_eq!(too_long.len(), 33);
    assert_eq!(
        store.create_log(alice(), 10, [0u8; 32], too_long),
        Err(CustomError::CategoryTooLong)
    );
}

#[test]
fn second_creation_for_same_owner_and_timestamp_is_a_duplicate() {
    let mut store = LogStore::new(program_id());
    let first = store.create_log(alice(), 42, [9u8; 32], String::from("income"));
    let address = first.expect("the first creation succeeds");
    let second = store.create_log(alice(), 42, [7u8; 32], String::from("other"));
    assert_eq!(second, Err(CustomError::DuplicateRecord));
    let record = store.get(&address).unwrap();
    assert_eq!(record.owner, alice());
    assert_eq!(record.timestamp, 42);
    assert_eq!(record.hash, [9u8; 32]);
    assert_eq!(record.category, "income");
}

#[test]
fn identical_second_creation_is_a_duplicate_too() {
    let mut store = LogStore::new(program_id());
    assert!(store.create_log(bob(), 1, [4u8; 32], String::from("x")).is_ok());
    assert_eq!(
        store.create_log(bob(), 1, [4u8; 32], String::from("x")),
        Err(CustomError::DuplicateRecord)
    );
}

#[test]
fn duplicate_is_reported_before_the_category_is_checked() {
    let mut store = LogStore::new(program_id());
    assert!(store.create_log(alice(), 3, [0u8; 32], String::from("ok")).is_ok());
    assert_eq!(
        store.create_log(alice(), 3, [0u8; 32], "z".repeat(33)),
        Err(CustomError::DuplicateRecord)
    );
}

#[test]
fn two_timestamps_of_one_owner_give_two_records() {
    let mut store = LogStore::new(program_id());
    let first = store
        .create_log(alice(), 100, [1u8; 32], String::from("first"))
        .unwrap();
    let second = store
        .create_log(alice(), 101, [2u8; 32], String::from("second"))
        .unwrap();
    assert_ne!(first, second);
    let one = store.get(&first).unwrap();
    assert_eq!((one.timestamp, one.hash, one.category.as_str()), (100, [1u8; 32], "first"));
    let two = store.get(&second).unwrap();
    assert_eq!((two.timestamp, two.hash, two.category.as_str()), (101, [2u8; 32], "second"));
    assert_eq!(one.owner, alice());
    assert_eq!(two.owner, alice());
}

#[test]
fn one_timestamp_of_two_owners_gives_two_records() {
    let mut store = LogStore::new(program_id());
    let first = store
        .create_log(alice(), 100, [1u8; 32], String::from("hers"))
        .unwrap();
    let second = store
        .create_log(bob(), 100, [2u8; 32], String::from("his"))
        .unwrap();
    assert_ne!(first, second);
    assert_eq!(store.get(&first).unwrap().owner, alice());
    assert_eq!(store.get(&first).unwrap().category, "hers");
    assert_eq!(store.get(&second).unwrap().owner, bob());
    assert_eq!(store.get(&second).unwrap().category, "his");
}

#[test]
fn any_timestamp_is_accepted() {
    let mut store = LogStore::new(program_id());
    for timestamp in [i64::MIN, -1, 0, 1, i64::MAX] {
        let address = store
            .create_log(alice(), timestamp, [0u8; 32], String::from("t"))
            .unwrap();
        assert_eq!(address, expected_address(&alice(), timestamp).0);
        assert_eq!(store.get(&address).unwrap().timestamp, timestamp);
    }
}

#[test]
fn new_store_is_empty_and_keeps_its_program() {
    let store = LogStore::new(program_id());
    assert_eq!(store.program_id(), program_id());
    assert!(!store.contains(&expected_address(&alice(), 0).0));
    assert!(store.get(&[0u8; 32]).is_none());
}

#[test]
fn create_log_at_stores_at_the_address_given() {
    let mut store = LogStore::new(program_id());
    let result = store.create_log_at(
        Some(([5u8; 32], 254)),
        alice(),
        11,
        [6u8; 32],
        String::from("rent"),
    );
    assert_eq!(result, Ok([5u8; 32]));
    let expected = LogAccount {
        owner: alice(),
        timestamp: 11,
        hash: [6u8; 32],
        category: String::from("rent"),
        bump: 254,
    };
    assert_eq!(store.get(&[5u8; 32]), Some(&expected));
    assert!(!store.contains(&[6u8; 32]));
}

#[test]
fn create_log_at_without_an_address_is_refused() {
    let mut store = LogStore::new(program_id());
    let result = store.create_log_at(None, alice(), 11, [6u8; 32], String::from("rent"));
    assert_eq!(result, Err(CustomError::AddressUnavailable));
    // Without an address the category is not looked at.
    let result = store.create_log_at(None, alice(), 11, [6u8; 32], "r".repeat(33));
    assert_eq!(result, Err(CustomError::AddressUnavailable));
}

#[test]
fn create_log_at_refuses_an_occupied_address() {
    let mut store = LogStore::new(program_id());
    let first = store.create_log_at(Some(([5u8; 32], 1)), alice(), 1, [1u8; 32], String::from("a"));
    assert_eq!(first, Ok([5u8; 32]));
    let second = store.create_log_at(Some(([5u8; 32], 2)), bob(), 2, [2u8; 32], String::from("b"));
    assert_eq!(second, Err(CustomError::DuplicateRecord));
    let kept = store.get(&[5u8; 32]).unwrap();
    assert_eq!(kept.owner, alice());
    assert_eq!(kept.bump, 1);
    assert_eq!(kept.category, "a");
}

#[test]
fn handler_fills_the_blank_account() {
    let mut ctx = CreateLog { user: alice(), log_account: LogAccount::blank(), bump: 253 };
    let result = create_log(&mut ctx, -5, [8u8; 32], String::from("audit"));
    assert_eq!(result, Ok(()));
    assert_eq!(ctx.user, alice());
    assert_eq!(ctx.bump, 253);
    assert_eq!(
        ctx.log_account,
        LogAccount {
            owner: alice(),
            timestamp: -5,
            hash: [8u8; 32],
            category: String::from("audit"),
            bump: 253,
        }
    );
}

#[test]
fn handler_writes_nothing_when_the_category_is_too_long() {
    let mut ctx = CreateLog { user: alice(), log_account: LogAccount::blank(), bump: 253 };
    let result = create_log(&mut ctx, -5, [8u8; 32], "q".repeat(33));
    assert_eq!(result, Err(CustomError::CategoryTooLong));
    assert_eq!(ctx.log_account, LogAccount::blank());
    assert_eq!(ctx.user, alice());
    assert_eq!(ctx.bump, 253);
}

#[test]
fn handler_takes_the_owner_from_the_signer_only() {
    let mut account = LogAccount::blank();
    account.owner = bob();
    let mut ctx = CreateLog { user: alice(), log_account: account, bump: 0 };
    assert_eq!(create_log(&mut ctx, 0, [0u8; 32], String::new()), Ok(()));
    assert_eq!(ctx.log_account.owner, alice());
}

#[test]
fn many_records_are_all_kept_as_filed() {
    let mut store = LogStore::new(program_id());
    let mut addresses = Vec::new();
    for i in 0..40i64 {
        let hash = [i as u8; 32];
        let address = store
            .create_log(alice(), i, hash, format!("entry-{}", i))
            .unwrap();
        addresses.push(address);
    }
    for (i, address) in addresses.iter().enumerate() {
        let record = store.get(address).unwrap();
        assert_eq!(record.owner, alice());
        assert_eq!(record.timestamp, i as i64);
        assert_eq!(record.hash, [i as u8; 32]);
        assert_eq!(record.category, format!("entry-{}", i));
        assert_eq!(*address, expected_address(&alice(), i as i64).0);
        assert_eq!(record.bump, expected_address(&alice(), i as i64).1);
    }
    for i in 0..40i64 {
        assert_eq!(
            store.create_log(alice(), i, [0u8; 32], String::new()),
            Err(CustomError::DuplicateRecord)
        );
    }
    for i in 0..addresses.len() {
        for j in 0..i {
            assert_ne!(addresses[i], addresses[j]);
        }
    }
}
