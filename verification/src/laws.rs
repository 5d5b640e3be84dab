//! What holds of the log store whatever it holds and whatever is filed.

use vstd::prelude::*;
use vstd::bytes::*;
use vstd::utf8::*;
use crate::address::{spec_derive_address, spec_log_seeds, timestamp_seed, KEY_LEN};
use crate::errors::CustomError;
use crate::record::{
    category_len, LogAccount, LogRecord, DISCRIMINATOR_LEN, HASH_LEN, MAX_CATEGORY_LEN,
};
use crate::store::{create_log_records, create_log_result, new_record, Records};

verus! {

/// A record whose category fits, filed at an address that was found and is
/// free, is created: the answer is the address, and the record stored there
/// holds exactly the caller, the timestamp, the hash and the category given.
/// Every other address holds what it held before.
pub proof fn fitting_record_is_created(
    records: Records,
    address: Seq<u8>,
    bump: u8,
    caller: Seq<u8>,
    timestamp: i64,
    hash: Seq<u8>,
    category: Seq<char>,
)
    requires
        !records.dom().contains(address),
        category_len(category) <= MAX_CATEGORY_LEN,
    ensures
        create_log_result(records, Some((address, bump)), category) == Ok::<Seq<u8>, CustomError>(
            address,
        ),
        ({
            let after = create_log_records(
                records,
                Some((address, bump)),
                caller,
                timestamp,
                hash,
                category,
            );
            &&& after.dom() == records.dom().insert(address)
            &&& after[address].owner == caller
            &&& after[address].timestamp == timestamp
            &&& after[address].hash == hash
            &&& after[address].category == category
            &&& after[address].bump == bump
            &&& forall|other: Seq<u8>|
                records.dom().contains(other) ==> after[other] == records[other]
        }),
{
}

/// A record whose category does not fit, filed at an address that was found
/// and is free, is refused for its category, and no record exists at that
/// address afterwards: the store holds what it held before.
pub proof fn long_category_is_refused(
    records: Records,
    address: Seq<u8>,
    bump: u8,
    caller: Seq<u8>,
    timestamp: i64,
    hash: Seq<u8>,
    category: Seq<char>,
)
    requires
        !records.dom().contains(address),
        category_len(category) > MAX_CATEGORY_LEN,
    ensures
        create_log_result(records, Some((address, bump)), category) == Err::<
            Seq<u8>,
            CustomError,
        >(CustomError::CategoryTooLong),
        ({
            let after = create_log_records(
                records,
                Some((address, bump)),
                caller,
                timestamp,
                hash,
                category,
            );
            after == records && !after.dom().contains(address)
        }),
{
}

/// Once a record has been created for a caller and a timestamp, a second
/// creation for the same caller and timestamp is refused as a duplicate,
/// whatever hash and category it brings, and leaves every record, the first
/// one included, as it was.
pub proof fn second_creation_is_refused(
    records: Records,
    program_id: Seq<u8>,
    caller: Seq<u8>,
    timestamp: i64,
    first_hash: Seq<u8>,
    first_category: Seq<char>,
    second_hash: Seq<u8>,
    second_category: Seq<char>,
)
    requires
        create_log_result(
            records,
            spec_derive_address(program_id, caller, timestamp),
            first_category,
        ) is Ok,
    ensures
        ({
            let derived = spec_derive_address(program_id, caller, timestamp);
            let after = create_log_records(
                records,
                derived,
                caller,
                timestamp,
                first_hash,
                first_category,
            );
            &&& create_log_result(after, derived, second_category) == Err::<Seq<u8>, CustomError>(
                CustomError::DuplicateRecord,
            )
            &&& create_log_records(
                after,
                derived,
                caller,
                timestamp,
                second_hash,
                second_category,
            ) == after
            &&& derived matches Some((address, bump)) && after[address] == new_record(
                caller,
                timestamp,
                first_hash,
                first_category,
                bump,
            )
        }),
{
}

/// The address and the bump seed of a record depend on nothing but the
/// program, the owner and the timestamp: the same three give the same two.
pub proof fn address_is_deterministic(
    program_id: Seq<u8>,
    owner: Seq<u8>,
    timestamp: i64,
    same_program_id: Seq<u8>,
    same_owner: Seq<u8>,
    same_timestamp: i64,
)
    requires
        program_id == same_program_id,
        owner == same_owner,
        timestamp == same_timestamp,
    ensures
        spec_derive_address(program_id, owner, timestamp) == spec_derive_address(
            same_program_id,
            same_owner,
            same_timestamp,
        ),
{
}

/// Different timestamps never share their seed.
pub proof fn timestamp_seed_is_injective(timestamp: i64, other_timestamp: i64)
    requires
        timestamp_seed(timestamp) == timestamp_seed(other_timestamp),
    ensures
        timestamp == other_timestamp,
{
    lemma_auto_spec_u64_to_from_le_bytes();
    let bits = timestamp as u64;
    let other_bits = other_timestamp as u64;
    assert(spec_u64_from_le_bytes(spec_u64_to_le_bytes(bits)) == bits);
    assert(spec_u64_from_le_bytes(spec_u64_to_le_bytes(other_bits)) == other_bits);
    assert(timestamp as u64 == other_timestamp as u64 ==> timestamp == other_timestamp)
        by (bit_vector);
}

/// Different owners or different timestamps never share their seeds.
pub proof fn seeds_are_injective(
    owner: Seq<u8>,
    timestamp: i64,
    other_owner: Seq<u8>,
    other_timestamp: i64,
)
    requires
        spec_log_seeds(owner, timestamp) == spec_log_seeds(other_owner, other_timestamp),
    ensures
        owner == other_owner,
        timestamp == other_timestamp,
{
    let seeds = spec_log_seeds(owner, timestamp);
    let other_seeds = spec_log_seeds(other_owner, other_timestamp);
    assert(seeds[1] == owner && other_seeds[1] == other_owner);
    assert(seeds[2] == timestamp_seed(timestamp));
    assert(other_seeds[2] == timestamp_seed(other_timestamp));
    timestamp_seed_is_injective(timestamp, other_timestamp);
}

/// Two records whose addresses differ do not interfere: filed one after the
/// other at free addresses, with categories that fit, both are created, each
/// holds what was given for it, and the order of filing makes no difference
/// to what the store holds in the end.
pub proof fn distinct_addresses_are_independent(
    records: Records,
    program_id: Seq<u8>,
    owner: Seq<u8>,
    timestamp: i64,
    hash: Seq<u8>,
    category: Seq<char>,
    address: Seq<u8>,
    bump: u8,
    other_owner: Seq<u8>,
    other_timestamp: i64,
    other_hash: Seq<u8>,
    other_category: Seq<char>,
    other_address: Seq<u8>,
    other_bump: u8,
)
    requires
        spec_derive_address(program_id, owner, timestamp) == Some((address, bump)),
        spec_derive_address(program_id, other_owner, other_timestamp) == Some(
            (other_address, other_bump),
        ),
        address != other_address,
        !records.dom().contains(address),
        !records.dom().contains(other_address),
        category_len(category) <= MAX_CATEGORY_LEN,
        category_len(other_category) <= MAX_CATEGORY_LEN,
    ensures
        ({
            let one = spec_derive_address(program_id, owner, timestamp);
            let two = spec_derive_address(program_id, other_owner, other_timestamp);
            let after_one = create_log_records(records, one, owner, timestamp, hash, category);
            let after_both = create_log_records(
                after_one,
                two,
                other_owner,
                other_timestamp,
                other_hash,
                other_category,
            );
            let after_two = create_log_records(
                records,
                two,
                other_owner,
                other_timestamp,
                other_hash,
                other_category,
            );
            let after_both_reversed = create_log_records(
                after_two,
                one,
                owner,
                timestamp,
                hash,
                category,
            );
            &&& create_log_result(records, one, category) == Ok::<Seq<u8>, CustomError>(address)
            &&& create_log_result(after_one, two, other_category) == Ok::<Seq<u8>, CustomError>(
                other_address,
            )
            &&& after_both[address] == new_record(owner, timestamp, hash, category, bump)
            &&& after_both[other_address] == new_record(
                other_owner,
                other_timestamp,
                other_hash,
                other_category,
                other_bump,
            )
            &&& after_both == after_both_reversed
        }),
{
    let first = new_record(owner, timestamp, hash, category, bump);
    let second = new_record(other_owner, other_timestamp, other_hash, other_category, other_bump);
    assert(records.insert(address, first).insert(other_address, second) =~= records.insert(
        other_address,
        second,
    ).insert(address, first));
}

/// Creating a record never changes or removes a record: whatever is filed,
/// and whether or not it is accepted, every address that held a record
/// holds the same record afterwards.
pub proof fn records_are_never_changed(
    records: Records,
    derived: Option<(Seq<u8>, u8)>,
    caller: Seq<u8>,
    timestamp: i64,
    hash: Seq<u8>,
    category: Seq<char>,
    address: Seq<u8>,
)
    requires
        records.dom().contains(address),
    ensures
        ({
            let after = create_log_records(records, derived, caller, timestamp, hash, category);
            after.dom().contains(address) && after[address] == records[address]
        }),
{
}

/// A record that has room for its category fits the space reserved for
/// it: its persisted form takes the fixed fields and the category's bytes,
/// and with the discriminator ahead of it no more than an account holds.
/// The space reserved is that of a record with the longest category.
pub proof fn layout_fits_space(record: LogRecord)
    requires
        record.is_valid(),
    ensures
        record.layout().len() == KEY_LEN + 8 + HASH_LEN + 4 + category_len(record.category) + 1,
        record.layout().len() <= LogAccount::INIT_SPACE,
        DISCRIMINATOR_LEN + record.layout().len() <= LogAccount::SPACE,
        LogAccount::INIT_SPACE == KEY_LEN + 8 + HASH_LEN + 4 + MAX_CATEGORY_LEN + 1,
        LogAccount::SPACE == DISCRIMINATOR_LEN + LogAccount::INIT_SPACE,
{
    lemma_auto_spec_u64_to_from_le_bytes();
    lemma_auto_spec_u32_to_from_le_bytes();
}

/// The persisted form tells the record: two records that have room for
/// their categories and are persisted as the same bytes are the same record.
pub proof fn layout_is_injective(record: LogRecord, other: LogRecord)
    requires
        record.is_valid(),
        other.is_valid(),
        record.layout() == other.layout(),
    ensures
        record == other,
{
    lemma_auto_spec_u64_to_from_le_bytes();
    lemma_auto_spec_u32_to_from_le_bytes();
    let bytes = record.layout();
    let len = category_len(record.category) as int;
    let other_len = category_len(other.category) as int;
    let prefix = spec_u32_to_le_bytes(len as u32);
    let other_prefix = spec_u32_to_le_bytes(other_len as u32);

    assert(bytes.subrange(0, 32) =~= record.owner);
    assert(bytes.subrange(0, 32) =~= other.owner);

    assert(bytes.subrange(32, 40) =~= timestamp_seed(record.timestamp));
    assert(bytes.subrange(32, 40) =~= timestamp_seed(other.timestamp));
    timestamp_seed_is_injective(record.timestamp, other.timestamp);

    assert(bytes.subrange(40, 72) =~= record.hash);
    assert(bytes.subrange(40, 72) =~= other.hash);

    assert(bytes.subrange(72, 76) =~= prefix);
    assert(bytes.subrange(72, 76) =~= other_prefix);
    assert(spec_u32_from_le_bytes(prefix) == len as u32);
    assert(spec_u32_from_le_bytes(other_prefix) == other_len as u32);
    assert(len == other_len);

    assert(bytes.subrange(76, 76 + len) =~= encode_utf8(record.category));
    assert(bytes.subrange(76, 76 + len) =~= encode_utf8(other.category));
    encode_utf8_decode_utf8(record.category);
    encode_utf8_decode_utf8(other.category);
    assert(record.category == other.category);

    assert(bytes[76 + len] == record.bump);
    assert(bytes[76 + len] == other.bump);
}

} // verus!
