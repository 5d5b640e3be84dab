//! The log store: every record created so far, each at its address.
//!
//! The store only grows. A record is written once, at the address derived
//! from its owner and its timestamp, and is never changed or removed; a
//! second record for the same address is refused.

use vstd::prelude::*;
use crate::address::{derive_address, derived_view, spec_derive_address, KEY_LEN};
use crate::errors::CustomError;
use crate::instruction::{create_log, CreateLog};
use crate::record::{category_len, LogAccount, LogRecord, MAX_CATEGORY_LEN};

verus! {

/// The records of a store, each under its address.
pub type Records = Map<Seq<u8>, LogRecord>;

/// The record that `caller` files with the fields given.
pub open spec fn new_record(
    caller: Seq<u8>,
    timestamp: i64,
    hash: Seq<u8>,
    category: Seq<char>,
    bump: u8,
) -> LogRecord {
    LogRecord { owner: caller, timestamp, hash, category, bump }
}

/// What creating a record answers, given the records already stored and
/// the outcome of deriving the new record's address. The checks come in
/// this order: an address must have been found, it must be free, and the
/// category must fit.
pub open spec fn create_log_result(
    records: Records,
    derived: Option<(Seq<u8>, u8)>,
    category: Seq<char>,
) -> Result<Seq<u8>, CustomError> {
    match derived {
        None => Err(CustomError::AddressUnavailable),
        Some((address, _)) => if records.dom().contains(address) {
            Err(CustomError::DuplicateRecord)
        } else if category_len(category) > MAX_CATEGORY_LEN {
            Err(CustomError::CategoryTooLong)
        } else {
            Ok(address)
        },
    }
}

/// The records stored after creating a record: one more where the creation
/// succeeds, and the same as before where it is refused.
pub open spec fn create_log_records(
    records: Records,
    derived: Option<(Seq<u8>, u8)>,
    caller: Seq<u8>,
    timestamp: i64,
    hash: Seq<u8>,
    category: Seq<char>,
) -> Records {
    match (create_log_result(records, derived, category), derived) {
        (Ok(address), Some((_, bump))) => records.insert(
            address,
            new_record(caller, timestamp, hash, category, bump),
        ),
        _ => records,
    }
}

/// The mathematical value of what creating a record answers.
pub open spec fn result_view(result: Result<[u8; 32], CustomError>) -> Result<
    Seq<u8>,
    CustomError,
> {
    match result {
        Ok(address) => Ok(address@),
        Err(e) => Err(e),
    }
}

/// A record and the address it lives at.
struct StoredLog {
    address: [u8; 32],
    account: LogAccount,
}

/// The log store of one program.
pub struct LogStore {
    program_id: [u8; 32],
    entries: Vec<StoredLog>,
}

/// Whether two keys hold the same bytes.
fn same_key(a: &[u8; 32], b: &[u8; 32]) -> (same: bool)
    ensures
        same == (a@ == b@),
{
    let mut i: usize = 0;
    while i < KEY_LEN
        invariant
            i <= KEY_LEN,
            forall|k: int| 0 <= k < i ==> a@[k] == b@[k],
        decreases KEY_LEN - i,
    {
        if a[i] != b[i] {
            return false;
        }
        i += 1;
    }
    assert(a@ =~= b@);
    true
}

impl LogStore {
    /// No address holds two records, and every record has room for its
    /// category.
    #[verifier::type_invariant]
    spec fn inv(self) -> bool {
        &&& forall|i: int, j: int|
            0 <= i < j < self.entries@.len() ==> #[trigger] self.entries@[i].address@
                != #[trigger] self.entries@[j].address@
        &&& forall|i: int|
            0 <= i < self.entries@.len() ==> (#[trigger] self.entries@[i]).account@.is_valid()
    }

    /// Whether entry `i` lives at `address`.
    spec fn at(self, i: int, address: Seq<u8>) -> bool {
        0 <= i < self.entries@.len() && self.entries@[i].address@ == address
    }

    /// The records stored, each under its address.
    pub closed spec fn view(&self) -> Records {
        Map::new(
            |address: Seq<u8>| exists|i: int| self.at(i, address),
            |address: Seq<u8>| self.entries@[choose|i: int| self.at(i, address)].account@,
        )
    }

    /// The program whose records the store holds.
    pub closed spec fn spec_program_id(&self) -> Seq<u8> {
        self.program_id@
    }

    /// An empty store for the program `program_id`.
    pub fn new(program_id: [u8; 32]) -> (store: LogStore)
        ensures
            store@ == Records::empty(),
            store.spec_program_id() == program_id@,
    {
        let store = LogStore { program_id, entries: Vec::new() };
        assert(store@ =~= Records::empty());
        store
    }

    /// The program whose records the store holds.
    pub fn program_id(&self) -> (id: [u8; 32])
        ensures
            id@ == self.spec_program_id(),
    {
        self.program_id
    }

    /// The place of the record at `address` among the entries.
    fn find(&self, address: &[u8; 32]) -> (place: Option<usize>)
        ensures
            match place {
                Some(i) => self.at(i as int, address@),
                None => forall|i: int| !self.at(i, address@),
            },
    {
        let mut i: usize = 0;
        while i < self.entries.len()
            invariant
                i <= self.entries@.len(),
                forall|k: int| 0 <= k < i ==> !self.at(k, address@),
            decreases self.entries@.len() - i,
        {
            if same_key(&self.entries[i].address, address) {
                return Some(i);
            }
            i += 1;
        }
        None
    }

    /// Whether a record lives at `address`.
    pub fn contains(&self, address: &[u8; 32]) -> (found: bool)
        ensures
            found == self@.dom().contains(address@),
    {
        self.find(address).is_some()
    }

    /// The record at `address`, if there is one. A stored record always has
    /// room for its category.
    pub fn get(&self, address: &[u8; 32]) -> (found: Option<&LogAccount>)
        ensures
            match found {
                Some(account) => {
                    &&& self@.dom().contains(address@)
                    &&& account@ == self@[address@]
                    &&& account@.is_valid()
                },
                None => !self@.dom().contains(address@),
            },
    {
        proof {
            use_type_invariant(self);
        }
        match self.find(address) {
            Some(i) => {
                assert(self.at(i as int, address@));
                Some(&self.entries[i].account)
            },
            None => None,
        }
    }

    /// Creates the record that `caller` files under `timestamp`, at the
    /// address that `derived` gives for it.
    ///
    /// Nothing is stored unless every check passes: the store then holds
    /// one record more, owned by `caller` and with the fields given, and the
    /// answer is its address. Otherwise the store is left as it was.
    pub fn create_log_at(
        &mut self,
        derived: Option<([u8; 32], u8)>,
        caller: [u8; 32],
        timestamp: i64,
        hash: [u8; 32],
        category: String,
    ) -> (result: Result<[u8; 32], CustomError>)
        ensures
            final(self).spec_program_id() == old(self).spec_program_id(),
            result_view(result) == create_log_result(old(self)@, derived_view(derived), category@),
            final(self)@ == create_log_records(
                old(self)@,
                derived_view(derived),
                caller@,
                timestamp,
                hash@,
                category@,
            ),
    {
        proof {
            use_type_invariant(&*self);
        }
        let (address, bump) = match derived {
            Some(found) => found,
            None => {
                return Err(CustomError::AddressUnavailable);
            },
        };
        if self.find(&address).is_some() {
            return Err(CustomError::DuplicateRecord);
        }
        let ghost before = *self;
        let ghost label = category@;
        let mut ctx = CreateLog { user: caller, log_account: LogAccount::blank(), bump };
        match create_log(&mut ctx, timestamp, hash, category) {
            Ok(()) => {
                let mut entries: Vec<StoredLog> = Vec::new();
                core::mem::swap(&mut entries, &mut self.entries);
                entries.push(StoredLog { address, account: ctx.log_account });
                proof {
                    assert forall|i: int| 0 <= i < entries@.len() - 1 implies #[trigger]
                        entries@[i].address@ != address@ by {
                        assert(before.at(i, entries@[i].address@));
                    }
                }
                core::mem::swap(&mut entries, &mut self.entries);
                proof {
                    let record = new_record(caller@, timestamp, hash@, label, bump);
                    let last = before.entries@.len() as int;
                    assert forall|a: Seq<u8>|
                        self@.dom().contains(a) == before@.insert(address@, record).dom().contains(
                            a,
                        ) by {
                        if before@.dom().contains(a) {
                            let k = choose|k: int| before.at(k, a);
                            assert(self.at(k, a));
                        }
                        if a == address@ {
                            assert(self.at(last, a));
                        }
                        if self@.dom().contains(a) {
                            let k = choose|k: int| self.at(k, a);
                            assert(k < last ==> before.at(k, a));
                        }
                    }
                    assert forall|a: Seq<u8>| self@.dom().contains(a) implies self@[a]
                        == before@.insert(address@, record)[a] by {
                        let k = choose|k: int| self.at(k, a);
                        if a == address@ {
                            assert(self.at(last, a));
                        } else {
                            assert(before.at(k, a));
                            let m = choose|m: int| before.at(m, a);
                            assert(self.at(m, a));
                        }
                    }
                    assert(self@ =~= before@.insert(address@, record));
                }
                Ok(address)
            },
            Err(e) => Err(e),
        }
    }

    /// Creates the record that `caller` files under `timestamp`.
    ///
    /// `caller` is the identity that the ledger has authenticated; the
    /// store takes it as it is and makes it the record's owner. The
    /// record's address is derived from the store's program, the caller and
    /// the timestamp; the rest is [`LogStore::create_log_at`].
    pub fn create_log(
        &mut self,
        caller: [u8; 32],
        timestamp: i64,
        hash: [u8; 32],
        category: String,
    ) -> (result: Result<[u8; 32], CustomError>)
        ensures
            final(self).spec_program_id() == old(self).spec_program_id(),
            result_view(result) == create_log_result(
                old(self)@,
                spec_derive_address(old(self).spec_program_id(), caller@, timestamp),
                category@,
            ),
            final(self)@ == create_log_records(
                old(self)@,
                spec_derive_address(old(self).spec_program_id(), caller@, timestamp),
                caller@,
                timestamp,
                hash@,
                category@,
            ),
    {
        let derived = derive_address(&self.program_id, &caller, timestamp);
        self.create_log_at(derived, caller, timestamp, hash, category)
    }
}

} // verus!
