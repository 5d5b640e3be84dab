//! The log record and its persisted layout.

use vstd::prelude::*;
use vstd::bytes::*;
use vstd::string::*;
use vstd::utf8::*;
use crate::address::{timestamp_seed, KEY_LEN};

verus! {

/// The most bytes a category label may take.
pub const MAX_CATEGORY_LEN: usize = 32;

/// Number of bytes in a content digest.
pub const HASH_LEN: usize = 32;

/// Bytes that the ledger keeps ahead of a record's fields to tell the kind
/// of the account.
pub const DISCRIMINATOR_LEN: usize = 8;

/// What a log record is: the mathematical value that the contracts speak of.
pub struct LogRecord {
    /// Identity of the creator.
    pub owner: Seq<u8>,
    /// Caller-supplied time of the entry.
    pub timestamp: i64,
    /// Caller-supplied digest of the content; never interpreted.
    pub hash: Seq<u8>,
    /// Short label.
    pub category: Seq<char>,
    /// Bump seed that completes the seeds of the record's address.
    pub bump: u8,
}

/// The length of a category label as it is stored: the number of bytes of
/// its UTF-8 encoding.
pub open spec fn category_len(category: Seq<char>) -> nat {
    encode_utf8(category).len()
}

impl LogRecord {
    /// The record has room for its category.
    pub open spec fn is_valid(self) -> bool {
        &&& self.owner.len() == KEY_LEN
        &&& self.hash.len() == HASH_LEN
        &&& category_len(self.category) <= MAX_CATEGORY_LEN
    }

    /// The record as it is persisted, field after field: the owner, the
    /// timestamp as eight little-endian bytes, the hash, the category as
    /// its byte length in four little-endian bytes followed by its bytes,
    /// and the bump seed.
    pub open spec fn layout(self) -> Seq<u8> {
        self.owner + timestamp_seed(self.timestamp) + self.hash + spec_u32_to_le_bytes(
            category_len(self.category) as u32,
        ) + encode_utf8(self.category) + seq![self.bump]
    }
}

/// A log record as the ledger holds it.
#[derive(Debug, Clone, PartialEq, Eq)]
pub struct LogAccount {
    /// Identity of the creator.
    pub owner: [u8; 32],
    /// Caller-supplied time of the entry.
    pub timestamp: i64,
    /// Caller-supplied digest of the content; never interpreted.
    pub hash: [u8; 32],
    /// Short label, of at most [`MAX_CATEGORY_LEN`] bytes.
    pub category: String,
    /// Bump seed that completes the seeds of the record's address.
    pub bump: u8,
}

impl View for LogAccount {
    type V = LogRecord;

    open spec fn view(&self) -> LogRecord {
        LogRecord {
            owner: self.owner@,
            timestamp: self.timestamp,
            hash: self.hash@,
            category: self.category@,
            bump: self.bump,
        }
    }
}

impl LogAccount {
    /// Bytes that the fields of a record take at most: the owner, the
    /// timestamp, the hash, the length prefix and the longest category, and
    /// the bump seed.
    pub const INIT_SPACE: usize = 109;

    /// Bytes to reserve for a record's account: the discriminator and the
    /// fields at their longest.
    pub const SPACE: usize = 117;

    /// An account as the ledger hands it out: every field zero or empty.
    pub fn blank() -> (account: LogAccount)
        ensures
            account.owner@ == Seq::new(32, |i: int| 0u8),
            account.timestamp == 0,
            account.hash@ == Seq::new(32, |i: int| 0u8),
            account.category@ == Seq::<char>::empty(),
            account.bump == 0,
    {
        LogAccount { owner: [0u8; 32], timestamp: 0, hash: [0u8; 32], category: String::new(), bump: 0 }
    }

    /// Whether the category has room in the record.
    pub fn is_valid(&self) -> (valid: bool)
        ensures
            valid == self@.is_valid(),
    {
        self.category.as_str().as_bytes().len() <= MAX_CATEGORY_LEN
    }

    /// The record as it is persisted: see [`LogRecord::layout`]. `None`
    /// where the category's length does not fit the four bytes kept for it.
    pub fn serialize(&self) -> (bytes: Option<Vec<u8>>)
        ensures
            match bytes {
                Some(bytes) => category_len(self@.category) <= u32::MAX && bytes@
                    == self@.layout(),
                None => category_len(self@.category) > u32::MAX,
            },
    {
        let label = self.category.as_str().as_bytes();
        if label.len() > u32::MAX as usize {
            return None;
        }
        let label_len = u32_to_le_bytes(label.len() as u32);
        let time = u64_to_le_bytes(self.timestamp as u64);
        let mut bytes: Vec<u8> = Vec::with_capacity(LogAccount::INIT_SPACE);
        append(&mut bytes, self.owner.as_slice());
        append(&mut bytes, time.as_slice());
        append(&mut bytes, self.hash.as_slice());
        append(&mut bytes, label_len.as_slice());
        append(&mut bytes, label);
        bytes.push(self.bump);
        Some(bytes)
    }
}

/// Appends the bytes of `src` to `out`.
fn append(out: &mut Vec<u8>, src: &[u8])
    ensures
        final(out)@ == old(out)@ + src@,
{
    let mut i: usize = 0;
    while i < src.len()
        invariant
            i <= src@.len(),
            out@ == old(out)@ + src@.subrange(0, i as int),
        decreases src@.len() - i,
    {
        out.push(src[i]);
        i += 1;
    }
    assert(src@.subrange(0, i as int) == src@);
}

} // verus!
