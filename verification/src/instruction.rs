//! The one instruction of the log: writing a new record.

use vstd::prelude::*;
use crate::errors::CustomError;
use crate::record::{category_len, LogAccount, LogRecord, MAX_CATEGORY_LEN};

verus! {

/// What the instruction works on: the authenticated caller and the account
/// that the ledger has set aside for the new record.
pub struct CreateLog {
    /// Identity of the signer who files the record and pays for it.
    pub user: [u8; 32],
    /// The account at the record's address, still blank.
    pub log_account: LogAccount,
    /// Bump seed found when the account's address was derived.
    pub bump: u8,
}

/// Writes the record into the account set aside for it.
///
/// The owner is always the authenticated caller: no argument names another.
/// Any timestamp is accepted. A category of more than [`MAX_CATEGORY_LEN`]
/// bytes is refused and nothing is written.
pub fn create_log(ctx: &mut CreateLog, timestamp: i64, hash: [u8; 32], category: String) -> (result:
    Result<(), CustomError>)
    ensures
        final(ctx).user == old(ctx).user,
        final(ctx).bump == old(ctx).bump,
        category_len(category@) <= MAX_CATEGORY_LEN ==> result is Ok && final(ctx).log_account@
            == (LogRecord {
            owner: old(ctx).user@,
            timestamp,
            hash: hash@,
            category: category@,
            bump: old(ctx).bump,
        }),
        category_len(category@) > MAX_CATEGORY_LEN ==> result == Err::<(), CustomError>(
            CustomError::CategoryTooLong,
        ) && final(ctx).log_account == old(ctx).log_account,
{
    if category.as_str().as_bytes().len() > MAX_CATEGORY_LEN {
        return Err(CustomError::CategoryTooLong);
    }
    ctx.log_account.owner = ctx.user;
    ctx.log_account.timestamp = timestamp;
    ctx.log_account.hash = hash;
    ctx.log_account.category = category;
    ctx.log_account.bump = ctx.bump;
    Ok(())
}

} // verus!
