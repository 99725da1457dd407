//! Pure guard predicates over account metadata: signer authorization,
//! program ownership of a record-bearing account, rent-floor solvency, and
//! identity match between a decoded record and the caller asserting authority.

use vstd::prelude::*;
use vstd::slice::slice_index_get;

use crate::account::{AccountState, ErrorKind};

verus! {

/// Byte-for-byte equality of two identities.
pub fn bytes_eq(a: &[u8], b: &[u8]) -> (r: bool)
    ensures
        r <==> a@ == b@,
{
    if a.len() != b.len() {
        proof {
            assert(a@.len() != b@.len());
        }
        return false;
    }
    let mut i: usize = 0;
    while i < a.len()
        invariant
            i <= a@.len(),
            a@.len() == b@.len(),
            forall|k: int| 0 <= k < i ==> a@[k] == b@[k],
        decreases a@.len() - i,
    {
        if *slice_index_get(a, i) != *slice_index_get(b, i) {
            return false;
        }
        i = i + 1;
    }
    proof {
        assert(a@ =~= b@);
    }
    true
}

/// Fails unless the account cryptographically authorized this transaction.
pub fn requires_signer(account: &AccountState) -> (r: Result<(), ErrorKind>)
    ensures
        account@.is_signer ==> r is Ok,
        !account@.is_signer ==> r == Err::<(), ErrorKind>(ErrorKind::MissingRequiredSignature),
{
    if account.is_signer {
        Ok(())
    } else {
        Err(ErrorKind::MissingRequiredSignature)
    }
}

/// Fails unless the account's storage is owned by this program.
pub fn requires_owned_by_program(account: &AccountState, program_id: &[u8]) -> (r: Result<
    (),
    ErrorKind,
>)
    ensures
        r is Ok <==> account@.owner == program_id@,
        !(account@.owner == program_id@) ==> r == Err::<(), ErrorKind>(
            ErrorKind::IncorrectProgramId,
        ),
{
    if bytes_eq(account.owner.as_slice(), program_id) {
        Ok(())
    } else {
        Err(ErrorKind::IncorrectProgramId)
    }
}

/// Fails unless the account can give up `amount` units and still retain its
/// rent-exemption floor. The comparison never underflows: a floor above the
/// balance is itself insolvent.
pub fn requires_solvent(account: &AccountState, rent_floor: u64, amount: u64) -> (r: Result<
    (),
    ErrorKind,
>)
    ensures
        r is Ok <==> account@.balance >= rent_floor + amount,
        account@.balance < rent_floor + amount ==> r == Err::<(), ErrorKind>(
            ErrorKind::InsufficientFunds,
        ),
{
    if account.balance >= rent_floor && account.balance - rent_floor >= amount {
        Ok(())
    } else {
        Err(ErrorKind::InsufficientFunds)
    }
}

/// Fails with the given kind unless the two identities match.
pub fn requires_identity_match(expected: &[u8], actual: &[u8], mismatch: ErrorKind) -> (r: Result<
    (),
    ErrorKind,
>)
    ensures
        r is Ok <==> expected@ == actual@,
        !(expected@ == actual@) ==> r == Err::<(), ErrorKind>(mismatch),
{
    if bytes_eq(expected, actual) {
        Ok(())
    } else {
        Err(mismatch)
    }
}

} // verus!
