//! Accounts as the handlers see them: an identity, a signer flag, an owner,
//! a balance of transferable units ("lamports"), and a fixed-capacity byte
//! buffer of program-owned storage. The host runtime hands the entry point an
//! ordered list of these, already locked for the duration of the call.

use vstd::prelude::*;

verus! {

/// The error kinds the contract surfaces to its caller. Signer and ownership
/// failures are collapsed to `IncorrectProgramId` by the handlers, as the
/// contract's users observe them.
#[derive(Clone, Copy, Debug, PartialEq, Eq, Structural)]
pub enum ErrorKind {
    /// Malformed or unroutable instruction payload.
    InvalidInstructionData,
    /// Ownership or signer-authorization failure, as a handler reports it.
    IncorrectProgramId,
    /// A decoded record's admin does not match the caller asserting authority.
    InvalidAccountData,
    /// A transfer would leave a balance below the rent-exemption floor.
    InsufficientFunds,
    /// The account did not cryptographically authorize this transaction.
    MissingRequiredSignature,
    /// Stored or supplied bytes do not decode to a whole record.
    MalformedRecord,
    /// An encoded record does not fit the storage account's buffer.
    AccountDataTooSmall,
    /// The instruction names fewer accounts than its handler needs.
    NotEnoughAccountKeys,
}

/// The advisory diagnostic each error kind carries to the caller.
pub open spec fn spec_message(kind: ErrorKind) -> Seq<char> {
    match kind {
        ErrorKind::InvalidInstructionData => "invalid instruction data"@,
        ErrorKind::IncorrectProgramId => "incorrect program id"@,
        ErrorKind::InvalidAccountData => "invalid account data"@,
        ErrorKind::InsufficientFunds => "insufficient funds"@,
        ErrorKind::MissingRequiredSignature => "missing required signature"@,
        ErrorKind::MalformedRecord => "malformed record"@,
        ErrorKind::AccountDataTooSmall => "account data too small"@,
        ErrorKind::NotEnoughAccountKeys => "not enough account keys"@,
    }
}

impl ErrorKind {
    /// The advisory diagnostic for this error kind.
    pub fn message(&self) -> (m: &'static str)
        ensures
            m@ == spec_message(*self),
    {
        match self {
            ErrorKind::InvalidInstructionData => "invalid instruction data",
            ErrorKind::IncorrectProgramId => "incorrect program id",
            ErrorKind::InvalidAccountData => "invalid account data",
            ErrorKind::InsufficientFunds => "insufficient funds",
            ErrorKind::MissingRequiredSignature => "missing required signature",
            ErrorKind::MalformedRecord => "malformed record",
            ErrorKind::AccountDataTooSmall => "account data too small",
            ErrorKind::NotEnoughAccountKeys => "not enough account keys",
        }
    }
}

/// One ledger account, as the runtime presents it for a single call.
pub struct AccountState {
    /// The account's identity (its public key, 32 bytes on the host ledger).
    pub key: Vec<u8>,
    /// Whether this account's controlling key signed the transaction.
    pub is_signer: bool,
    /// Identity of the program permitted to mutate this account's storage.
    pub owner: Vec<u8>,
    /// Balance of transferable units.
    pub balance: u64,
    /// Program-owned storage; its length is the fixed capacity allocated at
    /// account creation and is never changed by this contract.
    pub data: Vec<u8>,
}

/// The mathematical image of an account.
pub ghost struct AccountView {
    pub key: Seq<u8>,
    pub is_signer: bool,
    pub owner: Seq<u8>,
    pub balance: u64,
    pub data: Seq<u8>,
}

impl View for AccountState {
    type V = AccountView;

    open spec fn view(&self) -> AccountView {
        AccountView {
            key: self.key@,
            is_signer: self.is_signer,
            owner: self.owner@,
            balance: self.balance,
            data: self.data@,
        }
    }
}

} // verus!
