//! The three state-transition handlers. Each composes the account validators
//! with a state transition and writes results back through the record codec.
//! A handler either commits its whole effect and returns `Ok`, or leaves
//! every account exactly as it found it and returns the error; the spec
//! transition functions below state both outcomes in full.

use vstd::prelude::*;

use crate::account::{AccountState, AccountView, ErrorKind};
use crate::codec::{
    CampaignRecord, CampaignRecordView, decode_campaign, decode_withdraw, encode_campaign,
    lemma_campaign_round_trip, lemma_decode_campaign_len, lemma_encode_len_amount_independent,
    overwrite_prefix, spec_decode_campaign, spec_decode_withdraw, spec_encode_campaign,
};
use crate::validate::{
    requires_identity_match, requires_owned_by_program, requires_signer, requires_solvent,
};

verus! {

/// The same record with its donation counter replaced.
pub open spec fn with_amount(r: CampaignRecordView, amount: u64) -> CampaignRecordView {
    CampaignRecordView {
        admin: r.admin,
        name: r.name,
        description: r.description,
        image_link: r.image_link,
        amount_donated: amount,
    }
}

/// What `create_campaign` does: every guard in order, and on success the new
/// storage contents — the supplied record with `amount_donated` forced to 0,
/// encoded over the front of the storage buffer.
pub open spec fn spec_create(
    program_id: Seq<u8>,
    storage: AccountView,
    creator: AccountView,
    rent_floor: u64,
    payload: Seq<u8>,
) -> (AccountView, Result<(), ErrorKind>) {
    if !creator.is_signer {
        (storage, Err(ErrorKind::IncorrectProgramId))
    } else if storage.owner != program_id {
        (storage, Err(ErrorKind::IncorrectProgramId))
    } else {
        match spec_decode_campaign(payload) {
            None => (storage, Err(ErrorKind::InvalidInstructionData)),
            Some((rec, n)) => if rec.admin != creator.key {
                (storage, Err(ErrorKind::InvalidInstructionData))
            } else if storage.balance < rent_floor {
                (storage, Err(ErrorKind::InsufficientFunds))
            } else {
                let enc = spec_encode_campaign(with_amount(rec, 0));
                if enc.len() > storage.data.len() {
                    (storage, Err(ErrorKind::AccountDataTooSmall))
                } else {
                    (
                        AccountView {
                            key: storage.key,
                            is_signer: storage.is_signer,
                            owner: storage.owner,
                            balance: storage.balance,
                            data: enc + storage.data.skip(enc.len() as int),
                        },
                        Ok(()),
                    )
                }
            },
        }
    }
}

/// Creates a campaign: `creator` must sign, `storage` must be owned by this
/// program and hold at least its rent floor, and the payload must decode to a
/// record naming `creator` as admin. The stored record starts with
/// `amount_donated == 0` whatever the payload supplied.
pub fn create_campaign(
    program_id: &[u8],
    storage: &mut AccountState,
    creator: &AccountState,
    rent_floor: u64,
    payload: &[u8],
) -> (r: Result<(), ErrorKind>)
    ensures
        (final(storage)@, r) == spec_create(
            program_id@,
            old(storage)@,
            creator@,
            rent_floor,
            payload@,
        ),
        r is Ok <==> (creator@.is_signer && old(storage)@.owner == program_id@
            && (spec_decode_campaign(payload@) matches Some(p) && p.0.admin == creator@.key) && old(
            storage,
        )@.balance >= rent_floor && spec_encode_campaign(
            with_amount(spec_decode_campaign(payload@)->Some_0.0, 0),
        ).len() <= old(storage)@.data.len()),
        r is Ok ==> (spec_decode_campaign(final(storage)@.data) matches Some(p)
            && p.0.amount_donated == 0 && p.0.admin == creator@.key),
        r is Ok ==> final(storage)@.balance == old(storage)@.balance && final(storage)@.data.len()
            == old(storage)@.data.len(),
        r is Err ==> final(storage)@ == old(storage)@,
{
    if let Err(_) = requires_signer(creator) {
        return Err(ErrorKind::IncorrectProgramId);
    }
    if let Err(e) = requires_owned_by_program(storage, program_id) {
        return Err(e);
    }
    let mut rec = match decode_campaign(payload) {
        Ok(rec) => rec,
        Err(_) => {
            return Err(ErrorKind::InvalidInstructionData);
        },
    };
    if let Err(e) = requires_identity_match(
        rec.admin.as_slice(),
        creator.key.as_slice(),
        ErrorKind::InvalidInstructionData,
    ) {
        return Err(e);
    }
    if let Err(e) = requires_solvent(storage, rent_floor, 0) {
        return Err(e);
    }
    rec.amount_donated = 0;
    let enc = encode_campaign(&rec);
    if enc.len() > storage.data.len() {
        return Err(ErrorKind::AccountDataTooSmall);
    }
    proof {
        lemma_campaign_round_trip(rec@, old(storage)@.data.skip(enc@.len() as int));
    }
    overwrite_prefix(&mut storage.data, &enc);
    Ok(())
}

/// What `withdraw` does: every guard in order, and on success the balance
/// moved from storage to the admin, the record untouched.
pub open spec fn spec_withdraw(
    program_id: Seq<u8>,
    storage: AccountView,
    admin: AccountView,
    rent_floor: u64,
    payload: Seq<u8>,
) -> ((AccountView, AccountView), Result<(), ErrorKind>) {
    if storage.owner != program_id {
        ((storage, admin), Err(ErrorKind::IncorrectProgramId))
    } else if !admin.is_signer {
        ((storage, admin), Err(ErrorKind::IncorrectProgramId))
    } else {
        match spec_decode_campaign(storage.data) {
            None => ((storage, admin), Err(ErrorKind::MalformedRecord)),
            Some((rec, n)) => if rec.admin != admin.key {
                ((storage, admin), Err(ErrorKind::InvalidAccountData))
            } else {
                match spec_decode_withdraw(payload) {
                    None => ((storage, admin), Err(ErrorKind::InvalidInstructionData)),
                    Some((amount, m)) => if storage.balance < rent_floor + amount {
                        ((storage, admin), Err(ErrorKind::InsufficientFunds))
                    } else {
                        (
                            (
                                AccountView {
                                    key: storage.key,
                                    is_signer: storage.is_signer,
                                    owner: storage.owner,
                                    balance: (storage.balance - amount) as u64,
                                    data: storage.data,
                                },
                                AccountView {
                                    key: admin.key,
                                    is_signer: admin.is_signer,
                                    owner: admin.owner,
                                    balance: (admin.balance + amount) as u64,
                                    data: admin.data,
                                },
                            ),
                            Ok(()),
                        )
                    },
                }
            },
        }
    }
}

/// The machine-limit bound a caller of `withdraw` must respect: where the
/// call would succeed, crediting the admin must fit a 64-bit balance.
pub open spec fn withdraw_fits(
    program_id: Seq<u8>,
    storage: AccountView,
    admin: AccountView,
    rent_floor: u64,
    payload: Seq<u8>,
) -> bool {
    spec_withdraw(program_id, storage, admin, rent_floor, payload).1 is Ok ==> admin.balance
        + spec_decode_withdraw(payload)->Some_0.0 <= u64::MAX
}

/// Withdraws funds to the stored admin: `storage` must be owned by this
/// program and hold a record naming the signing `admin`, and the requested
/// amount may never dip into the rent-exempt reserve. The record's bytes are
/// not rewritten; only balances move.
pub fn withdraw(
    program_id: &[u8],
    storage: &mut AccountState,
    admin: &mut AccountState,
    rent_floor: u64,
    payload: &[u8],
) -> (r: Result<(), ErrorKind>)
    requires
        withdraw_fits(program_id@, old(storage)@, old(admin)@, rent_floor, payload@),
    ensures
        ((final(storage)@, final(admin)@), r) == spec_withdraw(
            program_id@,
            old(storage)@,
            old(admin)@,
            rent_floor,
            payload@,
        ),
        r is Ok <==> (old(storage)@.owner == program_id@ && old(admin)@.is_signer && (
        spec_decode_campaign(old(storage)@.data) matches Some(p) && p.0.admin == old(admin)@.key)
            && spec_decode_withdraw(payload@) is Some && old(storage)@.balance >= rent_floor
            + spec_decode_withdraw(payload@)->Some_0.0),
        r is Ok ==> final(storage)@.balance >= rent_floor,
        r is Ok ==> final(storage)@.balance + final(admin)@.balance == old(storage)@.balance + old(
            admin,
        )@.balance,
        r is Ok ==> final(storage)@.data == old(storage)@.data && final(admin)@.data == old(
            admin,
        )@.data,
        r is Err ==> final(storage)@ == old(storage)@ && final(admin)@ == old(admin)@,
{
    if let Err(e) = requires_owned_by_program(storage, program_id) {
        return Err(e);
    }
    if let Err(_) = requires_signer(admin) {
        return Err(ErrorKind::IncorrectProgramId);
    }
    let rec = match decode_campaign(storage.data.as_slice()) {
        Ok(rec) => rec,
        Err(e) => {
            return Err(e);
        },
    };
    if let Err(e) = requires_identity_match(
        rec.admin.as_slice(),
        admin.key.as_slice(),
        ErrorKind::InvalidAccountData,
    ) {
        return Err(e);
    }
    let request = match decode_withdraw(payload) {
        Ok(w) => w,
        Err(_) => {
            return Err(ErrorKind::InvalidInstructionData);
        },
    };
    if let Err(e) = requires_solvent(storage, rent_floor, request.amount) {
        return Err(e);
    }
    storage.balance = storage.balance - request.amount;
    admin.balance = admin.balance + request.amount;
    Ok(())
}

/// What `donate` does: every guard in order, and on success the donation
/// account's whole balance moved into storage, `amount_donated` raised by the
/// same amount and the record re-encoded in place, the donation account
/// zeroed.
pub open spec fn spec_donate(
    program_id: Seq<u8>,
    storage: AccountView,
    donation: AccountView,
    donor: AccountView,
) -> ((AccountView, AccountView), Result<(), ErrorKind>) {
    if storage.owner != program_id {
        ((storage, donation), Err(ErrorKind::IncorrectProgramId))
    } else if donation.owner != program_id {
        ((storage, donation), Err(ErrorKind::IncorrectProgramId))
    } else if !donor.is_signer {
        ((storage, donation), Err(ErrorKind::IncorrectProgramId))
    } else {
        match spec_decode_campaign(storage.data) {
            None => ((storage, donation), Err(ErrorKind::MalformedRecord)),
            Some((rec, n)) => {
                let enc = spec_encode_campaign(
                    with_amount(rec, (rec.amount_donated + donation.balance) as u64),
                );
                (
                    (
                        AccountView {
                            key: storage.key,
                            is_signer: storage.is_signer,
                            owner: storage.owner,
                            balance: (storage.balance + donation.balance) as u64,
                            data: enc + storage.data.skip(enc.len() as int),
                        },
                        AccountView {
                            key: donation.key,
                            is_signer: donation.is_signer,
                            owner: donation.owner,
                            balance: 0,
                            data: donation.data,
                        },
                    ),
                    Ok(()),
                )
            },
        }
    }
}

/// The machine-limit bound a caller of `donate` must respect: where the call
/// would succeed, neither the storage balance nor the donation counter may
/// overflow 64 bits.
pub open spec fn donate_fits(
    program_id: Seq<u8>,
    storage: AccountView,
    donation: AccountView,
    donor: AccountView,
) -> bool {
    spec_donate(program_id, storage, donation, donor).1 is Ok ==> (storage.balance
        + donation.balance <= u64::MAX && spec_decode_campaign(
        storage.data,
    )->Some_0.0.amount_donated + donation.balance <= u64::MAX)
}

/// Donates the donation account's whole balance to the campaign: both
/// accounts must be owned by this program and the donor must sign. The moved
/// amount is added to the stored record's `amount_donated` and the record is
/// written back; the donation account is left empty.
pub fn donate(
    program_id: &[u8],
    storage: &mut AccountState,
    donation: &mut AccountState,
    donor: &AccountState,
) -> (r: Result<(), ErrorKind>)
    requires
        donate_fits(program_id@, old(storage)@, old(donation)@, donor@),
    ensures
        ((final(storage)@, final(donation)@), r) == spec_donate(
            program_id@,
            old(storage)@,
            old(donation)@,
            donor@,
        ),
        r is Ok <==> (old(storage)@.owner == program_id@ && old(donation)@.owner == program_id@
            && donor@.is_signer && spec_decode_campaign(old(storage)@.data) is Some),
        r is Ok ==> final(storage)@.balance + final(donation)@.balance == old(storage)@.balance
            + old(donation)@.balance && final(donation)@.balance == 0,
        r is Ok ==> (spec_decode_campaign(final(storage)@.data) matches Some(p)
            && p.0.amount_donated == spec_decode_campaign(
            old(storage)@.data,
        )->Some_0.0.amount_donated + old(donation)@.balance),
        r is Ok ==> final(storage)@.data.len() == old(storage)@.data.len(),
        r is Err ==> final(storage)@ == old(storage)@ && final(donation)@ == old(donation)@,
{
    if let Err(e) = requires_owned_by_program(storage, program_id) {
        return Err(e);
    }
    if let Err(e) = requires_owned_by_program(donation, program_id) {
        return Err(e);
    }
    if let Err(_) = requires_signer(donor) {
        return Err(ErrorKind::IncorrectProgramId);
    }
    let mut rec = match decode_campaign(storage.data.as_slice()) {
        Ok(rec) => rec,
        Err(e) => {
            return Err(e);
        },
    };
    proof {
        assert(spec_donate(program_id@, old(storage)@, old(donation)@, donor@).1 is Ok);
        lemma_decode_campaign_len(old(storage)@.data);
    }
    let ghost decoded = rec@;
    rec.amount_donated = rec.amount_donated + donation.balance;
    let enc = encode_campaign(&rec);
    proof {
        lemma_encode_len_amount_independent(decoded, rec@);
        lemma_campaign_round_trip(rec@, old(storage)@.data.skip(enc@.len() as int));
    }
    overwrite_prefix(&mut storage.data, &enc);
    storage.balance = storage.balance + donation.balance;
    donation.balance = 0;
    Ok(())
}

} // verus!
