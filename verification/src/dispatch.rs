//! The entry point: reads the selector byte, hands the remaining payload and
//! the ordered account list to the selected handler, and maps an empty or
//! unroutable payload to `InvalidInstructionData`.

use vstd::prelude::*;
use vstd::slice::{slice_index_get, slice_subrange};

use crate::account::{AccountState, AccountView, ErrorKind};
use crate::handlers::{
    create_campaign, donate, donate_fits, spec_create, spec_donate, spec_withdraw, withdraw,
    withdraw_fits,
};

verus! {

/// The mathematical image of an account list.
pub open spec fn account_views(accounts: Seq<AccountState>) -> Seq<AccountView> {
    accounts.map_values(|a: AccountState| a@)
}

/// What the dispatcher does: selector `0` creates, `1` withdraws, `2`
/// donates; anything else — or an empty instruction — is unroutable. Each
/// handler reads its accounts positionally from the front of the list and
/// every other account is left untouched.
pub open spec fn spec_process(
    program_id: Seq<u8>,
    accounts: Seq<AccountView>,
    rent_floor: u64,
    instruction: Seq<u8>,
) -> (Seq<AccountView>, Result<(), ErrorKind>) {
    if instruction.len() == 0 {
        (accounts, Err(ErrorKind::InvalidInstructionData))
    } else {
        let payload = instruction.skip(1);
        if instruction[0] == 0 {
            if accounts.len() < 2 {
                (accounts, Err(ErrorKind::NotEnoughAccountKeys))
            } else {
                let step = spec_create(program_id, accounts[0], accounts[1], rent_floor, payload);
                (accounts.update(0, step.0), step.1)
            }
        } else if instruction[0] == 1 {
            if accounts.len() < 2 {
                (accounts, Err(ErrorKind::NotEnoughAccountKeys))
            } else {
                let step = spec_withdraw(program_id, accounts[0], accounts[1], rent_floor, payload);
                (accounts.update(0, step.0.0).update(1, step.0.1), step.1)
            }
        } else if instruction[0] == 2 {
            if accounts.len() < 3 {
                (accounts, Err(ErrorKind::NotEnoughAccountKeys))
            } else {
                let step = spec_donate(program_id, accounts[0], accounts[1], accounts[2]);
                (accounts.update(0, step.0.0).update(1, step.0.1), step.1)
            }
        } else {
            (accounts, Err(ErrorKind::InvalidInstructionData))
        }
    }
}

/// The machine-limit bounds the entry point passes on to its handlers: a
/// routed call that would succeed must not overflow a 64-bit balance.
pub open spec fn process_requires(
    program_id: Seq<u8>,
    accounts: Seq<AccountView>,
    rent_floor: u64,
    instruction: Seq<u8>,
) -> bool {
    instruction.len() > 0 ==> {
        &&& (instruction[0] == 1 && accounts.len() >= 2) ==> withdraw_fits(
            program_id,
            accounts[0],
            accounts[1],
            rent_floor,
            instruction.skip(1),
        )
        &&& (instruction[0] == 2 && accounts.len() >= 3) ==> donate_fits(
            program_id,
            accounts[0],
            accounts[1],
            accounts[2],
        )
    }
}

/// The single entry point. Routes the instruction to a handler and commits
/// exactly the account changes `spec_process` describes — nothing on error.
pub fn process_instruction(
    program_id: &[u8],
    accounts: &mut Vec<AccountState>,
    rent_floor: u64,
    instruction: &[u8],
) -> (r: Result<(), ErrorKind>)
    requires
        process_requires(program_id@, account_views(old(accounts)@), rent_floor, instruction@),
    ensures
        account_views(final(accounts)@) == spec_process(
            program_id@,
            account_views(old(accounts)@),
            rent_floor,
            instruction@,
        ).0,
        r == spec_process(
            program_id@,
            account_views(old(accounts)@),
            rent_floor,
            instruction@,
        ).1,
        final(accounts)@.len() == old(accounts)@.len(),
        r is Err ==> account_views(final(accounts)@) == account_views(old(accounts)@),
{
    let ghost pre = account_views(accounts@);
    if instruction.len() == 0 {
        return Err(ErrorKind::InvalidInstructionData);
    }
    let selector = *slice_index_get(instruction, 0);
    let payload = slice_subrange(instruction, 1, instruction.len());
    if selector == 0 {
        if accounts.len() < 2 {
            return Err(ErrorKind::NotEnoughAccountKeys);
        }
        let mut storage = accounts.remove(0);
        let creator = accounts.remove(0);
        let r = create_campaign(program_id, &mut storage, &creator, rent_floor, payload);
        accounts.insert(0, creator);
        accounts.insert(0, storage);
        proof {
            let step = spec_create(program_id@, pre[0], pre[1], rent_floor, instruction@.skip(1));
            assert(account_views(accounts@) =~= pre.update(0, step.0));
        }
        r
    } else if selector == 1 {
        if accounts.len() < 2 {
            return Err(ErrorKind::NotEnoughAccountKeys);
        }
        let mut storage = accounts.remove(0);
        let mut admin = accounts.remove(0);
        let r = withdraw(program_id, &mut storage, &mut admin, rent_floor, payload);
        accounts.insert(0, admin);
        accounts.insert(0, storage);
        proof {
            let step = spec_withdraw(program_id@, pre[0], pre[1], rent_floor, instruction@.skip(1));
            assert(account_views(accounts@) =~= pre.update(0, step.0.0).update(1, step.0.1));
        }
        r
    } else if selector == 2 {
        if accounts.len() < 3 {
            return Err(ErrorKind::NotEnoughAccountKeys);
        }
        let mut storage = accounts.remove(0);
        let mut donation = accounts.remove(0);
        let r = donate(
            program_id,
            &mut storage,
            &mut donation,
            slice_index_get(accounts.as_slice(), 0),
        );
        accounts.insert(0, donation);
        accounts.insert(0, storage);
        proof {
            let step = spec_donate(program_id@, pre[0], pre[1], pre[2]);
            assert(account_views(accounts@) =~= pre.update(0, step.0.0).update(1, step.0.1));
        }
        r
    } else {
        Err(ErrorKind::InvalidInstructionData)
    }
}

} // verus!
