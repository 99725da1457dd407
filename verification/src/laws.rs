//! Laws that relate several operations: the donation counter a stored record
//! carries never decreases across any sequence of successful donations.

use vstd::prelude::*;

use crate::account::AccountView;
use crate::codec::{
    lemma_campaign_round_trip, lemma_decode_campaign_len, lemma_encode_len_amount_independent,
    spec_decode_campaign, spec_encode_campaign, CampaignRecordView,
};
use crate::handlers::{donate_fits, spec_donate, with_amount};

verus! {

/// The donation counter a storage account currently records.
pub open spec fn recorded_amount(storage: AccountView) -> u64 {
    spec_decode_campaign(storage.data)->Some_0.0.amount_donated
}

/// The whole record a storage account currently holds.
pub open spec fn recorded(storage: AccountView) -> CampaignRecordView {
    spec_decode_campaign(storage.data)->Some_0.0
}

/// One successful donation raises the recorded counter by exactly the
/// donation account's balance — it never lowers it — and changes nothing
/// else in the record: the admin set at creation and the text metadata come
/// through untouched, and the record stays decodable for the next call.
pub proof fn lemma_donate_monotonic(
    program_id: Seq<u8>,
    storage: AccountView,
    donation: AccountView,
    donor: AccountView,
)
    requires
        spec_donate(program_id, storage, donation, donor).1 is Ok,
        donate_fits(program_id, storage, donation, donor),
    ensures
        ({
            let post = spec_donate(program_id, storage, donation, donor).0.0;
            &&& spec_decode_campaign(post.data) is Some
            &&& recorded_amount(post) == recorded_amount(storage) + donation.balance
            &&& recorded_amount(post) >= recorded_amount(storage)
            &&& recorded(post) == with_amount(recorded(storage), recorded_amount(post))
        }),
{
    let rec = spec_decode_campaign(storage.data)->Some_0.0;
    let updated = with_amount(rec, (rec.amount_donated + donation.balance) as u64);
    lemma_decode_campaign_len(storage.data);
    lemma_encode_len_amount_independent(rec, updated);
    lemma_campaign_round_trip(
        updated,
        storage.data.skip(spec_encode_campaign(updated).len() as int),
    );
}

/// The storage account as it stands after a sequence of donations, each entry
/// one `donate` call's donation account and signing donor.
pub open spec fn donates_applied(
    program_id: Seq<u8>,
    storage: AccountView,
    steps: Seq<(AccountView, AccountView)>,
) -> AccountView
    decreases steps.len(),
{
    if steps.len() == 0 {
        storage
    } else {
        let next = spec_donate(program_id, storage, steps[0].0, steps[0].1).0.0;
        donates_applied(program_id, next, steps.skip(1))
    }
}

/// Every donation in the sequence succeeds and fits the 64-bit balances.
pub open spec fn donates_all_ok(
    program_id: Seq<u8>,
    storage: AccountView,
    steps: Seq<(AccountView, AccountView)>,
) -> bool
    decreases steps.len(),
{
    steps.len() == 0 || {
        &&& spec_donate(program_id, storage, steps[0].0, steps[0].1).1 is Ok
        &&& donate_fits(program_id, storage, steps[0].0, steps[0].1)
        &&& donates_all_ok(
            program_id,
            spec_donate(program_id, storage, steps[0].0, steps[0].1).0.0,
            steps.skip(1),
        )
    }
}

/// `amount_donated` is monotonically non-decreasing across any sequence of
/// successful `donate` calls on the same record, and the admin named at
/// creation survives every one of them.
pub proof fn lemma_donate_sequence_monotonic(
    program_id: Seq<u8>,
    storage: AccountView,
    steps: Seq<(AccountView, AccountView)>,
)
    requires
        donates_all_ok(program_id, storage, steps),
    ensures
        recorded_amount(donates_applied(program_id, storage, steps)) >= recorded_amount(storage),
        recorded(donates_applied(program_id, storage, steps)).admin == recorded(storage).admin,
    decreases steps.len(),
{
    if steps.len() > 0 {
        lemma_donate_monotonic(program_id, storage, steps[0].0, steps[0].1);
        let next = spec_donate(program_id, storage, steps[0].0, steps[0].1).0.0;
        lemma_donate_sequence_monotonic(program_id, next, steps.skip(1));
    }
}

} // verus!
