use vstd::prelude::*;

use crate::registry::{
    applied_entries, notice_for, notices_for, records_after, valid_score, BatchEntry,
};
use crate::types::{AccountId, VerificationData, WalletAddress};

verus! {

/// A batch writes exactly its entries whose score is in range, in input
/// order: they are the batch filtered by `valid_score`. It emits one
/// notification per written entry, in the same order.
pub proof fn lemma_batch_skip_policy(entries: Seq<BatchEntry>, by: AccountId)
    ensures
        applied_entries(entries) == entries.filter(|e: BatchEntry| valid_score(e.1)),
        forall|i: int|
            0 <= i < applied_entries(entries).len() ==> valid_score(
                #[trigger] applied_entries(entries)[i].1,
            ),
        notices_for(applied_entries(entries), by).len() == applied_entries(entries).len(),
        forall|i: int|
            0 <= i < applied_entries(entries).len() ==> #[trigger] notices_for(
                applied_entries(entries),
                by,
            )[i] == notice_for(applied_entries(entries)[i], by),
    decreases entries.len(),
{
    reveal(Seq::filter);
    if entries.len() > 0 {
        lemma_batch_skip_policy(entries.drop_last(), by);
    }
}

/// An address whose every occurrence in a batch carries an out-of-range score
/// keeps the record it had before the batch, or stays absent.
pub proof fn lemma_skipped_address_untouched(
    records: Map<WalletAddress, VerificationData>,
    entries: Seq<BatchEntry>,
    by: AccountId,
    at: u64,
    address: WalletAddress,
)
    requires
        forall|i: int|
            0 <= i < entries.len() && #[trigger] entries[i].0 == address ==> !valid_score(
                entries[i].1,
            ),
    ensures
        records_after(records, applied_entries(entries), by, at).contains_key(address)
            == records.contains_key(address),
        records.contains_key(address) ==> records_after(
            records,
            applied_entries(entries),
            by,
            at,
        )[address] == records[address],
    decreases entries.len(),
{
    if entries.len() > 0 {
        let rest = entries.drop_last();
        assert forall|i: int|
            0 <= i < rest.len() && #[trigger] rest[i].0 == address implies !valid_score(
                rest[i].1,
            ) by {
            assert(rest[i] == entries[i]);
        }
        lemma_skipped_address_untouched(records, rest, by, at, address);
        let earlier = applied_entries(rest);
        if valid_score(entries.last().1) {
            assert(entries.last() == entries[entries.len() - 1]);
            assert(earlier.push(entries.last()).drop_last() =~= earlier);
        }
    }
}

} // verus!
