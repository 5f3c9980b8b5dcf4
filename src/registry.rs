use vstd::prelude::*;

use crate::table::AddressTable;
use crate::types::{
    AccountId, RiskLevel, VerificationData, VerificationError, WalletAddress, WalletVerified,
    MAX_RISK_SCORE,
};

verus! {

/// One entry of a batch: address, risk score, risk level and sanction flag.
pub type BatchEntry = (WalletAddress, u8, RiskLevel, bool);

/// What the host hands to a call: the caller's identity, the current block
/// time, and the sink that receives the emitted notifications in order.
pub struct Env {
    pub caller: AccountId,
    pub block_timestamp: u64,
    pub events: Vec<WalletVerified>,
}

impl Env {
    /// A host context for `caller` at `block_timestamp`, with no notifications yet.
    pub fn new(caller: AccountId, block_timestamp: u64) -> (r: Env)
        ensures
            r.caller == caller,
            r.block_timestamp == block_timestamp,
            r.events@ == Seq::<WalletVerified>::empty(),
    {
        Env { caller, block_timestamp, events: Vec::new() }
    }
}

/// Whether a risk score lies in the recordable range.
pub open spec fn valid_score(score: u8) -> bool {
    score <= MAX_RISK_SCORE
}

/// The record that a write of `entry` by `by` at time `at` stores.
pub open spec fn record_for(entry: BatchEntry, by: AccountId, at: u64) -> VerificationData {
    VerificationData {
        risk_score: entry.1,
        risk_level: entry.2,
        verified_at: at,
        verified_by: by,
        is_sanctioned: entry.3,
    }
}

/// The notification that a write of `entry` by `by` emits.
pub open spec fn notice_for(entry: BatchEntry, by: AccountId) -> WalletVerified {
    WalletVerified {
        wallet_address: entry.0,
        risk_score: entry.1,
        risk_level: entry.2,
        verified_by: by,
    }
}

/// The entries of a batch that are written, in input order.
pub open spec fn applied_entries(entries: Seq<BatchEntry>) -> Seq<BatchEntry>
    decreases entries.len(),
{
    if entries.len() == 0 {
        Seq::empty()
    } else {
        let earlier = applied_entries(entries.drop_last());
        if valid_score(entries.last().1) {
            earlier.push(entries.last())
        } else {
            earlier
        }
    }
}

/// The mapping after writing `entries` one after another into `records`.
pub open spec fn records_after(
    records: Map<WalletAddress, VerificationData>,
    entries: Seq<BatchEntry>,
    by: AccountId,
    at: u64,
) -> Map<WalletAddress, VerificationData>
    decreases entries.len(),
{
    if entries.len() == 0 {
        records
    } else {
        records_after(records, entries.drop_last(), by, at).insert(
            entries.last().0,
            record_for(entries.last(), by, at),
        )
    }
}

/// A prefix of a batch has no more applied entries than the whole batch.
proof fn lemma_applied_prefix_len(entries: Seq<BatchEntry>, n: int)
    requires
        0 <= n <= entries.len(),
    ensures
        applied_entries(entries.take(n)).len() <= applied_entries(entries).len(),
    decreases entries.len(),
{
    if n == entries.len() {
        assert(entries.take(n) =~= entries);
    } else {
        assert(entries.take(n) =~= entries.drop_last().take(n));
        lemma_applied_prefix_len(entries.drop_last(), n);
    }
}

/// The notifications emitted by writing `entries`, in order.
pub open spec fn notices_for(entries: Seq<BatchEntry>, by: AccountId) -> Seq<WalletVerified> {
    entries.map_values(|e: BatchEntry| notice_for(e, by))
}

/// The registry: address to verification record, a fixed owner, and a count
/// of the writes performed since construction.
pub struct VerificationContract {
    verifications: AddressTable,
    owner: AccountId,
    total_verifications: u32,
}

impl VerificationContract {
    /// The stored records, keyed by address.
    pub closed spec fn records(&self) -> Map<WalletAddress, VerificationData> {
        self.verifications@
    }

    /// The identity allowed to write.
    pub closed spec fn owner(&self) -> AccountId {
        self.owner
    }

    /// The number of writes performed since construction.
    pub closed spec fn total(&self) -> nat {
        self.total_verifications as nat
    }

    /// The registry's internal invariant.
    pub closed spec fn wf(&self) -> bool {
        &&& self.verifications.wf()
        &&& forall|a: WalletAddress| #[trigger]
            self.verifications@.contains_key(a) ==> valid_score(
                self.verifications@[a].risk_score,
            )
    }

    /// Every stored record carries a score in the recordable range.
    pub proof fn lemma_stored_scores_in_range(&self)
        requires
            self.wf(),
        ensures
            forall|a: WalletAddress| #[trigger]
                self.records().contains_key(a) ==> valid_score(self.records()[a].risk_score),
    {
    }

    /// An empty registry owned by the caller of `env`.
    pub fn new(env: &Env) -> (r: Self)
        ensures
            r.wf(),
            r.owner() == env.caller,
            r.total() == 0,
            r.records() == Map::<WalletAddress, VerificationData>::empty(),
    {
        VerificationContract {
            verifications: AddressTable::new(),
            owner: env.caller,
            total_verifications: 0,
        }
    }

    /// Writes one entry with insert-or-replace semantics and emits its
    /// notification; the counter is left to the caller.
    fn store(&mut self, env: &mut Env, entry: BatchEntry)
        requires
            old(self).wf(),
            valid_score(entry.1),
        ensures
            final(self).wf(),
            final(self).owner() == old(self).owner(),
            final(self).total() == old(self).total(),
            final(self).records() == old(self).records().insert(
                entry.0,
                record_for(entry, old(env).caller, old(env).block_timestamp),
            ),
            final(env).caller == old(env).caller,
            final(env).block_timestamp == old(env).block_timestamp,
            final(env).events@ == old(env).events@.push(notice_for(entry, old(env).caller)),
    {
        let (wallet_address, risk_score, risk_level, is_sanctioned) = entry;
        let data = VerificationData {
            risk_score,
            risk_level,
            verified_at: env.block_timestamp,
            verified_by: env.caller,
            is_sanctioned,
        };
        self.verifications.insert(wallet_address, data);
        env.events.push(WalletVerified {
            wallet_address,
            risk_score,
            risk_level,
            verified_by: env.caller,
        });
    }

    /// Records a verification of `wallet_address`, replacing any earlier
    /// record, and emits one notification. Only the owner may call it, and
    /// only with a score of at most `MAX_RISK_SCORE`; a refused call changes
    /// nothing.
    pub fn verify_wallet(
        &mut self,
        env: &mut Env,
        wallet_address: WalletAddress,
        risk_score: u8,
        risk_level: RiskLevel,
        is_sanctioned: bool,
    ) -> (r: Result<(), VerificationError>)
        requires
            old(self).wf(),
            old(env).caller == old(self).owner() && valid_score(risk_score) ==> old(self).total()
                < u32::MAX,
        ensures
            final(self).wf(),
            final(self).owner() == old(self).owner(),
            final(env).caller == old(env).caller,
            final(env).block_timestamp == old(env).block_timestamp,
            old(env).caller != old(self).owner() ==> r == Err::<(), VerificationError>(
                VerificationError::NotAuthorized,
            ),
            old(env).caller == old(self).owner() && !valid_score(risk_score) ==> r == Err::<
                (),
                VerificationError,
            >(VerificationError::InvalidRiskScore),
            old(env).caller == old(self).owner() && valid_score(risk_score) ==> r == Ok::<
                (),
                VerificationError,
            >(()),
            r is Err ==> *final(self) == *old(self) && *final(env) == *old(env),
            r is Ok ==> {
                let entry = (wallet_address, risk_score, risk_level, is_sanctioned);
                &&& final(self).records() == old(self).records().insert(
                    wallet_address,
                    record_for(entry, old(env).caller, old(env).block_timestamp),
                )
                &&& final(self).total() == old(self).total() + 1
                &&& final(env).events@ == old(env).events@.push(
                    notice_for(entry, old(env).caller),
                )
            },
            r is Ok && old(self).records().contains_key(wallet_address)
                ==> final(self).records().dom() == old(self).records().dom(),
    {
        if !env.caller.same_as(&self.owner) {
            return Err(VerificationError::NotAuthorized);
        }
        if risk_score > MAX_RISK_SCORE {
            return Err(VerificationError::InvalidRiskScore);
        }
        self.store(env, (wallet_address, risk_score, risk_level, is_sanctioned));
        self.total_verifications = self.total_verifications + 1;
        proof {
            if old(self).records().contains_key(wallet_address) {
                assert(self.records().dom() =~= old(self).records().dom());
            }
        }
        Ok(())
    }

    /// Writes each entry of `wallets` whose score is at most `MAX_RISK_SCORE`,
    /// in input order and with one notification each, skipping the others;
    /// returns how many were written. Only the owner may call it; a refused
    /// call changes nothing.
    pub fn batch_verify_wallets(&mut self, env: &mut Env, wallets: Vec<BatchEntry>) -> (r: Result<
        u32,
        VerificationError,
    >)
        requires
            old(self).wf(),
            old(env).caller == old(self).owner() ==> old(self).total() + applied_entries(
                wallets@,
            ).len() <= u32::MAX,
        ensures
            final(self).wf(),
            final(self).owner() == old(self).owner(),
            final(env).caller == old(env).caller,
            final(env).block_timestamp == old(env).block_timestamp,
            old(env).caller != old(self).owner() ==> r == Err::<u32, VerificationError>(
                VerificationError::NotAuthorized,
            ),
            old(env).caller == old(self).owner() ==> r == Ok::<u32, VerificationError>(
                applied_entries(wallets@).len() as u32,
            ),
            r is Err ==> *final(self) == *old(self) && *final(env) == *old(env),
            r is Ok ==> {
                let applied = applied_entries(wallets@);
                &&& final(self).records() == records_after(
                    old(self).records(),
                    applied,
                    old(env).caller,
                    old(env).block_timestamp,
                )
                &&& final(self).total() == old(self).total() + applied.len()
                &&& final(env).events@ == old(env).events@ + notices_for(applied, old(env).caller)
            },
    {
        if !env.caller.same_as(&self.owner) {
            return Err(VerificationError::NotAuthorized);
        }
        let ghost by = env.caller;
        let ghost at = env.block_timestamp;
        let mut verified_count: u32 = 0;
        let mut i: usize = 0;
        while i < wallets.len()
            invariant
                self.wf(),
                self.owner() == old(self).owner(),
                self.total() == old(self).total(),
                env.caller == by,
                env.block_timestamp == at,
                i <= wallets@.len(),
                old(self).total() + applied_entries(wallets@).len() <= u32::MAX,
                verified_count as nat == applied_entries(wallets@.take(i as int)).len(),
                self.records() == records_after(
                    old(self).records(),
                    applied_entries(wallets@.take(i as int)),
                    by,
                    at,
                ),
                env.events@ == old(env).events@ + notices_for(
                    applied_entries(wallets@.take(i as int)),
                    by,
                ),
            decreases wallets@.len() - i,
        {
            let entry = wallets[i];
            let ghost before = wallets@.take(i as int);
            let ghost after = wallets@.take(i as int + 1);
            proof {
                lemma_applied_prefix_len(wallets@, i as int + 1);
            }
            assert(after.drop_last() =~= before);
            assert(after.last() == entry);
            if entry.1 <= MAX_RISK_SCORE {
                self.store(env, entry);
                verified_count = verified_count + 1;
                proof {
                    let done = applied_entries(before);
                    assert(applied_entries(after) == done.push(entry));
                    assert(done.push(entry).drop_last() =~= done);
                    assert(notices_for(done.push(entry), by) =~= notices_for(done, by).push(
                        notice_for(entry, by),
                    ));
                }
            } else {
                assert(applied_entries(after) == applied_entries(before));
            }
            i = i + 1;
        }
        assert(wallets@.take(wallets@.len() as int) =~= wallets@);
        self.total_verifications = self.total_verifications + verified_count;
        Ok(verified_count)
    }

    /// The record stored for `wallet_address`, or `None` when it was never verified.
    pub fn get_verification(&self, wallet_address: WalletAddress) -> (r: Option<VerificationData>)
        requires
            self.wf(),
        ensures
            r == (if self.records().contains_key(wallet_address) {
                Some(self.records()[wallet_address])
            } else {
                None::<VerificationData>
            }),
            r matches Some(d) ==> valid_score(d.risk_score),
    {
        self.verifications.get(&wallet_address)
    }

    /// Whether a record is stored for `wallet_address`.
    pub fn is_verified(&self, wallet_address: WalletAddress) -> (r: bool)
        requires
            self.wf(),
        ensures
            r == self.records().contains_key(wallet_address),
    {
        self.verifications.contains(&wallet_address)
    }

    /// The number of writes performed since construction.
    pub fn get_total_verifications(&self) -> (r: u32)
        ensures
            r as nat == self.total(),
    {
        self.total_verifications
    }

    /// The identity that constructed the registry.
    pub fn get_owner(&self) -> (r: AccountId)
        ensures
            r == self.owner(),
    {
        self.owner
    }
}

} // verus!
