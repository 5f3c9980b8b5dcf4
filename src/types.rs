use vstd::prelude::*;

verus! {

/// A 20-byte wallet address, used only as a lookup key.
pub type WalletAddress = [u8; 20];

/// The identity of an account on the host ledger.
#[derive(Clone, Copy, Debug, PartialEq, Eq)]
pub struct AccountId(pub [u8; 32]);

/// Compares two byte arrays element by element.
pub fn bytes_equal<const N: usize>(a: &[u8; N], b: &[u8; N]) -> (r: bool)
    ensures
        r == (*a == *b),
{
    let mut i: usize = 0;
    while i < N
        invariant
            i <= N,
            a@.len() == N,
            b@.len() == N,
            forall|j: int| 0 <= j < i ==> a[j] == b[j],
        decreases N - i,
    {
        if a[i] != b[i] {
            assert(!(*a =~= *b));
            return false;
        }
        i = i + 1;
    }
    assert(*a =~= *b);
    true
}

impl AccountId {
    /// Whether two identities are the same account.
    pub fn same_as(&self, other: &AccountId) -> (r: bool)
        ensures
            r == (*self == *other),
    {
        bytes_equal(&self.0, &other.0)
    }
}

/// Categorical risk label, stored as supplied.
#[derive(Clone, Copy, Debug, PartialEq, Eq, Structural)]
pub enum RiskLevel {
    Low,
    Medium,
    High,
}

/// The record stored for a verified wallet.
#[derive(Clone, Copy, Debug, PartialEq, Eq)]
pub struct VerificationData {
    pub risk_score: u8,
    pub risk_level: RiskLevel,
    pub verified_at: u64,
    pub verified_by: AccountId,
    pub is_sanctioned: bool,
}

/// The notification emitted for each stored verification.
#[derive(Clone, Copy, Debug, PartialEq, Eq)]
pub struct WalletVerified {
    pub wallet_address: WalletAddress,
    pub risk_score: u8,
    pub risk_level: RiskLevel,
    pub verified_by: AccountId,
}

/// Errors of the mutating operations.
#[derive(Clone, Copy, Debug, PartialEq, Eq, Structural)]
pub enum VerificationError {
    NotAuthorized,
    InvalidRiskScore,
    /// Part of the error vocabulary; no operation returns it, since a new
    /// verification of a known address replaces the earlier record.
    WalletAlreadyVerified,
}

/// The highest risk score that may be recorded.
pub const MAX_RISK_SCORE: u8 = 100;

} // verus!
