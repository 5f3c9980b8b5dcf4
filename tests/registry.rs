use verification_contract::{
    AccountId, BatchEntry, Env, RiskLevel, VerificationContract, VerificationError,
    WalletVerified,
};

fn alice() -> AccountId {
    AccountId([1u8; 32])
}

fn bob() -> AccountId {
    AccountId([2u8; 32])
}

#[test]
fn new_works() {
    let env = Env::new(alice(), 0);
    let contract = VerificationContract::new(&env);
    assert_eq!(contract.get_total_verifications(), 0);
}

#[test]
fn verify_wallet_works() {
    let mut env = Env::new(alice(), 0);
    let mut contract = VerificationContract::new(&env);
    let wallet_address = [1u8; 20];
    let risk_score = 25;
    let risk_level = RiskLevel::Low;
    let is_sanctioned = false;

    assert_eq!(
        contract.verify_wallet(&mut env, wallet_address, risk_score, risk_level, is_sanctioned),
        Ok(())
    );

    assert_eq!(contract.is_verified(wallet_address), true);
    assert_eq!(contract.get_total_verifications(), 1);

    let verification = contract.get_verification(wallet_address).unwrap();
    assert_eq!(verification.risk_score, risk_score);
    assert_eq!(verification.risk_level, RiskLevel::Low);
    assert_eq!(verification.is_sanctioned, false);
}

#[test]
fn batch_verify_works() {
    let mut env = Env::new(alice(), 0);
    let mut contract = VerificationContract::new(&env);
    let wallets: Vec<BatchEntry> = vec![
        ([1u8; 20], 25, RiskLevel::Low, false),
        ([2u8; 20], 55, RiskLevel::Medium, false),
        ([3u8; 20], 85, RiskLevel::High, true),
    ];

    let result = contract.batch_verify_wallets(&mut env, wallets);
    assert_eq!(result, Ok(3));
    assert_eq!(contract.get_total_verifications(), 3);
}

#[test]
fn construct_sets_owner_and_zero_counter() {
    let env = Env::new(alice(), 0);
    let contract = VerificationContract::new(&env);
    assert_eq!(contract.get_owner(), alice());
    assert_eq!(contract.get_total_verifications(), 0);
    assert_eq!(contract.get_verification([9u8; 20]), None);
    assert!(!contract.is_verified([9u8; 20]));
}

#[test]
fn verify_stores_record_and_emits_notification() {
    let mut env = Env::new(alice(), 1234);
    let mut contract = VerificationContract::new(&env);
    assert_eq!(contract.verify_wallet(&mut env, [1u8; 20], 25, RiskLevel::Low, false), Ok(()));
    let record = contract.get_verification([1u8; 20]).unwrap();
    assert_eq!(record.risk_score, 25);
    assert_eq!(record.risk_level, RiskLevel::Low);
    assert_eq!(record.verified_at, 1234);
    assert_eq!(record.verified_by, alice());
    assert!(!record.is_sanctioned);
    assert_eq!(
        env.events,
        vec![WalletVerified {
            wallet_address: [1u8; 20],
            risk_score: 25,
            risk_level: RiskLevel::Low,
            verified_by: alice(),
        }]
    );
}

#[test]
fn non_owner_is_refused_without_effect() {
    let mut owner_env = Env::new(alice(), 0);
    let mut contract = VerificationContract::new(&owner_env);
    assert_eq!(contract.verify_wallet(&mut owner_env, [1u8; 20], 25, RiskLevel::Low, false), Ok(()));

    let mut other_env = Env::new(bob(), 5);
    assert_eq!(
        contract.verify_wallet(&mut other_env, [2u8; 20], 10, RiskLevel::Low, false),
        Err(VerificationError::NotAuthorized)
    );
    assert_eq!(contract.get_total_verifications(), 1);
    assert!(!contract.is_verified([2u8; 20]));
    assert!(other_env.events.is_empty());

    let batch: Vec<BatchEntry> = vec![([3u8; 20], 10, RiskLevel::Medium, false)];
    assert_eq!(
        contract.batch_verify_wallets(&mut other_env, batch),
        Err(VerificationError::NotAuthorized)
    );
    assert_eq!(contract.get_total_verifications(), 1);
    assert!(!contract.is_verified([3u8; 20]));
    assert!(other_env.events.is_empty());
}

#[test]
fn out_of_range_score_is_refused_without_effect() {
    let mut env = Env::new(alice(), 0);
    let mut contract = VerificationContract::new(&env);
    assert_eq!(contract.verify_wallet(&mut env, [1u8; 20], 25, RiskLevel::Low, false), Ok(()));
    assert_eq!(
        contract.verify_wallet(&mut env, [1u8; 20], 255, RiskLevel::High, true),
        Err(VerificationError::InvalidRiskScore)
    );
    assert_eq!(
        contract.verify_wallet(&mut env, [1u8; 20], 101, RiskLevel::High, true),
        Err(VerificationError::InvalidRiskScore)
    );
    let record = contract.get_verification([1u8; 20]).unwrap();
    assert_eq!(record.risk_score, 25);
    assert_eq!(record.risk_level, RiskLevel::Low);
    assert!(!record.is_sanctioned);
    assert_eq!(contract.get_total_verifications(), 1);
    assert_eq!(env.events.len(), 1);
}

#[test]
fn boundary_score_is_accepted() {
    let mut env = Env::new(alice(), 0);
    let mut contract = VerificationContract::new(&env);
    assert_eq!(contract.verify_wallet(&mut env, [7u8; 20], 100, RiskLevel::High, true), Ok(()));
    assert_eq!(contract.verify_wallet(&mut env, [8u8; 20], 0, RiskLevel::Low, false), Ok(()));
    assert_eq!(contract.get_verification([7u8; 20]).unwrap().risk_score, 100);
    assert_eq!(contract.get_verification([8u8; 20]).unwrap().risk_score, 0);
}

#[test]
fn reverify_counts_each_write() {
    let mut env = Env::new(alice(), 10);
    let mut contract = VerificationContract::new(&env);
    assert_eq!(contract.verify_wallet(&mut env, [1u8; 20], 25, RiskLevel::Low, false), Ok(()));
    env.block_timestamp = 20;
    assert_eq!(contract.verify_wallet(&mut env, [1u8; 20], 90, RiskLevel::High, true), Ok(()));
    assert_eq!(contract.get_total_verifications(), 2);
    let record = contract.get_verification([1u8; 20]).unwrap();
    assert_eq!(record.risk_score, 90);
    assert_eq!(record.risk_level, RiskLevel::High);
    assert_eq!(record.verified_at, 20);
    assert!(record.is_sanctioned);
    assert_eq!(env.events.len(), 2);
}

#[test]
fn batch_skips_invalid_scores() {
    let mut env = Env::new(alice(), 0);
    let mut contract = VerificationContract::new(&env);
    assert_eq!(contract.verify_wallet(&mut env, [1u8; 20], 25, RiskLevel::Low, false), Ok(()));
    let batch: Vec<BatchEntry> = vec![
        ([3u8; 20], 25, RiskLevel::Low, false),
        ([4u8; 20], 150, RiskLevel::Medium, false),
        ([5u8; 20], 85, RiskLevel::High, true),
    ];
    assert_eq!(contract.batch_verify_wallets(&mut env, batch), Ok(2));
    assert_eq!(contract.get_total_verifications(), 3);
    assert!(!contract.is_verified([4u8; 20]));
    assert!(contract.is_verified([3u8; 20]));
    assert!(contract.is_verified([5u8; 20]));
    assert_eq!(
        env.events[1..].to_vec(),
        vec![
            WalletVerified {
                wallet_address: [3u8; 20],
                risk_score: 25,
                risk_level: RiskLevel::Low,
                verified_by: alice(),
            },
            WalletVerified {
                wallet_address: [5u8; 20],
                risk_score: 85,
                risk_level: RiskLevel::High,
                verified_by: alice(),
            },
        ]
    );
}

#[test]
fn empty_and_all_invalid_batches_write_nothing() {
    let mut env = Env::new(alice(), 0);
    let mut contract = VerificationContract::new(&env);
    assert_eq!(contract.batch_verify_wallets(&mut env, Vec::new()), Ok(0));
    let batch: Vec<BatchEntry> = vec![([4u8; 20], 101, RiskLevel::Medium, false)];
    assert_eq!(contract.batch_verify_wallets(&mut env, batch), Ok(0));
    assert_eq!(contract.get_total_verifications(), 0);
    assert!(env.events.is_empty());
}

#[test]
fn batch_repeated_address_keeps_last_entry() {
    let mut env = Env::new(alice(), 0);
    let mut contract = VerificationContract::new(&env);
    let batch: Vec<BatchEntry> = vec![
        ([6u8; 20], 10, RiskLevel::Low, false),
        ([6u8; 20], 60, RiskLevel::Medium, true),
        ([6u8; 20], 200, RiskLevel::High, true),
    ];
    assert_eq!(contract.batch_verify_wallets(&mut env, batch), Ok(2));
    assert_eq!(contract.get_total_verifications(), 2);
    let record = contract.get_verification([6u8; 20]).unwrap();
    assert_eq!(record.risk_score, 60);
    assert_eq!(record.risk_level, RiskLevel::Medium);
}

#[test]
fn reads_change_nothing() {
    let mut env = Env::new(alice(), 3);
    let mut contract = VerificationContract::new(&env);
    assert_eq!(contract.verify_wallet(&mut env, [1u8; 20], 40, RiskLevel::Medium, true), Ok(()));
    let before = contract.get_verification([1u8; 20]);
    for _ in 0..3 {
        let _ = contract.get_verification([1u8; 20]);
        let _ = contract.is_verified([2u8; 20]);
        let _ = contract.get_total_verifications();
        let _ = contract.get_owner();
    }
    assert_eq!(contract.get_verification([1u8; 20]), before);
    assert_eq!(contract.get_total_verifications(), 1);
    assert_eq!(contract.get_owner(), alice());
}

#[test]
fn owner_stays_fixed() {
    let mut env = Env::new(alice(), 0);
    let mut contract = VerificationContract::new(&env);
    let _ = contract.verify_wallet(&mut env, [1u8; 20], 25, RiskLevel::Low, false);
    let _ = contract.verify_wallet(&mut env, [1u8; 20], 250, RiskLevel::Low, false);
    let mut other = Env::new(bob(), 0);
    let _ = contract.verify_wallet(&mut other, [1u8; 20], 25, RiskLevel::Low, false);
    let _ = contract.batch_verify_wallets(&mut other, vec![([2u8; 20], 1, RiskLevel::Low, false)]);
    let _ = contract.batch_verify_wallets(&mut env, vec![([2u8; 20], 1, RiskLevel::Low, false)]);
    assert_eq!(contract.get_owner(), alice());
}

#[test]
fn bytes_equal_compares_every_byte() {
    assert!(verification_contract::bytes_equal(&[3u8; 20], &[3u8; 20]));
    let mut other = [3u8; 20];
    other[19] = 4;
    assert!(!verification_contract::bytes_equal(&[3u8; 20], &other));
    assert!(alice().same_as(&alice()));
    assert!(!alice().same_as(&bob()));
}
