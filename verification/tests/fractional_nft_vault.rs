use contracts::fractional_nft_vault::{FractionalNftVaultContract, VaultError};

#[test]
fn distributes_buyout_payout_pro_rata() {
    let mut v = FractionalNftVaultContract::new();
    let (admin, user_a, user_b, nft) = (1, 2, 3, 4);
    v.initialize(admin, nft, [7; 32]).unwrap();
    v.fractionalize(admin, 1_000).unwrap();
    v.transfer_shares(admin, user_a, 200).unwrap();
    v.transfer_shares(admin, user_b, 300).unwrap();
    let now = 0;
    let deadline = now + 10;
    v.propose_buyout(admin, 10_000, deadline, now).unwrap();
    v.vote_buyout(admin, true, now).unwrap();
    v.vote_buyout(user_a, true, now).unwrap();
    v.vote_buyout(user_b, true, now).unwrap();
    v.finalize_buyout(admin, deadline + 1).unwrap();
    let payout_admin = v.claim_buyout_payout(admin).unwrap();
    let payout_a = v.claim_buyout_payout(user_a).unwrap();
    let payout_b = v.claim_buyout_payout(user_b).unwrap();
    assert_eq!(payout_admin, 5_000);
    assert_eq!(payout_a, 2_000);
    assert_eq!(payout_b, 3_000);
}

#[test]
fn cannot_vote_twice() {
    let mut v = FractionalNftVaultContract::new();
    v.initialize(1, 4, [1; 32]).unwrap();
    v.fractionalize(1, 100).unwrap();
    v.propose_buyout(1, 1_000, 20, 0).unwrap();
    v.vote_buyout(1, true, 0).unwrap();
    assert_eq!(v.vote_buyout(1, false, 0), Err(VaultError::AlreadyVoted));
}

#[test]
fn vault_buyout_rules() {
    let mut v = FractionalNftVaultContract::new();
    v.initialize(1, 4, [1; 32]).unwrap();
    v.fractionalize(1, 100).unwrap();
    v.transfer_shares(1, 2, 50).unwrap();
    assert_eq!(v.transfer_shares(2, 3, 51), Err(VaultError::NoShares));
    assert_eq!(v.finalize_buyout(1, 5), Err(VaultError::ProposalMissing));
    v.propose_buyout(2, 1_000, 20, 0).unwrap();
    v.vote_buyout(1, true, 0).unwrap();
    assert_eq!(v.finalize_buyout(1, 20), Err(VaultError::ProposalActive));
    // 50 of 100 shares is not a majority.
    assert_eq!(v.finalize_buyout(1, 21), Err(VaultError::BuyoutNotApproved));
    assert_eq!(v.claim_buyout_payout(1), Err(VaultError::BuyoutNotApproved));
    assert_eq!(v.vote_buyout(3, true, 0), Err(VaultError::NoShares));
    assert_eq!(v.shareholders(&vec![1, 2, 3]), vec![(1, 50), (2, 50), (3, 0)]);
}
