use contracts::rarity_validator::{RarityError, RarityTier, RarityValidatorContract};

fn traits(values: &[u32]) -> Vec<(String, u32)> {
    values.iter().enumerate().map(|(i, v)| (format!("t{}", i), *v)).collect()
}

#[test]
fn rarity_tiers_by_score_band() {
    let mut c = RarityValidatorContract::new();
    c.init(1);
    assert_eq!(c.calculate_rarity(1, 100, traits(&[])).tier, RarityTier::Common);
    assert_eq!(c.calculate_rarity(2, 100, traits(&[50])).tier, RarityTier::Uncommon);
    assert_eq!(c.calculate_rarity(3, 300, traits(&[50, 50])).tier, RarityTier::Rare);
    assert_eq!(c.calculate_rarity(4, 749, traits(&[1])).tier, RarityTier::Epic);
    let d = c.calculate_rarity(5, 500, traits(&[250, 250]));
    assert_eq!(d.score, 1000);
    assert_eq!(d.tier, RarityTier::Legendary);
    assert!(!d.verified);
    assert_eq!(c.calculate_rarity(6, 149, traits(&[])).tier, RarityTier::Common);
}

#[test]
fn rarity_attestation() {
    let mut c = RarityValidatorContract::new();
    assert_eq!(c.attest_by_developer(7, 1), Err(RarityError::AssetNotFound));
    assert_eq!(c.get_rarity(1), Err(RarityError::AssetNotFound));
    c.calculate_rarity(1, 10, traits(&[5]));
    c.attest_by_developer(7, 1).unwrap();
    let d = c.get_rarity(1).unwrap();
    assert_eq!(d.score, 15);
    assert!(d.verified);
    assert_eq!(d.developer_attestation, Some(7));
}
