use contracts::membership_nft::{MembershipNftContract, NftError, Tier, TierConfig};

fn cfg(name: &str, flags: u32) -> TierConfig {
    TierConfig { name: name.to_string(), benefit_flags: flags }
}

fn setup() -> (MembershipNftContract, u64) {
    let admin = 1;
    let mut c = MembershipNftContract::new();
    c.init(admin).unwrap();
    c.set_tier_config(admin, Tier::Bronze, cfg("Bronze", 0b001)).unwrap();
    c.set_tier_config(admin, Tier::Silver, cfg("Silver", 0b011)).unwrap();
    c.set_tier_config(admin, Tier::Gold, cfg("Gold", 0b111)).unwrap();
    (c, admin)
}

#[test]
fn mint_assigns_owner_and_tier() {
    let (mut c, admin) = setup();
    let alice = 10;
    let id = c.mint(admin, alice, Tier::Silver, false, 0).unwrap();
    assert_eq!(c.owner_of(id), Ok(alice));
    assert_eq!(c.tier_of(id), Ok(Tier::Silver));
    assert_eq!(c.tier_of_owner(alice), Some(Tier::Silver));
    assert_eq!(c.tier_count(Tier::Silver), 1);
    assert_eq!(c.total_minted(), 1);
}

#[test]
fn tier_of_owner_returns_highest_held_tier() {
    let (mut c, admin) = setup();
    let alice = 10;
    c.mint(admin, alice, Tier::Bronze, false, 0).unwrap();
    c.mint(admin, alice, Tier::Gold, false, 0).unwrap();
    c.mint(admin, alice, Tier::Silver, false, 0).unwrap();
    assert_eq!(c.tier_of_owner(alice), Some(Tier::Gold));
}

#[test]
fn transfer_moves_ownership_and_updates_tier_lookup() {
    let (mut c, admin) = setup();
    let alice = 10;
    let bob = 11;
    let id = c.mint(admin, alice, Tier::Gold, false, 0).unwrap();
    c.transfer(alice, bob, id).unwrap();
    assert_eq!(c.owner_of(id), Ok(bob));
    assert_eq!(c.tier_of_owner(alice), None);
    assert_eq!(c.tier_of_owner(bob), Some(Tier::Gold));
}

#[test]
fn soulbound_token_cannot_be_transferred() {
    let (mut c, admin) = setup();
    let alice = 10;
    let bob = 11;
    let id = c.mint(admin, alice, Tier::Bronze, true, 0).unwrap();
    assert_eq!(c.transfer(alice, bob, id), Err(NftError::Soulbound));
    assert_eq!(c.owner_of(id), Ok(alice));
}

#[test]
fn mint_without_tier_config_fails() {
    let admin = 1;
    let alice = 10;
    let mut c = MembershipNftContract::new();
    c.init(admin).unwrap();
    assert_eq!(c.mint(admin, alice, Tier::Bronze, false, 0), Err(NftError::TierNotConfigured));
}

#[test]
fn burn_removes_token_and_updates_counts() {
    let (mut c, admin) = setup();
    let alice = 10;
    let id = c.mint(admin, alice, Tier::Silver, false, 0).unwrap();
    c.burn(admin, id).unwrap();
    assert_eq!(c.token_info(id), None);
    assert_eq!(c.tier_of_owner(alice), None);
    assert_eq!(c.tier_count(Tier::Silver), 0);
}

#[test]
fn membership_errors_for_each_refusal() {
    let (mut c, admin) = setup();
    assert_eq!(c.init(admin), Err(NftError::AlreadyInitialized));
    assert_eq!(c.mint(99, 10, Tier::Gold, false, 0), Err(NftError::Unauthorized));
    assert_eq!(c.transfer(10, 11, 42), Err(NftError::TokenNotFound));
    let id = c.mint(admin, 10, Tier::Gold, false, 7).unwrap();
    assert_eq!(c.transfer(11, 12, id), Err(NftError::NotOwner));
    assert_eq!(c.token_info(id).unwrap().minted_at, 7);
    let mut fresh = MembershipNftContract::new();
    assert_eq!(fresh.mint(admin, 10, Tier::Gold, false, 0), Err(NftError::NotInitialized));
}

#[test]
fn tier_ranks_are_ordered() {
    assert_eq!(Tier::Bronze.rank(), 1);
    assert_eq!(Tier::Silver.rank(), 2);
    assert_eq!(Tier::Gold.rank(), 3);
}

#[test]
fn tokens_of_lists_in_receipt_order_and_config_reads_back() {
    let (mut c, admin) = setup();
    let a = c.mint(admin, 10, Tier::Bronze, false, 0).unwrap();
    let b = c.mint(admin, 10, Tier::Gold, false, 0).unwrap();
    let d = c.mint(admin, 10, Tier::Silver, false, 0).unwrap();
    c.transfer(10, 11, b).unwrap();
    assert_eq!(c.tokens_of(10), vec![a, d]);
    assert_eq!(c.tokens_of(11), vec![b]);
    let conf = c.tier_config(Tier::Silver).unwrap();
    assert_eq!(conf.name, "Silver");
    assert_eq!(conf.benefit_flags, 0b011);
}
