use contracts::gaming_asset_exchange::{ExchangeError, GamingAssetExchangeContract};

const ADMIN: u64 = 1;
const FEE_COLLECTOR: u64 = 2;
const PLAYER: u64 = 3;
const BUYER: u64 = 4;
const OTHER: u64 = 5;

fn setup() -> GamingAssetExchangeContract {
    let mut c = GamingAssetExchangeContract::new();
    c.init(ADMIN, FEE_COLLECTOR, 250);
    c
}

fn attributes() -> Vec<(String, String)> {
    vec![("rarity".to_string(), "epic".to_string()), ("power".to_string(), "42".to_string())]
}

fn mint(c: &mut GamingAssetExchangeContract, game: &str) -> u32 {
    c.mint_asset(
        ADMIN,
        PLAYER,
        game.to_string(),
        "Quest Helm".to_string(),
        "A helmet for curious learners.".to_string(),
        "https://example.com/helm.png".to_string(),
        "https://example.com/game/item/3".to_string(),
        attributes(),
    )
}

#[test]
fn mint_asset_assigns_owner_and_metadata() {
    let mut c = setup();
    let asset_id = c.mint_asset(
        ADMIN,
        PLAYER,
        "block_brawl".to_string(),
        "Sword of Learning".to_string(),
        "A beginner-friendly sword for classroom battles.".to_string(),
        "https://example.com/sword.png".to_string(),
        "https://example.com/game/item/1".to_string(),
        attributes(),
    );
    assert_eq!(asset_id, 1);
    assert!(c.asset_exists(asset_id));
    assert_eq!(c.get_owner(asset_id), Ok(PLAYER));
    let metadata = c.get_asset(asset_id).unwrap();
    assert_eq!(metadata.game_id, "block_brawl");
    assert_eq!(metadata.name, "Sword of Learning");
    assert_eq!(metadata.description, "A beginner-friendly sword for classroom battles.");
    assert_eq!(metadata.image_uri, "https://example.com/sword.png");
    assert_eq!(metadata.external_url, "https://example.com/game/item/1");
    let rarity = metadata.attributes.iter().find(|(k, _)| k == "rarity").map(|(_, v)| v.clone());
    assert_eq!(rarity, Some("epic".to_string()));
    let game_assets = c.get_assets_by_game(&"block_brawl".to_string());
    assert_eq!(game_assets.len(), 1);
    assert_eq!(game_assets[0], 1);
}

#[test]
fn list_delist_and_buy_asset_round_trip() {
    let mut c = setup();
    let asset_id = mint(&mut c, "arena");
    c.list_asset(PLAYER, asset_id, 500).unwrap();
    assert!(c.is_listed(asset_id));
    let listing = c.get_listing(asset_id).unwrap();
    assert_eq!(listing.seller, PLAYER);
    assert_eq!(listing.price, 500);
    assert!(listing.active);
    c.delist_asset(PLAYER, asset_id).unwrap();
    assert!(!c.is_listed(asset_id));
    c.list_asset(PLAYER, asset_id, 750).unwrap();
    c.buy_asset(BUYER, asset_id).unwrap();
    assert_eq!(c.get_owner(asset_id), Ok(BUYER));
    assert!(!c.is_listed(asset_id));
}

#[test]
fn reject_invalid_listing_price() {
    let mut c = setup();
    let asset_id = mint(&mut c, "quest");
    assert_eq!(c.list_asset(PLAYER, asset_id, 0), Err(ExchangeError::InvalidPrice));
}

#[test]
fn reject_listing_by_non_owner() {
    let mut c = setup();
    let asset_id = mint(&mut c, "quest");
    assert_eq!(c.list_asset(OTHER, asset_id, 100), Err(ExchangeError::NotAuthorized));
}

#[test]
fn reject_buy_when_not_listed() {
    let mut c = setup();
    let asset_id = mint(&mut c, "quest");
    assert_eq!(c.buy_asset(BUYER, asset_id), Err(ExchangeError::ListingNotFound));
}

#[test]
fn reject_transfer_from_non_owner() {
    let mut c = setup();
    let asset_id = mint(&mut c, "quest");
    assert_eq!(c.transfer_asset(OTHER, BUYER, asset_id), Err(ExchangeError::NotAuthorized));
}

#[test]
fn reject_get_nonexistent_asset() {
    let c = setup();
    assert_eq!(c.get_asset(999), Err(ExchangeError::AssetNotFound));
}

#[test]
fn gaming_transfer_cancels_listing() {
    let mut c = setup();
    let id = mint(&mut c, "quest");
    c.list_asset(PLAYER, id, 10).unwrap();
    c.transfer_asset(PLAYER, OTHER, id).unwrap();
    assert!(!c.is_listed(id));
    assert_eq!(c.get_owner(id), Ok(OTHER));
    assert_eq!(c.delist_asset(PLAYER, id), Err(ExchangeError::ListingNotFound));
}

#[test]
fn gaming_assets_grouped_by_game() {
    let mut c = setup();
    let a = mint(&mut c, "quest");
    let b = mint(&mut c, "arena");
    let d = mint(&mut c, "quest");
    assert_eq!(c.get_assets_by_game(&"quest".to_string()), vec![a, d]);
    assert_eq!(c.get_assets_by_game(&"arena".to_string()), vec![b]);
    assert!(c.get_assets_by_game(&"none".to_string()).is_empty());
}
