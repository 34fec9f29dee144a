use contracts::anti_scalping::{AntiScalpingContract, ResaleListing, ScalpingError};
use contracts::nft_ticketing::{NftTicketingContract, TicketingError};

#[test]
fn ticketing_mint_and_transfer() {
    let mut c = NftTicketingContract::new();
    c.init(1);
    let t1 = c.mint_ticket(1, 10, 7, "A1".to_string(), 1_700_000_000, "Hall".to_string(), "qr".to_string(), 50);
    let t2 = c.mint_ticket(1, 11, 7, "A2".to_string(), 1_700_000_000, "Hall".to_string(), "qr2".to_string(), 50);
    assert_eq!((t1, t2), (1, 2));
    assert_eq!(c.event_tickets.get(&7), Some(&vec![1, 2]));
    assert_eq!(c.get_ticket(t1).unwrap().seat, "A1");
    assert_eq!(c.get_ticket(9).err(), Some(TicketingError::TicketNotFound));
    assert_eq!(c.transfer_ticket(11, 12, t1), Err(TicketingError::NotAuthorized));
    c.transfer_ticket(10, 12, t1).unwrap();
    assert_eq!(c.get_owner(t1), Ok(12));
    assert_eq!(c.get_owner(3), Err(TicketingError::TicketNotFound));
}

#[test]
fn scalping_price_ceiling() {
    let mut c = AntiScalpingContract::new();
    c.init(1);
    // 15 % over a face value of 100.
    assert_eq!(c.list_for_resale(5, 1, 100, 116), Err(ScalpingError::PriceAboveCeiling));
    c.list_for_resale(5, 1, 100, 115).unwrap();
    assert_eq!(c.listings.get(&1), Some(&ResaleListing { ticket_id: 1, seller: 5, price: 115 }));
}

#[test]
fn scalping_resale_purchase_rules() {
    let mut c = AntiScalpingContract::new();
    c.init(1);
    c.set_purchase_limit(1, 9, 1);
    c.list_for_resale(5, 1, 100, 110).unwrap();
    c.list_for_resale(5, 2, 100, 105).unwrap();
    assert_eq!(c.buy_resale_ticket(6, 1, 9), Err(ScalpingError::IdentityNotVerified));
    c.verify_identity(1, 6);
    assert_eq!(c.buy_resale_ticket(6, 3, 9), Err(ScalpingError::ListingNotFound));
    c.buy_resale_ticket(6, 1, 9).unwrap();
    assert_eq!(c.history.get(&1), Some(&vec![110]));
    assert!(c.listings.get(&1).is_none());
    assert_eq!(c.buy_resale_ticket(6, 2, 9), Err(ScalpingError::PurchaseLimitExceeded));
    // Another event falls back to the default limit of 4.
    c.buy_resale_ticket(6, 2, 8).unwrap();
}
