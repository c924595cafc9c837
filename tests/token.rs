use cosmwasm_std::Coin;
use dice_token::expiration::{Expiration, LogicalTime};
use dice_token::token::{CanonicalAddress, CollateralInfo, Permission, PermissionType, Token, TokenError};

fn addr(b: &[u8]) -> CanonicalAddress {
    CanonicalAddress { bytes: b.to_vec() }
}

fn token_of(owner: &[u8]) -> Token {
    Token { owner: addr(owner), permissions: vec![], unwrapped: true, collateralised: false }
}

fn at(height: u64, time: u64) -> LogicalTime {
    LogicalTime { height, time }
}

fn pledged(owner: &[u8], expiration: Expiration) -> (Token, Option<CollateralInfo>) {
    let mut t = token_of(owner);
    let mut info = None;
    t.enter_collateral(&mut info, &addr(owner), Coin::new(10, "denomA"), Coin::new(12, "denomA"), expiration)
        .unwrap();
    (t, info)
}

#[test]
fn expiration_elapses_at_or_after_its_bound() {
    assert!(!Expiration::AtHeight(10).is_expired(&at(9, 1000)));
    assert!(Expiration::AtHeight(10).is_expired(&at(10, 0)));
    assert!(Expiration::AtHeight(10).is_expired(&at(11, 0)));
    assert!(!Expiration::AtTime(500).is_expired(&at(1000, 499)));
    assert!(Expiration::AtTime(500).is_expired(&at(0, 500)));
    assert!(!Expiration::Never.is_expired(&at(u64::MAX, u64::MAX)));
}

#[test]
fn address_equality_compares_bytes() {
    assert!(addr(b"abc").equals(&addr(b"abc")));
    assert!(!addr(b"abc").equals(&addr(b"abd")));
    assert!(!addr(b"abc").equals(&addr(b"ab")));
    assert!(addr(b"").equals(&addr(b"")));
}

#[test]
fn owner_may_transfer_and_stranger_may_not() {
    let t = token_of(b"O");
    assert_eq!(t.check_permission(&addr(b"O"), PermissionType::Transfer, &at(1, 1)), Ok(()));
    assert_eq!(
        t.check_permission(&addr(b"X"), PermissionType::Transfer, &at(1, 1)),
        Err(TokenError::Unauthorized)
    );
}

#[test]
fn live_grant_authorises_only_its_category() {
    let mut t = token_of(b"O");
    t.grant_permission(&addr(b"O"), addr(b"X"), PermissionType::Transfer, Expiration::AtHeight(100)).unwrap();
    assert_eq!(t.permissions.len(), 1);
    assert_eq!(t.permissions[0].transfer, Some(Expiration::AtHeight(100)));
    assert_eq!(t.permissions[0].view_owner, None);
    assert_eq!(t.check_permission(&addr(b"X"), PermissionType::Transfer, &at(99, 0)), Ok(()));
    assert_eq!(
        t.check_permission(&addr(b"X"), PermissionType::ViewMetadata, &at(99, 0)),
        Err(TokenError::Unauthorized)
    );
    assert_eq!(
        t.check_permission(&addr(b"Y"), PermissionType::Transfer, &at(99, 0)),
        Err(TokenError::Unauthorized)
    );
}

#[test]
fn expired_grant_is_inert_but_kept() {
    let mut t = token_of(b"O");
    t.permissions.push(Permission {
        address: addr(b"X"),
        view_owner: Some(Expiration::AtTime(50)),
        view_metadata: None,
        transfer: None,
    });
    assert_eq!(t.check_permission(&addr(b"X"), PermissionType::ViewOwner, &at(0, 49)), Ok(()));
    assert_eq!(
        t.check_permission(&addr(b"X"), PermissionType::ViewOwner, &at(0, 50)),
        Err(TokenError::Unauthorized)
    );
    assert_eq!(t.permissions.len(), 1);
}

#[test]
fn grant_updates_existing_entry_and_revoke_clears_it() {
    let mut t = token_of(b"O");
    let o = addr(b"O");
    t.grant_permission(&o, addr(b"X"), PermissionType::Transfer, Expiration::Never).unwrap();
    t.grant_permission(&o, addr(b"X"), PermissionType::ViewOwner, Expiration::AtHeight(5)).unwrap();
    t.grant_permission(&o, addr(b"Z"), PermissionType::ViewOwner, Expiration::Never).unwrap();
    assert_eq!(t.permissions.len(), 2);
    assert_eq!(t.permissions[0].transfer, Some(Expiration::Never));
    assert_eq!(t.permissions[0].view_owner, Some(Expiration::AtHeight(5)));
    t.revoke_permission(&o, &addr(b"X"), PermissionType::Transfer).unwrap();
    assert_eq!(t.permissions[0].transfer, None);
    assert_eq!(t.permissions[0].view_owner, Some(Expiration::AtHeight(5)));
    assert_eq!(
        t.check_permission(&addr(b"X"), PermissionType::Transfer, &at(0, 0)),
        Err(TokenError::Unauthorized)
    );
    assert_eq!(t.check_permission(&addr(b"Z"), PermissionType::ViewOwner, &at(0, 0)), Ok(()));
}

#[test]
fn only_owner_grants_and_revokes() {
    let mut t = token_of(b"O");
    let before = t.clone();
    assert_eq!(
        t.grant_permission(&addr(b"X"), addr(b"X"), PermissionType::Transfer, Expiration::Never),
        Err(TokenError::Unauthorized)
    );
    assert_eq!(t.revoke_permission(&addr(b"X"), &addr(b"O"), PermissionType::Transfer), Err(TokenError::Unauthorized));
    assert_eq!(t, before);
}

#[test]
fn pledged_token_refuses_everyone_even_the_owner() {
    let (mut t, mut info) = pledged(b"O", Expiration::AtHeight(10));
    let before = t.clone();
    let o = addr(b"O");
    assert_eq!(t.check_permission(&o, PermissionType::Transfer, &at(0, 0)), Err(TokenError::TokenLocked));
    assert_eq!(t.check_permission(&o, PermissionType::ViewOwner, &at(0, 0)), Err(TokenError::TokenLocked));
    assert_eq!(
        t.grant_permission(&o, addr(b"X"), PermissionType::Transfer, Expiration::Never),
        Err(TokenError::TokenLocked)
    );
    assert_eq!(t.revoke_permission(&o, &addr(b"X"), PermissionType::Transfer), Err(TokenError::TokenLocked));
    assert_eq!(
        t.enter_collateral(&mut info, &o, Coin::new(1, "x"), Coin::new(2, "x"), Expiration::Never),
        Err(TokenError::TokenLocked)
    );
    assert_eq!(t, before);
    assert_eq!(info.as_ref().unwrap().price, Coin::new(10, "denomA"));
}

#[test]
fn only_owner_may_pledge() {
    let mut t = token_of(b"O");
    let mut info = None;
    assert_eq!(
        t.enter_collateral(&mut info, &addr(b"X"), Coin::new(10, "a"), Coin::new(12, "a"), Expiration::Never),
        Err(TokenError::Unauthorized)
    );
    assert!(!t.collateralised);
    assert!(info.is_none());
}

#[test]
fn collateral_lifecycle_with_redeem() {
    let (mut t, mut info) = pledged(b"O", Expiration::AtHeight(100));
    assert!(t.collateralised);
    let ci = info.as_ref().unwrap();
    assert_eq!(ci.price, Coin::new(10, "denomA"));
    assert_eq!(ci.repayment, Coin::new(12, "denomA"));
    assert_eq!(ci.expiration, Expiration::AtHeight(100));
    assert!(ci.holder.is_none());

    t.accept_collateral(&mut info, addr(b"H")).unwrap();
    assert_eq!(info.as_ref().unwrap().holder, Some(addr(b"H")));

    assert!(matches!(
        t.redeem_collateral(&mut info, &addr(b"H"), &at(99, 0)),
        Err(TokenError::NotYetRedeemable)
    ));
    assert!(t.collateralised);
    assert!(info.is_some());

    let released = t.redeem_collateral(&mut info, &addr(b"H"), &at(100, 0)).unwrap();
    assert_eq!(released.holder, Some(addr(b"H")));
    assert_eq!(released.repayment, Coin::new(12, "denomA"));
    assert!(!t.collateralised);
    assert!(info.is_none());
    assert_eq!(t.owner, addr(b"O"));
}

#[test]
fn redeem_after_expiration_succeeds() {
    let (mut t, mut info) = pledged(b"O", Expiration::AtTime(50));
    t.accept_collateral(&mut info, addr(b"H")).unwrap();
    assert!(t.redeem_collateral(&mut info, &addr(b"H"), &at(0, 51)).is_ok());
    assert!(!t.collateralised);
    assert!(info.is_none());
}

#[test]
fn redeem_by_non_holder_is_unauthorized() {
    let (mut t, mut info) = pledged(b"O", Expiration::AtHeight(1));
    t.accept_collateral(&mut info, addr(b"H")).unwrap();
    assert!(matches!(
        t.redeem_collateral(&mut info, &addr(b"O"), &at(5, 0)),
        Err(TokenError::Unauthorized)
    ));
    assert!(t.collateralised);
}

#[test]
fn redeem_without_holder_is_invalid() {
    let (mut t, mut info) = pledged(b"O", Expiration::AtHeight(1));
    assert!(matches!(
        t.redeem_collateral(&mut info, &addr(b"H"), &at(5, 0)),
        Err(TokenError::InvalidTransition)
    ));
}

#[test]
fn accept_twice_is_invalid() {
    let (t, mut info) = pledged(b"O", Expiration::Never);
    t.accept_collateral(&mut info, addr(b"H")).unwrap();
    assert_eq!(t.accept_collateral(&mut info, addr(b"K")), Err(TokenError::InvalidTransition));
    assert_eq!(info.as_ref().unwrap().holder, Some(addr(b"H")));
}

#[test]
fn accept_on_unpledged_token_is_invalid() {
    let t = token_of(b"O");
    let mut info = None;
    assert_eq!(t.accept_collateral(&mut info, addr(b"H")), Err(TokenError::InvalidTransition));
}

#[test]
fn repay_releases_held_pledge() {
    let (mut t, mut info) = pledged(b"O", Expiration::Never);
    t.accept_collateral(&mut info, addr(b"H")).unwrap();
    assert!(matches!(t.repay_collateral(&mut info, &addr(b"H")), Err(TokenError::Unauthorized)));
    let released = t.repay_collateral(&mut info, &addr(b"O")).unwrap();
    assert_eq!(released.repayment, Coin::new(12, "denomA"));
    assert!(!t.collateralised);
    assert!(info.is_none());
}

#[test]
fn repay_on_unpledged_or_untaken_token_is_invalid() {
    let mut t = token_of(b"O");
    let mut info = None;
    assert!(matches!(t.repay_collateral(&mut info, &addr(b"O")), Err(TokenError::InvalidTransition)));
    let (mut t, mut info) = pledged(b"O", Expiration::Never);
    assert!(matches!(t.repay_collateral(&mut info, &addr(b"O")), Err(TokenError::InvalidTransition)));
    assert!(t.collateralised);
}

#[test]
fn uncollateralise_clears_flag_and_record() {
    let (mut t, mut info) = pledged(b"O", Expiration::Never);
    let old = t.uncollateralise(&mut info).unwrap();
    assert_eq!(old.unwrap().price, Coin::new(10, "denomA"));
    assert!(!t.collateralised);
    assert!(info.is_none());
    assert_eq!(t.uncollateralise(&mut info), Err(TokenError::InvalidTransition));
    assert_eq!(t.check_permission(&addr(b"O"), PermissionType::Transfer, &at(0, 0)), Ok(()));
}
