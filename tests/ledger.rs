use solana_drm::{
    check_purchase, create_content, initialize, purchase_license, revoke_license, update_content,
    verify_access, CreateContent, DrmError, Identity, Initialize, PurchaseLicense, RevokeLicense,
    Store, UpdateContent, VerifyAccess, LICENSE_TERM_SECS,
};

const NOW: i64 = 1_700_000_000;

fn id(b: u8) -> Identity {
    Identity { key: [b; 32] }
}

fn s(t: &str) -> String {
    t.to_string()
}

fn deployed() -> Store {
    let mut store = Store::new();
    initialize(&mut store, &Initialize { authority: id(9) }).unwrap();
    store
}

fn with_content(price: u64, max: u32) -> Store {
    let mut store = deployed();
    create_content(&mut store, &CreateContent { authority: id(1) }, NOW, s("game-1"), s("h"), price, max)
        .unwrap();
    store
}

fn buy(store: &mut Store, buyer: u8, lic: &str) -> Result<(), DrmError> {
    let ctx = PurchaseLicense { buyer: id(buyer), content_id: s("game-1") };
    match check_purchase(store, &ctx, &s(lic)) {
        Ok(_) => purchase_license(store, &ctx, s(lic), NOW, Ok(())),
        Err(e) => Err(e),
    }
}

fn access(store: &Store, user: u8, lic: &str, now: i64) -> Result<(), DrmError> {
    verify_access(store, &VerifyAccess { user: id(user), content_id: s("game-1"), license_id: s(lic) }, now)
}

fn revoke(store: &mut Store, who: u8, lic: &str) -> Result<(), DrmError> {
    revoke_license(store, &RevokeLicense { authority: id(who), content_id: s("game-1"), license_id: s(lic) })
}

#[test]
fn single_seat_scenario() {
    let mut store = with_content(100, 1);
    assert_eq!(buy(&mut store, 0xA, "lic-1"), Ok(()));
    assert_eq!(store.contents[0].current_licenses, 1);
    assert_eq!(buy(&mut store, 0xB, "lic-2"), Err(DrmError::NoLicensesAvailable));
    assert_eq!(access(&store, 0xA, "lic-1", NOW), Ok(()));
    assert_eq!(access(&store, 0xB, "lic-1", NOW), Err(DrmError::UnauthorizedAccess));
}

#[test]
fn shrinking_below_issued_is_refused() {
    let mut store = with_content(100, 1);
    buy(&mut store, 0xA, "lic-1").unwrap();
    let ctx = UpdateContent { authority: id(1), content_id: s("game-1") };
    assert_eq!(update_content(&mut store, &ctx, None, Some(0), None), Err(DrmError::InvalidCapacity));
    assert_eq!(store.contents[0].max_licenses, 1);
    assert_eq!(store.contents[0].current_licenses, 1);
    assert_eq!(store.contents[0].price, 100);
}

#[test]
fn update_content_partial_fields() {
    let mut store = with_content(100, 1);
    let ctx = UpdateContent { authority: id(1), content_id: s("game-1") };
    assert_eq!(update_content(&mut store, &ctx, Some(7), None, Some(false)), Ok(()));
    assert_eq!(store.contents[0].price, 7);
    assert_eq!(store.contents[0].max_licenses, 1);
    assert!(!store.contents[0].is_active);
    let other = UpdateContent { authority: id(2), content_id: s("game-1") };
    assert_eq!(update_content(&mut store, &other, Some(1), None, None), Err(DrmError::Unauthorized));
    let missing = UpdateContent { authority: id(1), content_id: s("nope") };
    assert_eq!(update_content(&mut store, &missing, Some(1), None, None), Err(DrmError::NotFound));
}

#[test]
fn capacity_is_never_exceeded() {
    let mut store = with_content(5, 3);
    for (i, lic) in ["a", "b", "c"].iter().enumerate() {
        assert_eq!(buy(&mut store, i as u8, lic), Ok(()));
        assert!(store.contents[0].current_licenses <= store.contents[0].max_licenses);
    }
    assert_eq!(buy(&mut store, 7, "d"), Err(DrmError::NoLicensesAvailable));
    assert_eq!(store.contents[0].current_licenses, 3);
    assert_eq!(store.registry.unwrap().total_licenses, 3);
}

#[test]
fn license_expires_one_year_after_purchase() {
    let mut store = with_content(5, 3);
    buy(&mut store, 1, "a").unwrap();
    let lic = &store.licenses[0];
    assert_eq!(lic.purchased_at, NOW);
    assert_eq!(lic.expires_at, NOW + 31_536_000);
    assert_eq!(LICENSE_TERM_SECS, 365 * 24 * 60 * 60);
    assert_eq!(lic.authority.key, [1; 32]);
    assert_eq!(lic.owner.key, [1; 32]);
    assert_eq!(lic.content, "game-1");
}

#[test]
fn failed_payment_changes_nothing() {
    let mut store = with_content(100, 2);
    let ctx = PurchaseLicense { buyer: id(3), content_id: s("game-1") };
    let r = purchase_license(&mut store, &ctx, s("lic-1"), NOW, Err(DrmError::InsufficientFunds));
    assert_eq!(r, Err(DrmError::InsufficientFunds));
    assert!(store.licenses.is_empty());
    assert_eq!(store.contents[0].current_licenses, 0);
    assert_eq!(store.registry.unwrap().total_licenses, 0);
}

#[test]
fn payment_order_goes_to_content_authority() {
    let store = with_content(100, 2);
    let ctx = PurchaseLicense { buyer: id(3), content_id: s("game-1") };
    let order = check_purchase(&store, &ctx, &s("lic-1")).unwrap();
    assert_eq!(order.from.key, [3; 32]);
    assert_eq!(order.to.key, [1; 32]);
    assert_eq!(order.amount, 100);
}

#[test]
fn purchase_errors() {
    let mut store = with_content(100, 2);
    let missing = PurchaseLicense { buyer: id(3), content_id: s("other") };
    assert_eq!(check_purchase(&store, &missing, &s("x")).unwrap_err(), DrmError::NotFound);
    buy(&mut store, 3, "lic-1").unwrap();
    assert_eq!(buy(&mut store, 4, "lic-1"), Err(DrmError::DuplicateKey));
    let ctx = UpdateContent { authority: id(1), content_id: s("game-1") };
    update_content(&mut store, &ctx, None, None, Some(false)).unwrap();
    assert_eq!(buy(&mut store, 4, "lic-2"), Err(DrmError::ContentInactive));
    let ctx = PurchaseLicense { buyer: id(3), content_id: s("game-1") };
    let mut empty = Store::new();
    assert_eq!(purchase_license(&mut empty, &ctx, s("z"), NOW, Ok(())), Err(DrmError::NotFound));
}

#[test]
fn revocation_is_terminal() {
    let mut store = with_content(100, 2);
    buy(&mut store, 3, "lic-1").unwrap();
    assert_eq!(revoke(&mut store, 3, "lic-1"), Err(DrmError::Unauthorized));
    assert_eq!(revoke(&mut store, 1, "lic-1"), Ok(()));
    assert_eq!(store.contents[0].current_licenses, 0);
    assert!(!store.licenses[0].is_active);
    assert_eq!(access(&store, 3, "lic-1", NOW), Err(DrmError::LicenseInactive));
    assert_eq!(access(&store, 3, "lic-1", NOW + 2 * LICENSE_TERM_SECS), Err(DrmError::LicenseInactive));
    assert_eq!(revoke(&mut store, 1, "lic-1"), Err(DrmError::AlreadyRevoked));
    assert_eq!(revoke(&mut store, 1, "lic-9"), Err(DrmError::NotFound));
    assert_eq!(buy(&mut store, 4, "lic-2"), Ok(()));
    assert_eq!(access(&store, 3, "lic-1", NOW), Err(DrmError::LicenseInactive));
    assert_eq!(access(&store, 4, "lic-2", NOW), Ok(()));
}

#[test]
fn revoke_with_drifted_count_is_an_invariant_violation() {
    let mut store = with_content(100, 2);
    buy(&mut store, 3, "lic-1").unwrap();
    store.contents[0].current_licenses = 0;
    assert_eq!(revoke(&mut store, 1, "lic-1"), Err(DrmError::InvariantViolation));
    assert!(store.licenses[0].is_active);
}

#[test]
fn expiry_is_derived_at_read_time() {
    let mut store = with_content(100, 2);
    buy(&mut store, 3, "lic-1").unwrap();
    let expiry = NOW + LICENSE_TERM_SECS;
    assert_eq!(access(&store, 3, "lic-1", expiry - 1), Ok(()));
    assert_eq!(access(&store, 3, "lic-1", expiry), Err(DrmError::LicenseExpired));
    assert!(store.licenses[0].is_active);
}

#[test]
fn verify_access_errors() {
    let mut store = with_content(100, 2);
    buy(&mut store, 3, "lic-1").unwrap();
    assert_eq!(access(&store, 3, "lic-2", NOW), Err(DrmError::NotFound));
    let wrong = VerifyAccess { user: id(3), content_id: s("other"), license_id: s("lic-1") };
    assert_eq!(verify_access(&store, &wrong, NOW), Err(DrmError::NotFound));
    let ctx = UpdateContent { authority: id(1), content_id: s("game-1") };
    update_content(&mut store, &ctx, None, None, Some(false)).unwrap();
    assert_eq!(access(&store, 3, "lic-1", NOW), Err(DrmError::ContentInactive));
}

#[test]
fn registry_setup_and_counters() {
    let mut store = Store::new();
    let ctx = CreateContent { authority: id(1) };
    assert_eq!(create_content(&mut store, &ctx, NOW, s("c"), s("h"), 1, 1), Err(DrmError::NotFound));
    assert_eq!(initialize(&mut store, &Initialize { authority: id(9) }), Ok(()));
    assert_eq!(initialize(&mut store, &Initialize { authority: id(8) }), Err(DrmError::AlreadyInitialized));
    let reg = store.registry.unwrap();
    assert_eq!(reg.authority.key, [9; 32]);
    assert_eq!((reg.total_packages, reg.total_content, reg.total_licenses), (0, 0, 0));
    assert_eq!(create_content(&mut store, &ctx, NOW, s("c"), s("h"), 1, 1), Ok(()));
    assert_eq!(create_content(&mut store, &ctx, NOW, s("c"), s("h2"), 2, 2), Err(DrmError::DuplicateKey));
    assert_eq!(store.registry.unwrap().total_content, 1);
    let c = &store.contents[0];
    assert_eq!((c.current_licenses, c.is_active, c.created_at, c.content_hash.as_str()), (0, true, NOW, "h"));
}

#[test]
fn identity_comparison() {
    let mut k = [5u8; 32];
    assert!(id(5).same_as(&Identity { key: k }));
    k[31] = 6;
    assert!(!id(5).same_as(&Identity { key: k }));
}

#[test]
fn record_validity_checks() {
    let mut store = with_content(100, 2);
    buy(&mut store, 3, "lic-1").unwrap();
    assert!(store.contents[0].is_valid());
    assert!(store.licenses[0].is_valid());
    store.contents[0].current_licenses = 3;
    assert!(!store.contents[0].is_valid());
    store.licenses[0].expires_at += 1;
    assert!(!store.licenses[0].is_valid());
    store.licenses[0].purchased_at = i64::MAX;
    assert!(!store.licenses[0].is_valid());
}
