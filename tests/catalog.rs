use solana_drm::{
    check_entitlement, initialize, register_package, update_package, AssetBalance, CallerFacts,
    DrmError, Identity, Initialize, PolicyKind, RegisterPackage, Store, UpdatePackage,
};

fn id(b: u8) -> Identity {
    Identity { key: [b; 32] }
}

fn s(t: &str) -> String {
    t.to_string()
}

fn deployed() -> Store {
    let mut store = Store::new();
    initialize(&mut store, &Initialize { authority: id(9) }).unwrap();
    store
}

fn facts(held: &[&str], balances: &[(&str, u64)], license: Result<(), DrmError>) -> CallerFacts {
    CallerFacts {
        held_assets: held.iter().map(|h| s(h)).collect(),
        balances: balances.iter().map(|(a, n)| AssetBalance { asset: s(a), amount: *n }).collect(),
        license_access: license,
    }
}

#[test]
fn register_and_duplicate_package() {
    let mut store = deployed();
    let ctx = RegisterPackage { authority: id(1) };
    let r = register_package(&mut store, &ctx, 10, s("app"), PolicyKind::OwnershipGated, vec![s("nft-1")], None, None);
    assert_eq!(r, Ok(()));
    assert_eq!(store.registry.unwrap().total_packages, 1);
    assert!(store.packages[0].is_active);
    assert_eq!(store.packages[0].created_at, 10);
    let r = register_package(&mut store, &ctx, 11, s("app"), PolicyKind::LicenseGated, vec![], None, None);
    assert_eq!(r, Err(DrmError::DuplicateKey));
    assert_eq!(store.packages.len(), 1);
}

#[test]
fn balance_gate_needs_asset_and_minimum() {
    let mut store = deployed();
    let ctx = RegisterPackage { authority: id(1) };
    let r = register_package(&mut store, &ctx, 10, s("p"), PolicyKind::BalanceGated, vec![], Some(s("usdc")), None);
    assert_eq!(r, Err(DrmError::InvalidPolicy));
    let r = register_package(&mut store, &ctx, 10, s("p"), PolicyKind::BalanceGated, vec![], Some(s("usdc")), Some(5));
    assert_eq!(r, Ok(()));
}

#[test]
fn update_package_applies_supplied_fields_only() {
    let mut store = deployed();
    let ctx = RegisterPackage { authority: id(1) };
    register_package(&mut store, &ctx, 10, s("app"), PolicyKind::OwnershipGated, vec![s("nft-1")], None, None).unwrap();
    let up = UpdatePackage { authority: id(1), package_name: s("app") };
    let r = update_package(&mut store, &up, Some(PolicyKind::BalanceGated), None, None, None, None);
    assert_eq!(r, Err(DrmError::InvalidPolicy));
    let r = update_package(&mut store, &up, Some(PolicyKind::BalanceGated), None, Some(Some(s("usdc"))), Some(Some(3)), Some(false));
    assert_eq!(r, Ok(()));
    let p = &store.packages[0];
    assert_eq!(p.policy_kind, PolicyKind::BalanceGated);
    assert_eq!(p.ownership_set, vec![s("nft-1")]);
    assert_eq!(p.minimum_balance, Some(3));
    assert!(!p.is_active);
    let other = UpdatePackage { authority: id(2), package_name: s("app") };
    assert_eq!(update_package(&mut store, &other, None, None, None, None, Some(true)), Err(DrmError::Unauthorized));
    let missing = UpdatePackage { authority: id(1), package_name: s("x") };
    assert_eq!(update_package(&mut store, &missing, None, None, None, None, Some(true)), Err(DrmError::NotFound));
}

#[test]
fn entitlement_by_policy() {
    let mut store = deployed();
    let ctx = RegisterPackage { authority: id(1) };
    register_package(&mut store, &ctx, 1, s("own"), PolicyKind::OwnershipGated, vec![s("a"), s("b")], None, None).unwrap();
    register_package(&mut store, &ctx, 1, s("bal"), PolicyKind::BalanceGated, vec![], Some(s("usdc")), Some(10)).unwrap();
    register_package(&mut store, &ctx, 1, s("lic"), PolicyKind::LicenseGated, vec![], None, None).unwrap();
    let own = &store.packages[0];
    assert_eq!(check_entitlement(own, &facts(&["z", "b"], &[], Ok(()))), Ok(()));
    assert_eq!(check_entitlement(own, &facts(&["z"], &[], Ok(()))), Err(DrmError::UnauthorizedAccess));
    let bal = &store.packages[1];
    assert_eq!(check_entitlement(bal, &facts(&[], &[("usdc", 10)], Ok(()))), Ok(()));
    assert_eq!(check_entitlement(bal, &facts(&[], &[("usdc", 9), ("sol", 50)], Ok(()))), Err(DrmError::UnauthorizedAccess));
    let lic = &store.packages[2];
    assert_eq!(check_entitlement(lic, &facts(&[], &[], Ok(()))), Ok(()));
    assert_eq!(check_entitlement(lic, &facts(&[], &[], Err(DrmError::LicenseExpired))), Err(DrmError::LicenseExpired));
}

#[test]
fn inactive_package_grants_nothing() {
    let mut store = deployed();
    let ctx = RegisterPackage { authority: id(1) };
    register_package(&mut store, &ctx, 1, s("own"), PolicyKind::OwnershipGated, vec![s("a")], None, None).unwrap();
    let up = UpdatePackage { authority: id(1), package_name: s("own") };
    update_package(&mut store, &up, None, None, None, None, Some(false)).unwrap();
    assert_eq!(check_entitlement(&store.packages[0], &facts(&["a"], &[], Ok(()))), Err(DrmError::PackageInactive));
}

#[test]
fn package_validity_check() {
    let mut store = deployed();
    let ctx = RegisterPackage { authority: id(1) };
    register_package(&mut store, &ctx, 1, s("bal"), PolicyKind::BalanceGated, vec![], Some(s("usdc")), Some(10)).unwrap();
    assert!(store.packages[0].is_valid());
    store.packages[0].minimum_balance = None;
    assert!(!store.packages[0].is_valid());
}
