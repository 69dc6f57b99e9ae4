use vstd::prelude::*;

use crate::store::{package_at, Store};
use crate::types::{policy_complete, DrmError, DrmState, Identity, Package, PolicyKind};

verus! {

/// Who registers a package.
pub struct RegisterPackage {
    pub authority: Identity,
}

/// Who updates which package.
pub struct UpdatePackage {
    pub authority: Identity,
    pub package_name: String,
}

/// How much of one asset a caller holds.
pub struct AssetBalance {
    pub asset: String,
    pub amount: u64,
}

/// What the authentication side vouches for about a caller: the assets it
/// holds, its balances, and the outcome of `verify_access` for the license it
/// presents.
pub struct CallerFacts {
    pub held_assets: Vec<String>,
    pub balances: Vec<AssetBalance>,
    pub license_access: Result<(), DrmError>,
}

/// The first reason, in order, for which a package cannot be registered.
pub open spec fn register_package_result(
    s: Store,
    package_name: Seq<char>,
    policy_kind: PolicyKind,
    balance_asset: Option<String>,
    minimum_balance: Option<u64>,
) -> Result<(), DrmError> {
    if s.registry.is_none() {
        Err(DrmError::NotFound)
    } else if s.has_package(package_name) {
        Err(DrmError::DuplicateKey)
    } else if !policy_complete(policy_kind, balance_asset, minimum_balance) {
        Err(DrmError::InvalidPolicy)
    } else {
        Ok(())
    }
}

/// The package with the supplied fields replaced and the others kept.
pub open spec fn package_updated(
    p: Package,
    new_policy_kind: Option<PolicyKind>,
    new_ownership_set: Option<Vec<String>>,
    new_balance_asset: Option<Option<String>>,
    new_minimum_balance: Option<Option<u64>>,
    is_active: Option<bool>,
) -> Package {
    Package {
        policy_kind: match new_policy_kind {
            Some(k) => k,
            None => p.policy_kind,
        },
        ownership_set: match new_ownership_set {
            Some(v) => v,
            None => p.ownership_set,
        },
        balance_asset: match new_balance_asset {
            Some(a) => a,
            None => p.balance_asset,
        },
        minimum_balance: match new_minimum_balance {
            Some(m) => m,
            None => p.minimum_balance,
        },
        is_active: match is_active {
            Some(a) => a,
            None => p.is_active,
        },
        ..p
    }
}

/// The first reason, in order, for which a package update is refused.
pub open spec fn update_package_result(
    s: Store,
    ctx: UpdatePackage,
    new_policy_kind: Option<PolicyKind>,
    new_balance_asset: Option<Option<String>>,
    new_minimum_balance: Option<Option<u64>>,
) -> Result<(), DrmError> {
    if !s.has_package(ctx.package_name@) {
        Err(DrmError::NotFound)
    } else if s.package(ctx.package_name@).authority@ != ctx.authority@ {
        Err(DrmError::Unauthorized)
    } else {
        let p = s.package(ctx.package_name@);
        let q = package_updated(p, new_policy_kind, None, new_balance_asset, new_minimum_balance, None);
        if !q.wf() {
            Err(DrmError::InvalidPolicy)
        } else {
            Ok(())
        }
    }
}

/// The caller holds one of the assets that the package lists.
pub open spec fn holds_listed_asset(held: Seq<String>, listed: Seq<String>) -> bool {
    exists|a: int, b: int| 0 <= a < held.len() && 0 <= b < listed.len() && #[trigger] held[a]@ == #[trigger] listed[b]@
}

/// The caller holds at least `minimum` of `asset`.
pub open spec fn holds_balance(balances: Seq<AssetBalance>, asset: Seq<char>, minimum: u64) -> bool {
    exists|k: int| 0 <= k < balances.len() && (#[trigger] balances[k]).asset@ == asset && balances[k].amount >= minimum
}

/// Whether the facts about a caller grant access to the package.
pub open spec fn entitlement_result(p: Package, facts: CallerFacts) -> Result<(), DrmError> {
    if !p.is_active {
        Err(DrmError::PackageInactive)
    } else {
        match p.policy_kind {
            PolicyKind::OwnershipGated => if holds_listed_asset(facts.held_assets@, p.ownership_set@) {
                Ok(())
            } else {
                Err(DrmError::UnauthorizedAccess)
            },
            PolicyKind::BalanceGated => if p.balance_asset.is_none() || p.minimum_balance.is_none() {
                Err(DrmError::InvalidPolicy)
            } else if holds_balance(facts.balances@, p.balance_asset.unwrap()@, p.minimum_balance.unwrap()) {
                Ok(())
            } else {
                Err(DrmError::UnauthorizedAccess)
            },
            PolicyKind::LicenseGated => facts.license_access,
        }
    }
}

/// Records a new active package at time `now`, owned by the caller, and
/// counts it in the registry.
pub fn register_package(
    store: &mut Store,
    ctx: &RegisterPackage,
    now: i64,
    package_name: String,
    policy_kind: PolicyKind,
    ownership_set: Vec<String>,
    balance_asset: Option<String>,
    minimum_balance: Option<u64>,
) -> (r: Result<(), DrmError>)
    requires
        old(store).wf(),
        old(store).registry.is_some() ==> old(store).registry.unwrap().total_packages < u64::MAX,
    ensures
        final(store).wf(),
        r == register_package_result(*old(store), package_name@, policy_kind, balance_asset, minimum_balance),
        r is Err ==> *final(store) == *old(store),
        r is Ok ==> {
            let reg = old(store).registry.unwrap();
            &&& final(store).registry == Some(
                DrmState { total_packages: (reg.total_packages + 1) as u64, ..reg },
            )
            &&& final(store).contents@ == old(store).contents@
            &&& final(store).licenses@ == old(store).licenses@
            &&& final(store).packages@ == old(store).packages@.push(
                Package {
                    authority: ctx.authority,
                    package_name,
                    policy_kind,
                    ownership_set,
                    balance_asset,
                    minimum_balance,
                    is_active: true,
                    created_at: now,
                },
            )
        },
{
    let reg = match store.registry {
        Some(r) => r,
        None => {
            return Err(DrmError::NotFound);
        },
    };
    if store.find_package(&package_name).is_some() {
        return Err(DrmError::DuplicateKey);
    }
    if policy_kind == PolicyKind::BalanceGated && (balance_asset.is_none() || minimum_balance.is_none()) {
        return Err(DrmError::InvalidPolicy);
    }
    let ghost s0 = *old(store);
    let ghost name = package_name@;
    store.registry = Some(DrmState { total_packages: reg.total_packages + 1, ..reg });
    store.packages.push(
        Package {
            authority: ctx.authority,
            package_name,
            policy_kind,
            ownership_set,
            balance_asset,
            minimum_balance,
            is_active: true,
            created_at: now,
        },
    );
    proof {
        let s1 = *store;
        let n = s0.packages@.len() as int;
        assert forall|i: int, j: int|
            0 <= i < s1.packages@.len() && 0 <= j < s1.packages@.len()
                && #[trigger] s1.packages@[i].package_name@ == #[trigger] s1.packages@[j].package_name@
            implies i == j by {
            if i == n && j != n {
                assert(package_at(s0.packages@, name, j));
            }
            if j == n && i != n {
                assert(package_at(s0.packages@, name, i));
            }
        }
        assert forall|i: int| 0 <= i < s1.packages@.len() implies (#[trigger] s1.packages@[i]).wf() by {
            if i < n {
                assert(s0.packages@[i].wf());
            }
        }
    }
    Ok(())
}

/// Lets the package's authority change its policy or activation; fields that
/// are not supplied stay as they are. A balance gate must keep both its asset
/// and its minimum.
pub fn update_package(
    store: &mut Store,
    ctx: &UpdatePackage,
    new_policy_kind: Option<PolicyKind>,
    new_ownership_set: Option<Vec<String>>,
    new_balance_asset: Option<Option<String>>,
    new_minimum_balance: Option<Option<u64>>,
    is_active: Option<bool>,
) -> (r: Result<(), DrmError>)
    requires
        old(store).wf(),
    ensures
        final(store).wf(),
        r == update_package_result(*old(store), *ctx, new_policy_kind, new_balance_asset, new_minimum_balance),
        r is Err ==> *final(store) == *old(store),
        r is Ok ==> {
            &&& final(store).registry == old(store).registry
            &&& final(store).contents@ == old(store).contents@
            &&& final(store).licenses@ == old(store).licenses@
            &&& final(store).packages@ == old(store).packages@.update(
                old(store).package_index(ctx.package_name@),
                package_updated(
                    old(store).package(ctx.package_name@),
                    new_policy_kind,
                    new_ownership_set,
                    new_balance_asset,
                    new_minimum_balance,
                    is_active,
                ),
            )
        },
{
    let pi = match store.find_package(&ctx.package_name) {
        Some(i) => i,
        None => {
            return Err(DrmError::NotFound);
        },
    };
    if !store.packages[pi].authority.same_as(&ctx.authority) {
        return Err(DrmError::Unauthorized);
    }
    let kind = match new_policy_kind {
        Some(k) => k,
        None => store.packages[pi].policy_kind,
    };
    let has_asset = match &new_balance_asset {
        Some(a) => a.is_some(),
        None => store.packages[pi].balance_asset.is_some(),
    };
    let has_minimum = match new_minimum_balance {
        Some(m) => m.is_some(),
        None => store.packages[pi].minimum_balance.is_some(),
    };
    if kind == PolicyKind::BalanceGated && !(has_asset && has_minimum) {
        return Err(DrmError::InvalidPolicy);
    }
    let ghost s0 = *old(store);
    let ghost expected = package_updated(
        s0.packages@[pi as int],
        new_policy_kind,
        new_ownership_set,
        new_balance_asset,
        new_minimum_balance,
        is_active,
    );
    if let Some(k) = new_policy_kind {
        store.packages[pi].policy_kind = k;
    }
    if let Some(v) = new_ownership_set {
        store.packages[pi].ownership_set = v;
    }
    if let Some(a) = new_balance_asset {
        store.packages[pi].balance_asset = a;
    }
    if let Some(m) = new_minimum_balance {
        store.packages[pi].minimum_balance = m;
    }
    if let Some(a) = is_active {
        store.packages[pi].is_active = a;
    }
    proof {
        let s1 = *store;
        assert(s1.packages@[pi as int] == expected);
        assert forall|i: int, j: int|
            0 <= i < s1.packages@.len() && 0 <= j < s1.packages@.len()
                && #[trigger] s1.packages@[i].package_name@ == #[trigger] s1.packages@[j].package_name@
            implies i == j by {
            assert(s1.packages@[i].package_name@ == s0.packages@[i].package_name@);
            assert(s1.packages@[j].package_name@ == s0.packages@[j].package_name@);
        }
        assert forall|i: int| 0 <= i < s1.packages@.len() implies (#[trigger] s1.packages@[i]).wf() by {
            assert(s0.packages@[i].wf());
        }
        assert(s1.packages@ =~= s0.packages@.update(pi as int, expected));
    }
    Ok(())
}

/// Decides whether the facts about a caller satisfy the package's policy.
/// Reads nothing but its arguments.
pub fn check_entitlement(package: &Package, facts: &CallerFacts) -> (r: Result<(), DrmError>)
    ensures
        r == entitlement_result(*package, *facts),
{
    if !package.is_active {
        return Err(DrmError::PackageInactive);
    }
    match package.policy_kind {
        PolicyKind::OwnershipGated => {
            if holds_any(&facts.held_assets, &package.ownership_set) {
                Ok(())
            } else {
                Err(DrmError::UnauthorizedAccess)
            }
        },
        PolicyKind::BalanceGated => {
            match (&package.balance_asset, package.minimum_balance) {
                (Some(asset), Some(minimum)) => {
                    if has_balance(&facts.balances, asset, minimum) {
                        Ok(())
                    } else {
                        Err(DrmError::UnauthorizedAccess)
                    }
                },
                _ => Err(DrmError::InvalidPolicy),
            }
        },
        PolicyKind::LicenseGated => facts.license_access,
    }
}

fn contains_asset(listed: &Vec<String>, asset: &String) -> (r: bool)
    ensures
        r == exists|b: int| 0 <= b < listed@.len() && #[trigger] listed@[b]@ == asset@,
{
    let mut b: usize = 0;
    while b < listed.len()
        invariant
            0 <= b <= listed@.len(),
            forall|k: int| 0 <= k < b ==> #[trigger] listed@[k]@ != asset@,
        decreases listed@.len() - b,
    {
        if listed[b] == *asset {
            return true;
        }
        b = b + 1;
    }
    false
}

fn holds_any(held: &Vec<String>, listed: &Vec<String>) -> (r: bool)
    ensures
        r == holds_listed_asset(held@, listed@),
{
    let mut a: usize = 0;
    while a < held.len()
        invariant
            0 <= a <= held@.len(),
            forall|x: int, y: int| 0 <= x < a && 0 <= y < listed@.len() ==> #[trigger] held@[x]@ != #[trigger] listed@[y]@,
        decreases held@.len() - a,
    {
        if contains_asset(listed, &held[a]) {
            return true;
        }
        a = a + 1;
    }
    false
}

fn has_balance(balances: &Vec<AssetBalance>, asset: &String, minimum: u64) -> (r: bool)
    ensures
        r == holds_balance(balances@, asset@, minimum),
{
    let mut k: usize = 0;
    while k < balances.len()
        invariant
            0 <= k <= balances@.len(),
            forall|j: int| 0 <= j < k ==> !((#[trigger] balances@[j]).asset@ == asset@ && balances@[j].amount >= minimum),
        decreases balances@.len() - k,
    {
        if balances[k].asset == *asset && balances[k].amount >= minimum {
            return true;
        }
        k = k + 1;
    }
    false
}

} // verus!
