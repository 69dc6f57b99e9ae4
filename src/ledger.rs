use vstd::prelude::*;

use crate::store::{license_at, Store};
use crate::types::{Content, DrmError, DrmState, Identity, License, LICENSE_TERM_SECS};

verus! {

/// Who buys a license, and for which content item.
pub struct PurchaseLicense {
    pub buyer: Identity,
    pub content_id: String,
}

/// Who asks for access, to which content item, under which license.
pub struct VerifyAccess {
    pub user: Identity,
    pub content_id: String,
    pub license_id: String,
}

/// Who revokes, and which license of which content item.
pub struct RevokeLicense {
    pub authority: Identity,
    pub content_id: String,
    pub license_id: String,
}

/// The value transfer that a purchase asks of the payment gateway.
#[derive(Clone, Copy, Debug)]
pub struct PaymentOrder {
    pub from: Identity,
    pub to: Identity,
    pub amount: u64,
}

/// The first reason, in order, for which a purchase cannot go ahead.
pub open spec fn purchase_refusal(s: Store, ctx: PurchaseLicense, license_id: Seq<char>) -> Option<
    DrmError,
> {
    if s.registry.is_none() || !s.has_content(ctx.content_id@) {
        Some(DrmError::NotFound)
    } else if !s.content(ctx.content_id@).is_active {
        Some(DrmError::ContentInactive)
    } else if s.content(ctx.content_id@).current_licenses >= s.content(ctx.content_id@).max_licenses {
        Some(DrmError::NoLicensesAvailable)
    } else if s.has_license(license_id) {
        Some(DrmError::DuplicateKey)
    } else {
        None
    }
}

/// What a purchase returns once the gateway has answered.
pub open spec fn purchase_result(
    s: Store,
    ctx: PurchaseLicense,
    license_id: Seq<char>,
    payment: Result<(), DrmError>,
) -> Result<(), DrmError> {
    match purchase_refusal(s, ctx, license_id) {
        Some(e) => Err(e),
        None => payment,
    }
}

/// The license that a successful purchase at time `now` records.
pub open spec fn issued_license(
    c: Content,
    ctx: PurchaseLicense,
    license_id: String,
    now: i64,
) -> License {
    License {
        authority: c.authority,
        owner: ctx.buyer,
        content: ctx.content_id,
        license_id,
        purchased_at: now,
        expires_at: (now + LICENSE_TERM_SECS) as i64,
        is_active: true,
    }
}

/// `s1` is `s0` after a successful purchase at time `now`: the license is
/// recorded, the content's issued count and the registry's license counter
/// go up by one, and nothing else changes.
pub open spec fn purchase_applied(
    s0: Store,
    s1: Store,
    ctx: PurchaseLicense,
    license_id: String,
    now: i64,
) -> bool {
    let c = s0.content(ctx.content_id@);
    let reg = s0.registry.unwrap();
    &&& s1.registry == Some(DrmState { total_licenses: (reg.total_licenses + 1) as u64, ..reg })
    &&& s1.packages@ == s0.packages@
    &&& s1.contents@ == s0.contents@.update(
        s0.content_index(ctx.content_id@),
        Content { current_licenses: (c.current_licenses + 1) as u32, ..c },
    )
    &&& s1.licenses@ == s0.licenses@.push(issued_license(c, ctx, license_id, now))
}

/// `s1` is `s0` after a successful revocation: the license is inactive, the
/// content's issued count goes down by one, and nothing else changes.
pub open spec fn revoke_applied(s0: Store, s1: Store, ctx: RevokeLicense) -> bool {
    let c = s0.content(ctx.content_id@);
    let l = s0.license(ctx.license_id@);
    &&& s1.registry == s0.registry
    &&& s1.packages@ == s0.packages@
    &&& s1.contents@ == s0.contents@.update(
        s0.content_index(ctx.content_id@),
        Content { current_licenses: (c.current_licenses - 1) as u32, ..c },
    )
    &&& s1.licenses@ == s0.licenses@.update(
        s0.license_index(ctx.license_id@),
        License { is_active: false, ..l },
    )
}

/// The first reason, in order, for which access is refused. A license is
/// found only under the content item it was bought for.
pub open spec fn access_result(s: Store, ctx: VerifyAccess, now: i64) -> Result<(), DrmError> {
    if !s.has_license(ctx.license_id@) || !s.has_content(ctx.content_id@) || s.license(
        ctx.license_id@,
    ).content@ != ctx.content_id@ {
        Err(DrmError::NotFound)
    } else if !s.license(ctx.license_id@).is_active {
        Err(DrmError::LicenseInactive)
    } else if now >= s.license(ctx.license_id@).expires_at {
        Err(DrmError::LicenseExpired)
    } else if s.license(ctx.license_id@).owner@ != ctx.user@ {
        Err(DrmError::UnauthorizedAccess)
    } else if !s.content(ctx.content_id@).is_active {
        Err(DrmError::ContentInactive)
    } else {
        Ok(())
    }
}

/// The first reason, in order, for which a revocation is refused. A license is
/// found only under the content item it was bought for.
pub open spec fn revoke_result(s: Store, ctx: RevokeLicense) -> Result<(), DrmError> {
    if !s.has_license(ctx.license_id@) || !s.has_content(ctx.content_id@) || s.license(
        ctx.license_id@,
    ).content@ != ctx.content_id@ {
        Err(DrmError::NotFound)
    } else if s.content(ctx.content_id@).authority@ != ctx.authority@ {
        Err(DrmError::Unauthorized)
    } else if !s.license(ctx.license_id@).is_active {
        Err(DrmError::AlreadyRevoked)
    } else if s.content(ctx.content_id@).current_licenses == 0 {
        Err(DrmError::InvariantViolation)
    } else {
        Ok(())
    }
}

/// Checks whether a purchase can go ahead and, where it can, returns the
/// transfer that the payment gateway must make before `purchase_license`.
/// Reads the store only.
pub fn check_purchase(store: &Store, ctx: &PurchaseLicense, license_id: &String) -> (r: Result<
    PaymentOrder,
    DrmError,
>)
    requires
        store.wf(),
    ensures
        match purchase_refusal(*store, *ctx, license_id@) {
            Some(e) => r == Err::<PaymentOrder, DrmError>(e),
            None => r is Ok && r->Ok_0.from == ctx.buyer && r->Ok_0.to == store.content(
                ctx.content_id@,
            ).authority && r->Ok_0.amount == store.content(ctx.content_id@).price,
        },
{
    if store.registry.is_none() {
        return Err(DrmError::NotFound);
    }
    let ci = match store.find_content(&ctx.content_id) {
        Some(i) => i,
        None => {
            return Err(DrmError::NotFound);
        },
    };
    let content = &store.contents[ci];
    if !content.is_active {
        return Err(DrmError::ContentInactive);
    }
    if content.current_licenses >= content.max_licenses {
        return Err(DrmError::NoLicensesAvailable);
    }
    if store.find_license(license_id).is_some() {
        return Err(DrmError::DuplicateKey);
    }
    Ok(PaymentOrder { from: ctx.buyer, to: content.authority, amount: content.price })
}

/// Issues a license at time `now`, given what the payment gateway reported for
/// the transfer that `check_purchase` asked for. Nothing changes unless every
/// check passes and the payment went through; then the license is recorded,
/// the content's issued count and the registry's license counter go up by one.
pub fn purchase_license(
    store: &mut Store,
    ctx: &PurchaseLicense,
    license_id: String,
    now: i64,
    payment: Result<(), DrmError>,
) -> (r: Result<(), DrmError>)
    requires
        old(store).wf(),
        now + LICENSE_TERM_SECS <= i64::MAX,
        old(store).registry.is_some() ==> old(store).registry.unwrap().total_licenses < u64::MAX,
    ensures
        final(store).wf(),
        r == purchase_result(*old(store), *ctx, license_id@, payment),
        r is Err ==> *final(store) == *old(store),
        r is Ok ==> purchase_applied(*old(store), *final(store), *ctx, license_id, now),
{
    let order = match check_purchase(store, ctx, &license_id) {
        Ok(o) => o,
        Err(e) => {
            return Err(e);
        },
    };
    if let Err(e) = payment {
        return Err(e);
    }
    assert(payment == Ok::<(), DrmError>(())) by {
        let u: () = payment->Ok_0;
        assert(u == ());
    }
    let ci = match store.find_content(&ctx.content_id) {
        Some(i) => i,
        None => {
            return Err(DrmError::NotFound);
        },
    };
    let ghost s0 = *old(store);
    let ghost lid = license_id@;
    let issued = store.contents[ci].current_licenses + 1;
    store.contents[ci].current_licenses = issued;
    let reg = store.registry.unwrap();
    store.registry = Some(DrmState { total_licenses: reg.total_licenses + 1, ..reg });
    let license = License {
        authority: order.to,
        owner: ctx.buyer,
        content: ctx.content_id.clone(),
        license_id,
        purchased_at: now,
        expires_at: now + LICENSE_TERM_SECS,
        is_active: true,
    };
    store.licenses.push(license);
    proof {
        let s1 = *store;
        let n = s0.licenses@.len() as int;
        assert(!s0.has_license(lid));
        assert forall|i: int, j: int|
            0 <= i < s1.contents@.len() && 0 <= j < s1.contents@.len()
                && #[trigger] s1.contents@[i].content_id@ == #[trigger] s1.contents@[j].content_id@
            implies i == j by {
            assert(s1.contents@[i].content_id@ == s0.contents@[i].content_id@);
            assert(s1.contents@[j].content_id@ == s0.contents@[j].content_id@);
        }
        assert forall|i: int, j: int|
            0 <= i < s1.licenses@.len() && 0 <= j < s1.licenses@.len()
                && #[trigger] s1.licenses@[i].license_id@ == #[trigger] s1.licenses@[j].license_id@
            implies i == j by {
            if i == n && j != n {
                assert(license_at(s0.licenses@, lid, j));
            }
            if j == n && i != n {
                assert(license_at(s0.licenses@, lid, i));
            }
        }
        assert forall|i: int| 0 <= i < s1.contents@.len() implies (#[trigger] s1.contents@[i]).wf() by {
            assert(s0.contents@[i].wf());
        }
        assert forall|i: int| 0 <= i < s1.licenses@.len() implies (#[trigger] s1.licenses@[i]).wf() by {
            if i < n {
                assert(s0.licenses@[i].wf());
            }
        }
    }
    Ok(())
}

/// Decides, at time `now` and without changing anything, whether the caller
/// may use the content item under the license.
pub fn verify_access(store: &Store, ctx: &VerifyAccess, now: i64) -> (r: Result<(), DrmError>)
    requires
        store.wf(),
    ensures
        r == access_result(*store, *ctx, now),
{
    let li = match store.find_license(&ctx.license_id) {
        Some(i) => i,
        None => {
            return Err(DrmError::NotFound);
        },
    };
    let ci = match store.find_content(&ctx.content_id) {
        Some(i) => i,
        None => {
            return Err(DrmError::NotFound);
        },
    };
    let license = &store.licenses[li];
    let content = &store.contents[ci];
    if license.content != ctx.content_id {
        return Err(DrmError::NotFound);
    }
    if !license.is_active {
        return Err(DrmError::LicenseInactive);
    }
    if now >= license.expires_at {
        return Err(DrmError::LicenseExpired);
    }
    if !license.owner.same_as(&ctx.user) {
        return Err(DrmError::UnauthorizedAccess);
    }
    if !content.is_active {
        return Err(DrmError::ContentInactive);
    }
    Ok(())
}

/// Lets the content's authority deactivate a license for good, which frees
/// one unit of the content's capacity.
pub fn revoke_license(store: &mut Store, ctx: &RevokeLicense) -> (r: Result<(), DrmError>)
    requires
        old(store).wf(),
    ensures
        final(store).wf(),
        r == revoke_result(*old(store), *ctx),
        r is Err ==> *final(store) == *old(store),
        r is Ok ==> revoke_applied(*old(store), *final(store), *ctx),
{
    let li = match store.find_license(&ctx.license_id) {
        Some(i) => i,
        None => {
            return Err(DrmError::NotFound);
        },
    };
    let ci = match store.find_content(&ctx.content_id) {
        Some(i) => i,
        None => {
            return Err(DrmError::NotFound);
        },
    };
    if store.licenses[li].content != ctx.content_id {
        return Err(DrmError::NotFound);
    }
    if !store.contents[ci].authority.same_as(&ctx.authority) {
        return Err(DrmError::Unauthorized);
    }
    if !store.licenses[li].is_active {
        return Err(DrmError::AlreadyRevoked);
    }
    if store.contents[ci].current_licenses == 0 {
        return Err(DrmError::InvariantViolation);
    }
    let ghost s0 = *old(store);
    let remaining = store.contents[ci].current_licenses - 1;
    store.contents[ci].current_licenses = remaining;
    store.licenses[li].is_active = false;
    proof {
        let s1 = *store;
        assert forall|i: int, j: int|
            0 <= i < s1.contents@.len() && 0 <= j < s1.contents@.len()
                && #[trigger] s1.contents@[i].content_id@ == #[trigger] s1.contents@[j].content_id@
            implies i == j by {
            assert(s1.contents@[i].content_id@ == s0.contents@[i].content_id@);
            assert(s1.contents@[j].content_id@ == s0.contents@[j].content_id@);
        }
        assert forall|i: int, j: int|
            0 <= i < s1.licenses@.len() && 0 <= j < s1.licenses@.len()
                && #[trigger] s1.licenses@[i].license_id@ == #[trigger] s1.licenses@[j].license_id@
            implies i == j by {
            assert(s1.licenses@[i].license_id@ == s0.licenses@[i].license_id@);
            assert(s1.licenses@[j].license_id@ == s0.licenses@[j].license_id@);
        }
        assert forall|i: int| 0 <= i < s1.contents@.len() implies (#[trigger] s1.contents@[i]).wf() by {
            assert(s0.contents@[i].wf());
        }
        assert forall|i: int| 0 <= i < s1.licenses@.len() implies (#[trigger] s1.licenses@[i]).wf() by {
            assert(s0.licenses@[i].wf());
        }
    }
    Ok(())
}

} // verus!
