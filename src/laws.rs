use vstd::prelude::*;

use crate::ledger::{
    access_result, purchase_applied, purchase_refusal, purchase_result, revoke_applied,
    revoke_result, PurchaseLicense, RevokeLicense, VerifyAccess,
};
use crate::store::{content_at, license_at, Store};
use crate::types::{DrmError, LICENSE_TERM_SECS};

verus! {

/// Every content item of a well-formed store has issued no more licenses than
/// its capacity.
pub proof fn lemma_capacity_respected(s: Store, content_id: Seq<char>)
    requires
        s.wf(),
        s.has_content(content_id),
    ensures
        0 <= s.content(content_id).current_licenses <= s.content(content_id).max_licenses,
{
    let i = s.content_index(content_id);
    assert(content_at(s.contents@, content_id, i));
    assert(s.contents@[i].wf());
}

/// Every license of a well-formed store expires one term after its purchase.
pub proof fn lemma_license_term(s: Store, license_id: Seq<char>)
    requires
        s.wf(),
        s.has_license(license_id),
    ensures
        s.license(license_id).expires_at == s.license(license_id).purchased_at + LICENSE_TERM_SECS,
{
    let i = s.license_index(license_id);
    assert(license_at(s.licenses@, license_id, i));
    assert(s.licenses@[i].wf());
}

/// Once a content item has issued as many licenses as its capacity, every
/// further purchase of it fails with `NoLicensesAvailable`, whatever the
/// payment gateway would report; a successful purchase raises the issued
/// count by exactly one.
pub proof fn lemma_no_double_spend(
    s0: Store,
    s1: Store,
    ctx: PurchaseLicense,
    license_id: String,
    now: i64,
    payment: Result<(), DrmError>,
)
    requires
        s0.wf(),
        s0.registry.is_some(),
        s0.has_content(ctx.content_id@),
        s0.content(ctx.content_id@).is_active,
    ensures
        s0.content(ctx.content_id@).current_licenses == s0.content(ctx.content_id@).max_licenses
            ==> purchase_result(s0, ctx, license_id@, payment) == Err::<(), DrmError>(
            DrmError::NoLicensesAvailable,
        ),
        purchase_result(s0, ctx, license_id@, payment) is Ok && s1.wf() && purchase_applied(
            s0,
            s1,
            ctx,
            license_id,
            now,
        ) ==> s1.has_content(ctx.content_id@)
            && s1.content(ctx.content_id@).current_licenses == s0.content(ctx.content_id@).current_licenses + 1,
{
    if purchase_result(s0, ctx, license_id@, payment) is Ok && s1.wf() && purchase_applied(
        s0,
        s1,
        ctx,
        license_id,
        now,
    ) {
        let i = s0.content_index(ctx.content_id@);
        assert(content_at(s0.contents@, ctx.content_id@, i));
        assert(content_at(s1.contents@, ctx.content_id@, i));
        let k = s1.content_index(ctx.content_id@);
        assert(content_at(s1.contents@, ctx.content_id@, k));
        assert(s1.contents@[i].content_id@ == s1.contents@[k].content_id@);
    }
}

/// A purchase whose payment failed fails too, with the gateway's own error
/// where every earlier check passed; a failed purchase changes nothing.
pub proof fn lemma_failed_payment_is_atomic(
    s: Store,
    ctx: PurchaseLicense,
    license_id: Seq<char>,
    e: DrmError,
)
    ensures
        purchase_result(s, ctx, license_id, Err(e)) is Err,
        purchase_refusal(s, ctx, license_id).is_none() ==> purchase_result(
            s,
            ctx,
            license_id,
            Err(e),
        ) == Err::<(), DrmError>(e),
{
}

/// After a successful revocation, access under that license fails with
/// `LicenseInactive` at every time, and revoking it again fails with
/// `AlreadyRevoked`.
pub proof fn lemma_revocation_terminal(
    s0: Store,
    s1: Store,
    ctx: RevokeLicense,
    access: VerifyAccess,
    now: i64,
)
    requires
        s0.wf(),
        s1.wf(),
        revoke_result(s0, ctx) is Ok,
        revoke_applied(s0, s1, ctx),
        access.content_id@ == ctx.content_id@,
        access.license_id@ == ctx.license_id@,
    ensures
        access_result(s1, access, now) == Err::<(), DrmError>(DrmError::LicenseInactive),
        revoke_result(s1, ctx) == Err::<(), DrmError>(DrmError::AlreadyRevoked),
{
    let ci = s0.content_index(ctx.content_id@);
    let li = s0.license_index(ctx.license_id@);
    assert(content_at(s0.contents@, ctx.content_id@, ci));
    assert(license_at(s0.licenses@, ctx.license_id@, li));
    assert(content_at(s1.contents@, ctx.content_id@, ci));
    assert(license_at(s1.licenses@, ctx.license_id@, li));
    let ck = s1.content_index(ctx.content_id@);
    let lk = s1.license_index(ctx.license_id@);
    assert(content_at(s1.contents@, ctx.content_id@, ck));
    assert(license_at(s1.licenses@, ctx.license_id@, lk));
    assert(s1.contents@[ci].content_id@ == s1.contents@[ck].content_id@);
    assert(s1.licenses@[li].license_id@ == s1.licenses@[lk].license_id@);
}

/// An active license fails verification with `LicenseExpired` from its expiry
/// on, with nothing written: expiry is read from the stored time alone.
pub proof fn lemma_expiry_derived(s: Store, access: VerifyAccess, now: i64)
    requires
        s.wf(),
        s.has_license(access.license_id@),
        s.has_content(access.content_id@),
        s.license(access.license_id@).content@ == access.content_id@,
        s.license(access.license_id@).is_active,
        now >= s.license(access.license_id@).expires_at,
    ensures
        access_result(s, access, now) == Err::<(), DrmError>(DrmError::LicenseExpired),
{
}

/// A revoked license stays revoked through every later operation: each one
/// leaves the licenses as they are, records a new one, or deactivates one.
pub proof fn lemma_revoked_stays_revoked(
    s0: Store,
    s1: Store,
    license_id: Seq<char>,
    purchase: PurchaseLicense,
    new_license_id: String,
    now: i64,
    revoke: RevokeLicense,
)
    requires
        s0.wf(),
        s1.wf(),
        s0.has_license(license_id),
        !s0.license(license_id).is_active,
        s1.licenses@ == s0.licenses@ || (purchase_refusal(s0, purchase, new_license_id@).is_none()
            && purchase_applied(s0, s1, purchase, new_license_id, now)) || (revoke_result(
            s0,
            revoke,
        ) is Ok && revoke_applied(s0, s1, revoke)),
    ensures
        s1.has_license(license_id),
        !s1.license(license_id).is_active,
        s1.license(license_id).content == s0.license(license_id).content,
{
    let i = s0.license_index(license_id);
    assert(license_at(s0.licenses@, license_id, i));
    if revoke_result(s0, revoke) is Ok && revoke_applied(s0, s1, revoke) {
        let r = s0.license_index(revoke.license_id@);
        assert(license_at(s0.licenses@, revoke.license_id@, r));
    }
    assert(s1.licenses@[i].license_id@ == license_id);
    assert(!s1.licenses@[i].is_active);
    assert(license_at(s1.licenses@, license_id, i));
    let k = s1.license_index(license_id);
    assert(license_at(s1.licenses@, license_id, k));
    assert(s1.licenses@[i].license_id@ == s1.licenses@[k].license_id@);
}

} // verus!
