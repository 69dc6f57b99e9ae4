use vstd::prelude::*;

use crate::store::{content_at, Store};
use crate::types::{Content, DrmError, DrmState, Identity};

verus! {

/// Who creates a content item.
pub struct CreateContent {
    pub authority: Identity,
}

/// Who updates which content item.
pub struct UpdateContent {
    pub authority: Identity,
    pub content_id: String,
}

/// The first reason, in order, for which a content item cannot be created.
pub open spec fn create_content_result(s: Store, content_id: Seq<char>) -> Result<(), DrmError> {
    if s.registry.is_none() {
        Err(DrmError::NotFound)
    } else if s.has_content(content_id) {
        Err(DrmError::DuplicateKey)
    } else {
        Ok(())
    }
}

/// The content item with the supplied fields replaced and the others kept.
pub open spec fn content_updated(
    c: Content,
    new_price: Option<u64>,
    new_max_licenses: Option<u32>,
    is_active: Option<bool>,
) -> Content {
    Content {
        price: match new_price {
            Some(p) => p,
            None => c.price,
        },
        max_licenses: match new_max_licenses {
            Some(m) => m,
            None => c.max_licenses,
        },
        is_active: match is_active {
            Some(a) => a,
            None => c.is_active,
        },
        ..c
    }
}

/// The first reason, in order, for which an update is refused.
pub open spec fn update_content_result(
    s: Store,
    ctx: UpdateContent,
    new_max_licenses: Option<u32>,
) -> Result<(), DrmError> {
    if !s.has_content(ctx.content_id@) {
        Err(DrmError::NotFound)
    } else if s.content(ctx.content_id@).authority@ != ctx.authority@ {
        Err(DrmError::Unauthorized)
    } else if new_max_licenses.is_some() && new_max_licenses.unwrap() < s.content(
        ctx.content_id@,
    ).current_licenses {
        Err(DrmError::InvalidCapacity)
    } else {
        Ok(())
    }
}

/// Records a new content item at time `now`, active and with no license
/// issued, and counts it in the registry.
pub fn create_content(
    store: &mut Store,
    ctx: &CreateContent,
    now: i64,
    content_id: String,
    content_hash: String,
    price: u64,
    max_licenses: u32,
) -> (r: Result<(), DrmError>)
    requires
        old(store).wf(),
        old(store).registry.is_some() ==> old(store).registry.unwrap().total_content < u64::MAX,
    ensures
        final(store).wf(),
        r == create_content_result(*old(store), content_id@),
        r is Err ==> *final(store) == *old(store),
        r is Ok ==> {
            let reg = old(store).registry.unwrap();
            &&& final(store).registry == Some(
                DrmState { total_content: (reg.total_content + 1) as u64, ..reg },
            )
            &&& final(store).packages@ == old(store).packages@
            &&& final(store).licenses@ == old(store).licenses@
            &&& final(store).contents@ == old(store).contents@.push(
                Content {
                    authority: ctx.authority,
                    content_id,
                    content_hash,
                    price,
                    max_licenses,
                    current_licenses: 0,
                    is_active: true,
                    created_at: now,
                },
            )
        },
{
    let reg = match store.registry {
        Some(r) => r,
        None => {
            return Err(DrmError::NotFound);
        },
    };
    if store.find_content(&content_id).is_some() {
        return Err(DrmError::DuplicateKey);
    }
    let ghost s0 = *old(store);
    let ghost cid = content_id@;
    store.registry = Some(DrmState { total_content: reg.total_content + 1, ..reg });
    store.contents.push(
        Content {
            authority: ctx.authority,
            content_id,
            content_hash,
            price,
            max_licenses,
            current_licenses: 0,
            is_active: true,
            created_at: now,
        },
    );
    proof {
        let s1 = *store;
        let n = s0.contents@.len() as int;
        assert forall|i: int, j: int|
            0 <= i < s1.contents@.len() && 0 <= j < s1.contents@.len()
                && #[trigger] s1.contents@[i].content_id@ == #[trigger] s1.contents@[j].content_id@
            implies i == j by {
            if i == n && j != n {
                assert(content_at(s0.contents@, cid, j));
            }
            if j == n && i != n {
                assert(content_at(s0.contents@, cid, i));
            }
        }
        assert forall|i: int| 0 <= i < s1.contents@.len() implies (#[trigger] s1.contents@[i]).wf() by {
            if i < n {
                assert(s0.contents@[i].wf());
            }
        }
    }
    Ok(())
}

/// Lets the content's authority change its price, capacity or activation;
/// fields that are not supplied stay as they are. Capacity never drops below
/// the licenses already issued.
pub fn update_content(
    store: &mut Store,
    ctx: &UpdateContent,
    new_price: Option<u64>,
    new_max_licenses: Option<u32>,
    is_active: Option<bool>,
) -> (r: Result<(), DrmError>)
    requires
        old(store).wf(),
    ensures
        final(store).wf(),
        r == update_content_result(*old(store), *ctx, new_max_licenses),
        r is Err ==> *final(store) == *old(store),
        r is Ok ==> {
            &&& final(store).registry == old(store).registry
            &&& final(store).packages@ == old(store).packages@
            &&& final(store).licenses@ == old(store).licenses@
            &&& final(store).contents@ == old(store).contents@.update(
                old(store).content_index(ctx.content_id@),
                content_updated(
                    old(store).content(ctx.content_id@),
                    new_price,
                    new_max_licenses,
                    is_active,
                ),
            )
        },
{
    let ci = match store.find_content(&ctx.content_id) {
        Some(i) => i,
        None => {
            return Err(DrmError::NotFound);
        },
    };
    if !store.contents[ci].authority.same_as(&ctx.authority) {
        return Err(DrmError::Unauthorized);
    }
    if let Some(m) = new_max_licenses {
        if m < store.contents[ci].current_licenses {
            return Err(DrmError::InvalidCapacity);
        }
    }
    let ghost s0 = *old(store);
    if let Some(p) = new_price {
        store.contents[ci].price = p;
    }
    if let Some(m) = new_max_licenses {
        store.contents[ci].max_licenses = m;
    }
    if let Some(a) = is_active {
        store.contents[ci].is_active = a;
    }
    proof {
        let s1 = *store;
        assert(s1.contents@[ci as int] == content_updated(
            s0.contents@[ci as int],
            new_price,
            new_max_licenses,
            is_active,
        ));
        assert forall|i: int, j: int|
            0 <= i < s1.contents@.len() && 0 <= j < s1.contents@.len()
                && #[trigger] s1.contents@[i].content_id@ == #[trigger] s1.contents@[j].content_id@
            implies i == j by {
            assert(s1.contents@[i].content_id@ == s0.contents@[i].content_id@);
            assert(s1.contents@[j].content_id@ == s0.contents@[j].content_id@);
        }
        assert forall|i: int| 0 <= i < s1.contents@.len() implies (#[trigger] s1.contents@[i]).wf() by {
            assert(s0.contents@[i].wf());
        }
        assert(s1.contents@ =~= s0.contents@.update(
            ci as int,
            content_updated(s0.contents@[ci as int], new_price, new_max_licenses, is_active),
        ));
    }
    Ok(())
}

} // verus!
