use vstd::prelude::*;

use crate::store::Store;
use crate::types::{DrmError, DrmState, Identity};

verus! {

/// Who sets up the deployment.
pub struct Initialize {
    pub authority: Identity,
}

/// Creates the registry singleton, with every counter at zero, owned by the
/// caller. A deployment is set up once only.
pub fn initialize(store: &mut Store, ctx: &Initialize) -> (r: Result<(), DrmError>)
    requires
        old(store).wf(),
    ensures
        final(store).wf(),
        r == (if old(store).registry.is_some() {
            Err::<(), DrmError>(DrmError::AlreadyInitialized)
        } else {
            Ok(())
        }),
        r is Err ==> *final(store) == *old(store),
        r is Ok ==> {
            &&& final(store).registry == Some(
                DrmState {
                    authority: ctx.authority,
                    total_content: 0,
                    total_licenses: 0,
                    total_packages: 0,
                },
            )
            &&& final(store).packages@ == old(store).packages@
            &&& final(store).contents@ == old(store).contents@
            &&& final(store).licenses@ == old(store).licenses@
        },
{
    if store.registry.is_some() {
        return Err(DrmError::AlreadyInitialized);
    }
    store.registry = Some(
        DrmState { authority: ctx.authority, total_content: 0, total_licenses: 0, total_packages: 0 },
    );
    Ok(())
}

} // verus!
