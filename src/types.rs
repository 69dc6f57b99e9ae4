use vstd::prelude::*;

verus! {

/// Seconds in the fixed license term of 365 days.
pub const LICENSE_TERM_SECS: i64 = 31_536_000;

/// A verified caller identity: the 32 bytes of a public key.
#[derive(Clone, Copy, Debug)]
pub struct Identity {
    pub key: [u8; 32],
}

impl View for Identity {
    type V = Seq<u8>;

    open spec fn view(&self) -> Seq<u8> {
        self.key@
    }
}

impl Identity {
    /// Whether two identities hold the same key.
    pub fn same_as(&self, other: &Identity) -> (r: bool)
        ensures
            r == (self@ == other@),
    {
        let mut i: usize = 0;
        while i < 32
            invariant
                0 <= i <= 32,
                self.key@.len() == 32,
                other.key@.len() == 32,
                forall|j: int| 0 <= j < i ==> self.key@[j] == other.key@[j],
            decreases 32 - i,
        {
            if self.key[i] != other.key[i] {
                return false;
            }
            i = i + 1;
        }
        proof {
            assert(self.key@ =~= other.key@);
        }
        true
    }
}

/// Every way an operation of the ledger can fail.
#[derive(Clone, Copy, Debug, PartialEq, Eq, Structural)]
pub enum DrmError {
    DuplicateKey,
    NotFound,
    Unauthorized,
    ContentInactive,
    PackageInactive,
    NoLicensesAvailable,
    LicenseInactive,
    LicenseExpired,
    UnauthorizedAccess,
    InvalidCapacity,
    InvalidPolicy,
    AlreadyRevoked,
    InvariantViolation,
    InsufficientFunds,
    AlreadyInitialized,
}

/// Which external facts grant access to a package.
#[derive(Clone, Copy, Debug, PartialEq, Eq, Structural)]
pub enum PolicyKind {
    OwnershipGated,
    BalanceGated,
    LicenseGated,
}

/// The registry singleton: the deployment's authority and its counters.
#[derive(Clone, Copy, Debug)]
pub struct DrmState {
    pub authority: Identity,
    pub total_content: u64,
    pub total_licenses: u64,
    pub total_packages: u64,
}

/// A distributable product and the policy that gates access to it.
#[derive(Clone, Debug)]
pub struct Package {
    pub authority: Identity,
    pub package_name: String,
    pub policy_kind: PolicyKind,
    pub ownership_set: Vec<String>,
    pub balance_asset: Option<String>,
    pub minimum_balance: Option<u64>,
    pub is_active: bool,
    pub created_at: i64,
}

/// A priced item with a bounded number of licenses.
#[derive(Clone, Debug)]
pub struct Content {
    pub authority: Identity,
    pub content_id: String,
    pub content_hash: String,
    pub price: u64,
    pub max_licenses: u32,
    pub current_licenses: u32,
    pub is_active: bool,
    pub created_at: i64,
}

/// A time-bounded, revocable grant of one content item to one buyer.
#[derive(Clone, Debug)]
pub struct License {
    pub authority: Identity,
    pub owner: Identity,
    pub content: String,
    pub license_id: String,
    pub purchased_at: i64,
    pub expires_at: i64,
    pub is_active: bool,
}

/// A policy is usable when a balance gate names both its asset and its minimum.
pub open spec fn policy_complete(
    kind: PolicyKind,
    balance_asset: Option<String>,
    minimum_balance: Option<u64>,
) -> bool {
    kind == PolicyKind::BalanceGated ==> (balance_asset.is_some() && minimum_balance.is_some())
}

impl Package {
    pub open spec fn wf(&self) -> bool {
        policy_complete(self.policy_kind, self.balance_asset, self.minimum_balance)
    }

    /// Whether a package read from outside keeps its invariant.
    pub fn is_valid(&self) -> (r: bool)
        ensures
            r == self.wf(),
    {
        !(self.policy_kind == PolicyKind::BalanceGated) || (self.balance_asset.is_some()
            && self.minimum_balance.is_some())
    }
}

impl Content {
    /// Issued licenses never exceed capacity.
    pub open spec fn wf(&self) -> bool {
        self.current_licenses <= self.max_licenses
    }

    /// Whether a content item read from outside keeps its invariant.
    pub fn is_valid(&self) -> (r: bool)
        ensures
            r == self.wf(),
    {
        self.current_licenses <= self.max_licenses
    }
}

impl License {
    /// The expiry is the purchase time plus the fixed term.
    pub open spec fn wf(&self) -> bool {
        self.expires_at == self.purchased_at + LICENSE_TERM_SECS
    }

    /// Whether a license read from outside keeps its invariant.
    pub fn is_valid(&self) -> (r: bool)
        ensures
            r == self.wf(),
    {
        match self.purchased_at.checked_add(LICENSE_TERM_SECS) {
            Some(e) => self.expires_at == e,
            None => false,
        }
    }
}

} // verus!
