//! A ledger of software packages, content items and the licenses bought
//! against them, with the rules that govern purchase, access and revocation.
pub mod contents;
pub mod laws;
pub mod ledger;
pub mod packages;
pub mod registry;
pub mod store;
pub mod types;

pub use contents::{create_content, update_content, CreateContent, UpdateContent};
pub use ledger::{
    check_purchase, purchase_license, revoke_license, verify_access, PaymentOrder,
    PurchaseLicense, RevokeLicense, VerifyAccess,
};
pub use packages::{
    check_entitlement, register_package, update_package, AssetBalance, CallerFacts,
    RegisterPackage, UpdatePackage,
};
pub use registry::{initialize, Initialize};
pub use store::Store;
pub use types::{
    Content, DrmError, DrmState, Identity, License, Package, PolicyKind, LICENSE_TERM_SECS,
};
