//! Provider credentialing and privilege management, with the record rules of a few
//! neighbouring clinical modules (trials, referrals, child growth).
//!
//! A credentialing case collects credential documents and their verifications; once the
//! required number of verifications succeeded it goes to committee review, where privileges
//! are granted to the provider at the facility. Sanction checks and peer references can
//! block a case. Granted privileges can be suspended and reinstated as a whole.

pub mod text;
pub mod identity;
pub mod case;
pub mod privilege;
pub mod keyed;
pub mod tracking;
pub mod casefile;
pub mod ledger;
pub mod system;
pub mod trial;
pub mod growth;
pub mod referral;

pub use case::{
    CaseType, CompetencyRating, CredentialDocument, CredentialType, CredentialingCase,
    CredentialingStatus, Error, PeerReferenceRecord, SanctionCheckRecord, VerificationRecord,
};
pub use identity::{Address, AuthContext};
pub use privilege::{Marker, Privilege, ReinstatementRecord, Restriction, SuspensionRecord};
pub use casefile::CaseFile;
pub use system::HealthcareCredentialingSystem;
pub use tracking::{
    ClinicalActivityRecord, FocusedReviewRecord, ProvisionalPrivilegeRequest,
    RecredentialingSchedule,
};

