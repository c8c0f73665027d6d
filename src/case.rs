//! Credentialing cases: their status machine, the evidence recorded against them and the
//! checks applied to that evidence.
use vstd::prelude::*;
use crate::text::same_text;
use crate::identity::Address;

verus! {

/// Successful primary-source verifications a case needs before committee review.
pub const REQUIRED_CREDENTIALS: u32 = 5;

/// Seconds between the application date and the target completion date (ninety days).
pub const TARGET_COMPLETION_SECONDS: u64 = 60 * 60 * 24 * 90;

#[derive(Clone, Copy, Debug, PartialEq, Eq, Structural)]
pub enum Error {
    NotAuthorized,
    CaseNotFound,
    InvalidStatusTransition,
    DocumentNotFound,
    InvalidCredentialType,
    InvalidRating,
    InvalidInput,
    PrivilegeNotFound,
    AlreadySuspended,
    NotSuspended,
}

#[derive(Clone, Copy, Debug, PartialEq, Eq, Structural)]
pub enum CredentialingStatus {
    Incomplete,
    InReview,
    CommitteeReview,
    Approved,
    Denied,
    DeferredForMoreInfo,
}

/// Why a case was opened.
#[derive(Clone, Copy, Debug, PartialEq, Eq, Structural)]
pub enum CaseType {
    Initial,
    Reappointment,
    Addition,
}

/// The credential documents a case accepts.
#[derive(Clone, Copy, Debug, PartialEq, Eq, Structural)]
pub enum CredentialType {
    MedicalLicense,
    Dea,
    BoardCert,
    Cv,
    References,
}

impl CredentialType {
    /// The credential type that `name` spells, if any.
    pub open spec fn named(name: Seq<char>) -> Option<CredentialType> {
        if name == "medical_license"@ {
            Some(CredentialType::MedicalLicense)
        } else if name == "dea"@ {
            Some(CredentialType::Dea)
        } else if name == "board_cert"@ {
            Some(CredentialType::BoardCert)
        } else if name == "cv"@ {
            Some(CredentialType::Cv)
        } else if name == "references"@ {
            Some(CredentialType::References)
        } else {
            None
        }
    }

    /// Reads a credential type from its name (`medical_license`, `dea`, `board_cert`, `cv`,
    /// `references`).
    pub fn from_name(name: &str) -> (r: Option<CredentialType>)
        ensures
            r == Self::named(name@),
    {
        if same_text(name, "medical_license") {
            Some(CredentialType::MedicalLicense)
        } else if same_text(name, "dea") {
            Some(CredentialType::Dea)
        } else if same_text(name, "board_cert") {
            Some(CredentialType::BoardCert)
        } else if same_text(name, "cv") {
            Some(CredentialType::Cv)
        } else if same_text(name, "references") {
            Some(CredentialType::References)
        } else {
            None
        }
    }
}

/// Whether `name` spells one of the accepted credential types.
pub fn is_supported_credential_type(name: &str) -> (r: bool)
    ensures
        r == CredentialType::named(name@).is_some(),
{
    CredentialType::from_name(name).is_some()
}


/// One credentialing application of a provider at a facility.
#[derive(Clone, Copy, Debug, PartialEq, Eq, Structural)]
pub struct CredentialingCase {
    pub case_id: u64,
    pub provider_id: Address,
    pub facility_id: Address,
    pub case_type: CaseType,
    pub status: CredentialingStatus,
    pub initiated_date: u64,
    pub target_completion_date: u64,
    pub verifications_complete: u32,
    pub verifications_required: u32,
}

impl CredentialingCase {
    /// The case after a document was submitted: back in review, whatever it was before.
    pub open spec fn after_document(self) -> CredentialingCase {
        CredentialingCase { status: CredentialingStatus::InReview, ..self }
    }

    /// The counter after one more verification with the given result: a success counts
    /// until the requirement is met, a failure never counts.
    pub open spec fn next_complete(self, result: bool) -> u32 {
        if result && self.verifications_complete < self.verifications_required {
            (self.verifications_complete + 1) as u32
        } else {
            self.verifications_complete
        }
    }

    /// The case after a verification attempt with the given result.
    pub open spec fn after_verification(self, result: bool) -> CredentialingCase {
        let n = self.next_complete(result);
        let status = if !result {
            CredentialingStatus::DeferredForMoreInfo
        } else if n >= self.verifications_required {
            CredentialingStatus::CommitteeReview
        } else {
            CredentialingStatus::InReview
        };
        CredentialingCase { verifications_complete: n, status, ..self }
    }

    /// The case after a sanction check: denied when sanctions were found, else unchanged.
    pub open spec fn after_sanction_check(self, sanctions_found: bool) -> CredentialingCase {
        if sanctions_found {
            CredentialingCase { status: CredentialingStatus::Denied, ..self }
        } else {
            self
        }
    }

    /// The case after a peer reference: deferred unless the reference recommends.
    pub open spec fn after_peer_reference(self, recommended: bool) -> CredentialingCase {
        if recommended {
            self
        } else {
            CredentialingCase { status: CredentialingStatus::DeferredForMoreInfo, ..self }
        }
    }

    /// The case once the committee granted privileges.
    pub open spec fn after_grant(self) -> CredentialingCase {
        CredentialingCase { status: CredentialingStatus::Approved, ..self }
    }

    /// Moves the case back into review after a document submission.
    pub fn record_document(&mut self)
        ensures
            *final(self) == old(self).after_document(),
    {
        self.status = CredentialingStatus::InReview;
    }

    /// Counts a verification attempt and moves the case on: to committee review once the
    /// required number of successes is reached, to more information on a failure.
    pub fn record_verification(&mut self, result: bool)
        ensures
            *final(self) == old(self).after_verification(result),
    {
        if result {
            if self.verifications_complete < self.verifications_required {
                self.verifications_complete = self.verifications_complete + 1;
            }
            if self.verifications_complete >= self.verifications_required {
                self.status = CredentialingStatus::CommitteeReview;
            } else {
                self.status = CredentialingStatus::InReview;
            }
        } else {
            self.status = CredentialingStatus::DeferredForMoreInfo;
        }
    }

    /// Applies the outcome of a sanction check.
    pub fn record_sanction_check(&mut self, sanctions_found: bool)
        ensures
            *final(self) == old(self).after_sanction_check(sanctions_found),
    {
        if sanctions_found {
            self.status = CredentialingStatus::Denied;
        }
    }

    /// Applies the outcome of a peer reference.
    pub fn record_peer_reference(&mut self, recommended: bool)
        ensures
            *final(self) == old(self).after_peer_reference(recommended),
    {
        if !recommended {
            self.status = CredentialingStatus::DeferredForMoreInfo;
        }
    }
}

/// A credential document submitted for a case.
#[derive(Clone, Debug)]
pub struct CredentialDocument {
    pub document_type: CredentialType,
    pub document_hash: [u8; 32],
    pub issuing_authority: String,
    pub issue_date: u64,
    pub expiration_date: Option<u64>,
}

/// One verification attempt against a submitted credential.
#[derive(Clone, Debug)]
pub struct VerificationRecord {
    pub credential_type: CredentialType,
    pub verifier: Address,
    pub verification_method: String,
    pub verification_result: bool,
    pub verification_date: u64,
    pub verification_notes: String,
}

/// One search of the sanction databases.
#[derive(Clone, Debug)]
pub struct SanctionCheckRecord {
    pub checker: Address,
    pub databases_checked: Vec<String>,
    pub sanctions_found: bool,
    pub check_date: u64,
}

/// A referee's rating of one competency, on a scale of 1 to 5.
#[derive(Clone, Debug)]
pub struct CompetencyRating {
    pub competency_area: String,
    pub rating: u32,
    pub clinical_examples: bool,
}

/// A peer reference given for a case.
#[derive(Clone, Debug)]
pub struct PeerReferenceRecord {
    pub reference_provider: Address,
    pub competency_ratings: Vec<CompetencyRating>,
    pub reference_notes_hash: [u8; 32],
    pub recommended: bool,
}

/// The number of successful attempts among `records`.
pub open spec fn successful_verifications(records: Seq<VerificationRecord>) -> nat
    decreases records.len(),
{
    if records.len() == 0 {
        0
    } else {
        successful_verifications(records.drop_last()) + if records.last().verification_result {
            1nat
        } else {
            0nat
        }
    }
}

/// Appending a record adds one to the count exactly when the record is a success.
pub proof fn lemma_successful_verifications_push(records: Seq<VerificationRecord>, r: VerificationRecord)
    ensures
        successful_verifications(records.push(r)) == successful_verifications(records) + if r.verification_result {
            1nat
        } else {
            0nat
        },
{
    assert(records.push(r).drop_last() =~= records);
}

/// Whether a document of type `t` is among `docs`.
pub open spec fn has_document_of_type(docs: Seq<CredentialDocument>, t: CredentialType) -> bool {
    exists|i: int| 0 <= i < docs.len() && docs[i].document_type == t
}

/// Looks for a submitted document of the given type.
pub fn document_exists_for_type(docs: &Vec<CredentialDocument>, t: CredentialType) -> (r: bool)
    ensures
        r == has_document_of_type(docs@, t),
{
    let mut i: usize = 0;
    while i < docs.len()
        invariant
            i <= docs@.len(),
            forall|j: int| 0 <= j < i ==> docs@[j].document_type != t,
        decreases docs@.len() - i,
    {
        if docs[i].document_type == t {
            return true;
        }
        i = i + 1;
    }
    false
}

/// Whether a list of ratings is acceptable: not empty, each rating between 1 and 5.
pub open spec fn ratings_valid(ratings: Seq<CompetencyRating>) -> bool {
    &&& ratings.len() > 0
    &&& forall|i: int| 0 <= i < ratings.len() ==> 1 <= #[trigger] ratings[i].rating <= 5
}

/// Checks the ratings of a peer reference.
pub fn validate_competency_ratings(ratings: &Vec<CompetencyRating>) -> (r: Result<(), Error>)
    ensures
        r is Ok <==> ratings_valid(ratings@),
        r is Err ==> r == Err::<(), Error>(Error::InvalidRating),
{
    if ratings.len() == 0 {
        return Err(Error::InvalidRating);
    }
    let mut i: usize = 0;
    while i < ratings.len()
        invariant
            i <= ratings@.len(),
            forall|j: int| 0 <= j < i ==> 1 <= #[trigger] ratings@[j].rating <= 5,
        decreases ratings@.len() - i,
    {
        let rating = ratings[i].rating;
        if rating < 1 || rating > 5 {
            return Err(Error::InvalidRating);
        }
        i = i + 1;
    }
    Ok(())
}

} // verus!
