//! A case with the evidence recorded against it, and the operations that move it through
//! review.
use vstd::prelude::*;
use crate::case::{
    document_exists_for_type, has_document_of_type, lemma_successful_verifications_push,
    ratings_valid, successful_verifications, validate_competency_ratings, CaseType,
    CompetencyRating, CredentialDocument, CredentialType, CredentialingCase,
    CredentialingStatus, Error, PeerReferenceRecord, SanctionCheckRecord, VerificationRecord,
    REQUIRED_CREDENTIALS, TARGET_COMPLETION_SECONDS,
};
use crate::identity::{Address, AuthContext};

verus! {

/// The counter a case should hold for the given successful verifications: their number,
/// up to the requirement.
pub open spec fn capped_count(successes: nat, required: u32) -> nat {
    if successes < required {
        successes
    } else {
        required as nat
    }
}

/// A case with the evidence recorded against it.
pub struct CaseFile {
    pub case: CredentialingCase,
    pub documents: Vec<CredentialDocument>,
    pub verifications: Vec<VerificationRecord>,
    pub sanction_checks: Vec<SanctionCheckRecord>,
    pub peer_references: Vec<PeerReferenceRecord>,
}

/// Whether `credential_type` names a type of which `docs` holds a document.
pub open spec fn names_submitted_type(docs: Seq<CredentialDocument>, credential_type: Seq<char>) -> bool {
    CredentialType::named(credential_type) matches Some(t) && has_document_of_type(docs, t)
}

impl CaseFile {
    /// The invariant of a case: the requirement is the policy's, the counter counts the
    /// successful verifications up to it, and committee review is only reached with the
    /// counter full.
    pub open spec fn wf(&self) -> bool {
        &&& self.case.verifications_required == REQUIRED_CREDENTIALS
        &&& self.case.verifications_complete == capped_count(
            successful_verifications(self.verifications@),
            self.case.verifications_required,
        )
        &&& self.case.status == CredentialingStatus::CommitteeReview
            ==> self.case.verifications_complete == self.case.verifications_required
    }

    /// The case a provider opens at a facility on `application_date`, before any evidence.
    pub open spec fn opened(
        case_id: u64,
        provider_id: Address,
        facility_id: Address,
        application_date: u64,
    ) -> CredentialingCase {
        CredentialingCase {
            case_id,
            provider_id,
            facility_id,
            case_type: CaseType::Initial,
            status: CredentialingStatus::Incomplete,
            initiated_date: application_date,
            target_completion_date: (application_date + TARGET_COMPLETION_SECONDS) as u64,
            verifications_complete: 0,
            verifications_required: REQUIRED_CREDENTIALS,
        }
    }

    /// Opens case `case_id` for a provider at a facility. The provider must sign, and must
    /// ask for at least one privilege.
    pub fn open(
        auth: &AuthContext,
        case_id: u64,
        provider_id: Address,
        facility_id: Address,
        application_date: u64,
        requested_privileges: &Vec<String>,
    ) -> (r: Result<CaseFile, Error>)
        requires
            application_date <= u64::MAX - TARGET_COMPLETION_SECONDS,
        ensures
            !auth.authorizes(provider_id) ==> (r matches Err(e) && e == Error::NotAuthorized),
            auth.authorizes(provider_id) && requested_privileges@.len() == 0 ==> (r matches Err(e)
                && e == Error::InvalidInput),
            auth.authorizes(provider_id) && requested_privileges@.len() > 0 ==> (r matches Ok(cf) && {
                &&& cf.case == Self::opened(case_id, provider_id, facility_id, application_date)
                &&& cf.documents@.len() == 0
                &&& cf.verifications@.len() == 0
                &&& cf.sanction_checks@.len() == 0
                &&& cf.peer_references@.len() == 0
                &&& cf.wf()
            }),
    {
        if !auth.authenticate(provider_id) {
            return Err(Error::NotAuthorized);
        }
        if requested_privileges.len() == 0 {
            return Err(Error::InvalidInput);
        }
        let case = CredentialingCase {
            case_id,
            provider_id,
            facility_id,
            case_type: CaseType::Initial,
            status: CredentialingStatus::Incomplete,
            initiated_date: application_date,
            target_completion_date: application_date + TARGET_COMPLETION_SECONDS,
            verifications_complete: 0,
            verifications_required: REQUIRED_CREDENTIALS,
        };
        let verifications: Vec<VerificationRecord> = Vec::new();
        proof {
            assert(verifications@ =~= Seq::<VerificationRecord>::empty());
            assert(successful_verifications(verifications@) == 0);
        }
        Ok(
            CaseFile {
                case,
                documents: Vec::new(),
                verifications,
                sanction_checks: Vec::new(),
                peer_references: Vec::new(),
            },
        )
    }

    /// Files a credential document, which puts the case back in review. The type must be
    /// one of `medical_license`, `dea`, `board_cert`, `cv`, `references`.
    pub fn submit_credential_document(
        &mut self,
        document_type: &str,
        document_hash: [u8; 32],
        issuing_authority: String,
        issue_date: u64,
        expiration_date: Option<u64>,
    ) -> (r: Result<(), Error>)
        ensures
            old(self).wf() ==> final(self).wf(),
            CredentialType::named(document_type@) is None ==> r == Err::<(), Error>(
                Error::InvalidCredentialType,
            ) && *final(self) == *old(self),
            CredentialType::named(document_type@) is Some ==> {
                &&& r is Ok
                &&& final(self).case == old(self).case.after_document()
                &&& final(self).documents@ == old(self).documents@.push(
                    CredentialDocument {
                        document_type: CredentialType::named(document_type@)->Some_0,
                        document_hash,
                        issuing_authority,
                        issue_date,
                        expiration_date,
                    },
                )
                &&& final(self).verifications == old(self).verifications
                &&& final(self).sanction_checks == old(self).sanction_checks
                &&& final(self).peer_references == old(self).peer_references
            },
    {
        let t = match CredentialType::from_name(document_type) {
            Some(t) => t,
            None => {
                return Err(Error::InvalidCredentialType);
            },
        };
        self.documents.push(
            CredentialDocument {
                document_type: t,
                document_hash,
                issuing_authority,
                issue_date,
                expiration_date,
            },
        );
        self.case.record_document();
        Ok(())
    }

    /// Records a verification attempt on a submitted credential. The verifier must sign,
    /// and a document of the type must have been submitted. A success counts towards the
    /// requirement and moves the case to committee review once it is met; a failure defers
    /// the case for more information.
    pub fn verify_credential(
        &mut self,
        auth: &AuthContext,
        credential_type: &str,
        verifier: Address,
        verification_method: String,
        verification_result: bool,
        verification_date: u64,
        verification_notes: String,
    ) -> (r: Result<(), Error>)
        ensures
            old(self).wf() ==> final(self).wf(),
            !auth.authorizes(verifier) ==> r == Err::<(), Error>(Error::NotAuthorized),
            auth.authorizes(verifier) && !names_submitted_type(old(self).documents@, credential_type@)
                ==> r == Err::<(), Error>(Error::DocumentNotFound),
            r is Err ==> *final(self) == *old(self),
            auth.authorizes(verifier) && names_submitted_type(old(self).documents@, credential_type@)
                ==> {
                &&& r is Ok
                &&& final(self).case == old(self).case.after_verification(verification_result)
                &&& final(self).verifications@ == old(self).verifications@.push(
                    VerificationRecord {
                        credential_type: CredentialType::named(credential_type@)->Some_0,
                        verifier,
                        verification_method,
                        verification_result,
                        verification_date,
                        verification_notes,
                    },
                )
                &&& final(self).documents == old(self).documents
                &&& final(self).sanction_checks == old(self).sanction_checks
                &&& final(self).peer_references == old(self).peer_references
            },
    {
        if !auth.authenticate(verifier) {
            return Err(Error::NotAuthorized);
        }
        let t = match CredentialType::from_name(credential_type) {
            Some(t) => t,
            None => {
                return Err(Error::DocumentNotFound);
            },
        };
        if !document_exists_for_type(&self.documents, t) {
            return Err(Error::DocumentNotFound);
        }
        let record = VerificationRecord {
            credential_type: t,
            verifier,
            verification_method,
            verification_result,
            verification_date,
            verification_notes,
        };
        proof {
            lemma_successful_verifications_push(self.verifications@, record);
        }
        self.verifications.push(record);
        self.case.record_verification(verification_result);
        Ok(())
    }

    /// Records a search of the sanction databases; sanctions found deny the case. The
    /// checker must sign.
    pub fn check_sanctions(
        &mut self,
        auth: &AuthContext,
        checker: Address,
        databases_checked: Vec<String>,
        sanctions_found: bool,
        check_date: u64,
    ) -> (r: Result<(), Error>)
        ensures
            old(self).wf() ==> final(self).wf(),
            !auth.authorizes(checker) ==> r == Err::<(), Error>(Error::NotAuthorized)
                && *final(self) == *old(self),
            auth.authorizes(checker) ==> {
                &&& r is Ok
                &&& final(self).case == old(self).case.after_sanction_check(sanctions_found)
                &&& final(self).sanction_checks@ == old(self).sanction_checks@.push(
                    SanctionCheckRecord { checker, databases_checked, sanctions_found, check_date },
                )
                &&& final(self).documents == old(self).documents
                &&& final(self).verifications == old(self).verifications
                &&& final(self).peer_references == old(self).peer_references
            },
    {
        if !auth.authenticate(checker) {
            return Err(Error::NotAuthorized);
        }
        self.sanction_checks.push(
            SanctionCheckRecord { checker, databases_checked, sanctions_found, check_date },
        );
        self.case.record_sanction_check(sanctions_found);
        Ok(())
    }

    /// Records a peer reference; one that does not recommend defers the case. The referee
    /// must sign, and must rate at least one competency, each between 1 and 5.
    pub fn conduct_peer_reference(
        &mut self,
        auth: &AuthContext,
        reference_provider: Address,
        competency_ratings: Vec<CompetencyRating>,
        reference_notes_hash: [u8; 32],
        recommended: bool,
    ) -> (r: Result<(), Error>)
        ensures
            old(self).wf() ==> final(self).wf(),
            !auth.authorizes(reference_provider) ==> r == Err::<(), Error>(Error::NotAuthorized),
            auth.authorizes(reference_provider) && !ratings_valid(competency_ratings@) ==> r
                == Err::<(), Error>(Error::InvalidRating),
            r is Err ==> *final(self) == *old(self),
            auth.authorizes(reference_provider) && ratings_valid(competency_ratings@) ==> {
                &&& r is Ok
                &&& final(self).case == old(self).case.after_peer_reference(recommended)
                &&& final(self).peer_references@ == old(self).peer_references@.push(
                    PeerReferenceRecord {
                        reference_provider,
                        competency_ratings,
                        reference_notes_hash,
                        recommended,
                    },
                )
                &&& final(self).documents == old(self).documents
                &&& final(self).verifications == old(self).verifications
                &&& final(self).sanction_checks == old(self).sanction_checks
            },
    {
        if !auth.authenticate(reference_provider) {
            return Err(Error::NotAuthorized);
        }
        if let Err(e) = validate_competency_ratings(&competency_ratings) {
            return Err(e);
        }
        self.peer_references.push(
            PeerReferenceRecord {
                reference_provider,
                competency_ratings,
                reference_notes_hash,
                recommended,
            },
        );
        self.case.record_peer_reference(recommended);
        Ok(())
    }

    /// Approves a case under committee review for the grant of the given categories of
    /// privileges. The committee must sign, there must be at least one category, and the
    /// privileges must expire after they take effect.
    pub fn approve(
        &mut self,
        auth: &AuthContext,
        credentialing_committee: Address,
        approved_privileges: &Vec<String>,
        effective_date: u64,
        expiration_date: u64,
    ) -> (r: Result<(), Error>)
        ensures
            old(self).wf() ==> final(self).wf(),
            !auth.authorizes(credentialing_committee) ==> r == Err::<(), Error>(
                Error::NotAuthorized,
            ),
            auth.authorizes(credentialing_committee) && old(self).case.status
                != CredentialingStatus::CommitteeReview ==> r == Err::<(), Error>(
                Error::InvalidStatusTransition,
            ),
            auth.authorizes(credentialing_committee) && old(self).case.status
                == CredentialingStatus::CommitteeReview && (approved_privileges@.len() == 0
                || expiration_date <= effective_date) ==> r == Err::<(), Error>(Error::InvalidInput),
            r is Ok <==> auth.authorizes(credentialing_committee) && old(self).case.status
                == CredentialingStatus::CommitteeReview && approved_privileges@.len() > 0
                && expiration_date > effective_date,
            r is Err ==> *final(self) == *old(self),
            r is Ok ==> {
                &&& final(self).case == old(self).case.after_grant()
                &&& final(self).documents == old(self).documents
                &&& final(self).verifications == old(self).verifications
                &&& final(self).sanction_checks == old(self).sanction_checks
                &&& final(self).peer_references == old(self).peer_references
            },
    {
        if !auth.authenticate(credentialing_committee) {
            return Err(Error::NotAuthorized);
        }
        if self.case.status != CredentialingStatus::CommitteeReview {
            return Err(Error::InvalidStatusTransition);
        }
        if approved_privileges.len() == 0 || expiration_date <= effective_date {
            return Err(Error::InvalidInput);
        }
        self.case.status = CredentialingStatus::Approved;
        Ok(())
    }
}

} // verus!
