//! The credentialing system: cases pushed through review by document verification and
//! screening, the privilege ledger they feed, and the ancillary records.
use vstd::prelude::*;
use crate::case::{
    lemma_successful_verifications_push, ratings_valid, successful_verifications, CaseType,
    CompetencyRating, CredentialDocument, CredentialType, CredentialingCase,
    CredentialingStatus, Error, PeerReferenceRecord, SanctionCheckRecord, VerificationRecord,
    REQUIRED_CREDENTIALS, TARGET_COMPLETION_SECONDS,
};
use crate::casefile::{names_submitted_type, CaseFile};
use crate::identity::{Address, AuthContext};
use crate::ledger::{is_grant, is_reinstate_outcome, is_suspend_outcome, PrivilegeLedger};
use crate::privilege::{same_but_restrictions, Privilege, ReinstatementRecord, SuspensionRecord};
use crate::tracking::{
    is_activity_logged, is_focused_review, is_provisional_request, is_schedule,
    AncillaryTracking, ClinicalActivityRecord,
};

verus! {

/// The invariant of the case numbered `id`.
pub open spec fn case_file_wf(cf: CaseFile, id: int) -> bool {
    cf.wf() && cf.case.case_id == id
}

/// What a verification attempt does to the system, with its result.
pub open spec fn is_verify_credential_outcome(
    before: HealthcareCredentialingSystem,
    after: HealthcareCredentialingSystem,
    auth: AuthContext,
    case_id: u64,
    credential_type: Seq<char>,
    verifier: Address,
    verification_method: String,
    verification_result: bool,
    verification_date: u64,
    verification_notes: String,
    r: Result<(), Error>,
) -> bool {
    &&& !auth.authorizes(verifier) ==> r == Err::<(), Error>(Error::NotAuthorized)
    &&& auth.authorizes(verifier) && !before.has_case(case_id) ==> r == Err::<(), Error>(
        Error::CaseNotFound,
    )
    &&& auth.authorizes(verifier) && before.has_case(case_id) && !names_submitted_type(
        before.case_file(case_id).documents@,
        credential_type,
    ) ==> r == Err::<(), Error>(Error::DocumentNotFound)
    &&& auth.authorizes(verifier) && before.has_case(case_id) && names_submitted_type(
        before.case_file(case_id).documents@,
        credential_type,
    ) ==> r is Ok
    &&& r is Err ==> before.unchanged(after)
    &&& r is Ok ==> {
        &&& before.same_but_case(after, case_id)
        &&& after.case(case_id) == before.case(case_id).after_verification(verification_result)
        &&& after.case_file(case_id).verifications@ == before.case_file(
            case_id,
        ).verifications@.push(
            VerificationRecord {
                credential_type: CredentialType::named(credential_type)->Some_0,
                verifier,
                verification_method,
                verification_result,
                verification_date,
                verification_notes,
            },
        )
        &&& after.case_file(case_id).documents == before.case_file(case_id).documents
        &&& after.case_file(case_id).sanction_checks == before.case_file(case_id).sanction_checks
        &&& after.case_file(case_id).peer_references == before.case_file(case_id).peer_references
    }
}

/// The conditions of a grant as a list, none standing for an empty one.
pub open spec fn condition_list(conditions: Option<Vec<String>>) -> Seq<String> {
    match conditions {
        Some(v) => v@,
        None => Seq::<String>::empty(),
    }
}

/// What a grant of privileges on a case does to the system, with its result.
pub open spec fn is_grant_privileges_outcome(
    before: HealthcareCredentialingSystem,
    after: HealthcareCredentialingSystem,
    auth: AuthContext,
    case_id: u64,
    credentialing_committee: Address,
    approved_privileges: Seq<String>,
    conditions: Option<Vec<String>>,
    effective_date: u64,
    expiration_date: u64,
    r: Result<(), Error>,
) -> bool {
    let allowed = auth.authorizes(credentialing_committee);
    let reviewed = before.has_case(case_id) && before.case(case_id).status
        == CredentialingStatus::CommitteeReview;
    &&& !allowed ==> r == Err::<(), Error>(Error::NotAuthorized)
    &&& allowed && !before.has_case(case_id) ==> r == Err::<(), Error>(Error::CaseNotFound)
    &&& allowed && before.has_case(case_id) && !reviewed ==> r == Err::<(), Error>(
        Error::InvalidStatusTransition,
    )
    &&& allowed && reviewed && (approved_privileges.len() == 0 || expiration_date
        <= effective_date) ==> r == Err::<(), Error>(Error::InvalidInput)
    &&& r is Ok <==> allowed && reviewed && approved_privileges.len() > 0 && expiration_date
        > effective_date
    &&& r is Err ==> before.unchanged(after)
    &&& r is Ok ==> {
        let c = before.case(case_id);
        &&& after.cases().len() == before.cases().len()
        &&& forall|i: int|
            0 <= i < before.cases().len() && i != case_id - 1 ==> #[trigger] after.cases()[i]
                == before.cases()[i]
        &&& after.case(case_id) == c.after_grant()
        &&& after.case_file(case_id).documents == before.case_file(case_id).documents
        &&& after.case_file(case_id).verifications == before.case_file(case_id).verifications
        &&& after.case_file(case_id).sanction_checks == before.case_file(case_id).sanction_checks
        &&& after.case_file(case_id).peer_references == before.case_file(case_id).peer_references
        &&& is_grant(
            before.ledger(),
            after.ledger(),
            c.provider_id,
            c.facility_id,
            approved_privileges,
            condition_list(conditions),
            effective_date,
            expiration_date,
        )
        &&& after.tracking() == before.tracking()
    }
}

pub struct HealthcareCredentialingSystem {
    cases: Vec<CaseFile>,
    ledger: PrivilegeLedger,
    tracking: AncillaryTracking,
}

impl HealthcareCredentialingSystem {
    /// The cases, the case numbered `i + 1` at index `i`.
    pub closed spec fn cases(&self) -> Seq<CaseFile> {
        self.cases@
    }

    pub closed spec fn ledger(&self) -> PrivilegeLedger {
        self.ledger
    }

    pub closed spec fn tracking(&self) -> AncillaryTracking {
        self.tracking
    }

    /// The invariant of the system: every case keeps its own and is numbered by its place,
    /// and the ledger and the ancillary records keep theirs. `new` establishes it and every
    /// operation keeps it.
    pub closed spec fn wf(&self) -> bool {
        &&& self.ledger.wf()
        &&& self.tracking.wf()
        &&& forall|i: int| 0 <= i < self.cases@.len() ==> case_file_wf(#[trigger] self.cases@[i], i + 1)
    }

    pub open spec fn has_case(&self, case_id: u64) -> bool {
        1 <= case_id <= self.cases().len()
    }

    pub open spec fn case_file(&self, case_id: u64) -> CaseFile {
        self.cases()[case_id - 1]
    }

    pub open spec fn case(&self, case_id: u64) -> CredentialingCase {
        self.case_file(case_id).case
    }

    pub open spec fn privileges_of(&self, p: Address, f: Address) -> Seq<Privilege> {
        self.ledger().privileges_of(p, f)
    }

    /// `after` holds the same cases, privileges and ancillary records as `self`.
    pub open spec fn unchanged(&self, after: Self) -> bool {
        &&& after.cases() == self.cases()
        &&& after.ledger() == self.ledger()
        &&& after.tracking() == self.tracking()
    }

    /// `after` is `self` but for the case file numbered `case_id`.
    pub open spec fn same_but_case(&self, after: Self, case_id: u64) -> bool {
        &&& after.cases().len() == self.cases().len()
        &&& forall|i: int|
            0 <= i < self.cases().len() && i != case_id - 1 ==> #[trigger] after.cases()[i]
                == self.cases()[i]
        &&& after.ledger() == self.ledger()
        &&& after.tracking() == self.tracking()
    }

    /// Every case of a well-formed system keeps its invariant.
    pub proof fn lemma_case_wf(&self, case_id: u64)
        requires
            self.wf(),
            self.has_case(case_id),
        ensures
            case_file_wf(self.case_file(case_id), case_id as int),
    {
        assert(case_file_wf(self.cases@[case_id - 1], case_id - 1 + 1));
    }

    pub fn new() -> (r: HealthcareCredentialingSystem)
        ensures
            r.wf(),
            r.cases().len() == 0,
            r.ledger().privilege_counter() == 0,
            forall|p: Address, f: Address| (#[trigger] r.privileges_of(p, f)).len() == 0,
    {
        HealthcareCredentialingSystem {
            cases: Vec::new(),
            ledger: PrivilegeLedger::new(),
            tracking: AncillaryTracking::new(),
        }
    }

    /// The number of cases opened so far.
    pub fn case_count(&self) -> (r: usize)
        ensures
            r == self.cases().len(),
    {
        self.cases.len()
    }

    /// The id of the last privilege granted, 0 before the first.
    pub fn privilege_counter(&self) -> (r: u64)
        ensures
            r == self.ledger().privilege_counter(),
    {
        self.ledger.get_privilege_counter()
    }

    /// The index of the case numbered `case_id` among the cases.
    fn case_index(&self, case_id: u64) -> (r: Option<usize>)
        ensures
            r is Some <==> self.has_case(case_id),
            r matches Some(i) ==> i == case_id - 1,
    {
        let n = self.cases.len();
        if case_id >= 1 && case_id <= n as u64 {
            Some((case_id - 1) as usize)
        } else {
            None
        }
    }

    /// Finds a case by its id.
    fn get_case(&self, case_id: u64) -> (r: Result<CredentialingCase, Error>)
        ensures
            self.has_case(case_id) ==> r == Ok::<CredentialingCase, Error>(self.case(case_id)),
            !self.has_case(case_id) ==> r == Err::<CredentialingCase, Error>(Error::CaseNotFound),
    {
        match self.case_index(case_id) {
            Some(i) => Ok(self.cases[i].case),
            None => Err(Error::CaseNotFound),
        }
    }

    /// Opens a case for a provider at a facility and returns its id. The provider must
    /// sign, and must ask for at least one privilege.
    pub fn initiate_credentialing(
        &mut self,
        auth: &AuthContext,
        provider_id: Address,
        facility_id: Address,
        application_date: u64,
        requested_privileges: &Vec<String>,
    ) -> (r: Result<u64, Error>)
        requires
            old(self).wf(),
            old(self).cases().len() < u64::MAX,
            application_date <= u64::MAX - TARGET_COMPLETION_SECONDS,
        ensures
            final(self).wf(),
            !auth.authorizes(provider_id) ==> r == Err::<u64, Error>(Error::NotAuthorized),
            auth.authorizes(provider_id) && requested_privileges@.len() == 0 ==> r == Err::<
                u64,
                Error,
            >(Error::InvalidInput),
            r is Err ==> old(self).unchanged(*final(self)),
            auth.authorizes(provider_id) && requested_privileges@.len() > 0 ==> {
                &&& r == Ok::<u64, Error>((old(self).cases().len() + 1) as u64)
                &&& final(self).cases().len() == old(self).cases().len() + 1
                &&& final(self).cases().subrange(0, old(self).cases().len() as int) == old(self).cases()
                &&& final(self).case(r->Ok_0) == (CredentialingCase {
                    case_id: r->Ok_0,
                    provider_id,
                    facility_id,
                    case_type: CaseType::Initial,
                    status: CredentialingStatus::Incomplete,
                    initiated_date: application_date,
                    target_completion_date: (application_date + TARGET_COMPLETION_SECONDS) as u64,
                    verifications_complete: 0,
                    verifications_required: REQUIRED_CREDENTIALS,
                })
                &&& final(self).case_file(r->Ok_0).documents@.len() == 0
                &&& final(self).case_file(r->Ok_0).verifications@.len() == 0
                &&& final(self).case_file(r->Ok_0).sanction_checks@.len() == 0
                &&& final(self).case_file(r->Ok_0).peer_references@.len() == 0
                &&& final(self).ledger() == old(self).ledger()
                &&& final(self).tracking() == old(self).tracking()
            },
    {
        let case_id = self.cases.len() as u64 + 1;
        let file = match CaseFile::open(
            auth,
            case_id,
            provider_id,
            facility_id,
            application_date,
            requested_privileges,
        ) {
            Ok(f) => f,
            Err(e) => {
                return Err(e);
            },
        };
        self.cases.push(file);
        proof {
            assert(self.cases@.subrange(0, old(self).cases@.len() as int) =~= old(self).cases@);
            assert forall|i: int| 0 <= i < self.cases@.len() implies case_file_wf(
                #[trigger] self.cases@[i],
                i + 1,
            ) by {
                if i < old(self).cases@.len() {
                    assert(self.cases@[i] == old(self).cases@[i]);
                }
            }
        }
        Ok(case_id)
    }

    /// Files a credential document for a case, which puts the case back in review. The type
    /// must be one of `medical_license`, `dea`, `board_cert`, `cv`, `references`.
    pub fn submit_credential_document(
        &mut self,
        case_id: u64,
        document_type: &str,
        document_hash: [u8; 32],
        issuing_authority: String,
        issue_date: u64,
        expiration_date: Option<u64>,
    ) -> (r: Result<(), Error>)
        requires
            old(self).wf(),
        ensures
            final(self).wf(),
            !old(self).has_case(case_id) ==> r == Err::<(), Error>(Error::CaseNotFound),
            old(self).has_case(case_id) && CredentialType::named(document_type@) is None ==> r
                == Err::<(), Error>(Error::InvalidCredentialType),
            r is Err ==> old(self).unchanged(*final(self)),
            old(self).has_case(case_id) && CredentialType::named(document_type@) is Some ==> {
                &&& r is Ok
                &&& old(self).same_but_case(*final(self), case_id)
                &&& final(self).case(case_id) == old(self).case(case_id).after_document()
                &&& final(self).case_file(case_id).documents@ == old(self).case_file(
                    case_id,
                ).documents@.push(
                    CredentialDocument {
                        document_type: CredentialType::named(document_type@)->Some_0,
                        document_hash,
                        issuing_authority,
                        issue_date,
                        expiration_date,
                    },
                )
                &&& final(self).case_file(case_id).verifications == old(self).case_file(
                    case_id,
                ).verifications
                &&& final(self).case_file(case_id).sanction_checks == old(self).case_file(
                    case_id,
                ).sanction_checks
                &&& final(self).case_file(case_id).peer_references == old(self).case_file(
                    case_id,
                ).peer_references
            },
    {
        let idx = match self.case_index(case_id) {
            Some(i) => i,
            None => {
                return Err(Error::CaseNotFound);
            },
        };
        proof {
            self.lemma_case_wf(case_id);
        }
        let r = self.cases[idx].submit_credential_document(
            document_type,
            document_hash,
            issuing_authority,
            issue_date,
            expiration_date,
        );
        proof {
            if r is Err {
                assert(self.cases@ =~= old(self).cases@);
            }
            assert forall|i: int| 0 <= i < self.cases@.len() implies case_file_wf(
                #[trigger] self.cases@[i],
                i + 1,
            ) by {
                if i != idx {
                    assert(self.cases@[i] == old(self).cases@[i]);
                }
            }
        }
        r
    }

    /// Records a verification attempt on a submitted credential. The verifier must sign,
    /// and a document of the type must have been submitted for the case. A success counts
    /// towards the requirement and moves the case to committee review once it is met; a
    /// failure defers the case for more information.
    pub fn verify_credential(
        &mut self,
        auth: &AuthContext,
        case_id: u64,
        credential_type: &str,
        verifier: Address,
        verification_method: String,
        verification_result: bool,
        verification_date: u64,
        verification_notes: String,
    ) -> (r: Result<(), Error>)
        requires
            old(self).wf(),
        ensures
            final(self).wf(),
            is_verify_credential_outcome(*old(self), *final(self), *auth, case_id, credential_type@, verifier, verification_method, verification_result, verification_date, verification_notes, r),

    {
        if !auth.authenticate(verifier) {
            return Err(Error::NotAuthorized);
        }
        let idx = match self.case_index(case_id) {
            Some(i) => i,
            None => {
                return Err(Error::CaseNotFound);
            },
        };
        proof {
            self.lemma_case_wf(case_id);
        }
        let r = self.cases[idx].verify_credential(
            auth,
            credential_type,
            verifier,
            verification_method,
            verification_result,
            verification_date,
            verification_notes,
        );
        proof {
            if r is Err {
                assert(self.cases@ =~= old(self).cases@);
            }
            assert forall|i: int| 0 <= i < self.cases@.len() implies case_file_wf(
                #[trigger] self.cases@[i],
                i + 1,
            ) by {
                if i != idx {
                    assert(self.cases@[i] == old(self).cases@[i]);
                }
            }
        }
        r
    }

    /// Records a search of the sanction databases; sanctions found deny the case. The
    /// checker must sign.
    pub fn check_sanctions(
        &mut self,
        auth: &AuthContext,
        case_id: u64,
        checker: Address,
        databases_checked: Vec<String>,
        sanctions_found: bool,
        check_date: u64,
    ) -> (r: Result<(), Error>)
        requires
            old(self).wf(),
        ensures
            final(self).wf(),
            !auth.authorizes(checker) ==> r == Err::<(), Error>(Error::NotAuthorized),
            auth.authorizes(checker) && !old(self).has_case(case_id) ==> r == Err::<(), Error>(
                Error::CaseNotFound,
            ),
            r is Err ==> old(self).unchanged(*final(self)),
            auth.authorizes(checker) && old(self).has_case(case_id) ==> {
                &&& r is Ok
                &&& old(self).same_but_case(*final(self), case_id)
                &&& final(self).case(case_id) == old(self).case(case_id).after_sanction_check(
                    sanctions_found,
                )
                &&& final(self).case_file(case_id).sanction_checks@ == old(self).case_file(
                    case_id,
                ).sanction_checks@.push(
                    SanctionCheckRecord { checker, databases_checked, sanctions_found, check_date },
                )
                &&& final(self).case_file(case_id).documents == old(self).case_file(
                    case_id,
                ).documents
                &&& final(self).case_file(case_id).verifications == old(self).case_file(
                    case_id,
                ).verifications
                &&& final(self).case_file(case_id).peer_references == old(self).case_file(
                    case_id,
                ).peer_references
            },
    {
        if !auth.authenticate(checker) {
            return Err(Error::NotAuthorized);
        }
        let idx = match self.case_index(case_id) {
            Some(i) => i,
            None => {
                return Err(Error::CaseNotFound);
            },
        };
        proof {
            self.lemma_case_wf(case_id);
        }
        let r = self.cases[idx].check_sanctions(
            auth,
            checker,
            databases_checked,
            sanctions_found,
            check_date,
        );
        proof {
            if r is Err {
                assert(self.cases@ =~= old(self).cases@);
            }
            assert forall|i: int| 0 <= i < self.cases@.len() implies case_file_wf(
                #[trigger] self.cases@[i],
                i + 1,
            ) by {
                if i != idx {
                    assert(self.cases@[i] == old(self).cases@[i]);
                }
            }
        }
        r
    }

    /// Records a peer reference; one that does not recommend defers the case. The referee
    /// must sign, and must rate at least one competency, each between 1 and 5.
    pub fn conduct_peer_reference(
        &mut self,
        auth: &AuthContext,
        case_id: u64,
        reference_provider: Address,
        competency_ratings: Vec<CompetencyRating>,
        reference_notes_hash: [u8; 32],
        recommended: bool,
    ) -> (r: Result<(), Error>)
        requires
            old(self).wf(),
        ensures
            final(self).wf(),
            !auth.authorizes(reference_provider) ==> r == Err::<(), Error>(Error::NotAuthorized),
            auth.authorizes(reference_provider) && !old(self).has_case(case_id) ==> r == Err::<
                (),
                Error,
            >(Error::CaseNotFound),
            auth.authorizes(reference_provider) && old(self).has_case(case_id) && !ratings_valid(
                competency_ratings@,
            ) ==> r == Err::<(), Error>(Error::InvalidRating),
            r is Err ==> old(self).unchanged(*final(self)),
            auth.authorizes(reference_provider) && old(self).has_case(case_id) && ratings_valid(
                competency_ratings@,
            ) ==> {
                &&& r is Ok
                &&& old(self).same_but_case(*final(self), case_id)
                &&& final(self).case(case_id) == old(self).case(case_id).after_peer_reference(
                    recommended,
                )
                &&& final(self).case_file(case_id).peer_references@ == old(self).case_file(
                    case_id,
                ).peer_references@.push(
                    PeerReferenceRecord {
                        reference_provider,
                        competency_ratings,
                        reference_notes_hash,
                        recommended,
                    },
                )
                &&& final(self).case_file(case_id).documents == old(self).case_file(
                    case_id,
                ).documents
                &&& final(self).case_file(case_id).verifications == old(self).case_file(
                    case_id,
                ).verifications
                &&& final(self).case_file(case_id).sanction_checks == old(self).case_file(
                    case_id,
                ).sanction_checks
            },
    {
        if !auth.authenticate(reference_provider) {
            return Err(Error::NotAuthorized);
        }
        let idx = match self.case_index(case_id) {
            Some(i) => i,
            None => {
                return Err(Error::CaseNotFound);
            },
        };
        proof {
            self.lemma_case_wf(case_id);
        }
        let r = self.cases[idx].conduct_peer_reference(
            auth,
            reference_provider,
            competency_ratings,
            reference_notes_hash,
            recommended,
        );
        proof {
            if r is Err {
                assert(self.cases@ =~= old(self).cases@);
            }
            assert forall|i: int| 0 <= i < self.cases@.len() implies case_file_wf(
                #[trigger] self.cases@[i],
                i + 1,
            ) by {
                if i != idx {
                    assert(self.cases@[i] == old(self).cases@[i]);
                }
            }
        }
        r
    }

    /// Grants privileges on a case under committee review: one privilege per approved
    /// category, to the case's provider at its facility, each carrying the conditions as
    /// its restrictions; the case is then approved. The committee must sign, there must be
    /// at least one category, and the privileges must expire after they take effect.
    pub fn grant_privileges(
        &mut self,
        auth: &AuthContext,
        case_id: u64,
        credentialing_committee: Address,
        approved_privileges: &Vec<String>,
        conditions: Option<Vec<String>>,
        effective_date: u64,
        expiration_date: u64,
    ) -> (r: Result<(), Error>)
        requires
            old(self).wf(),
            old(self).ledger().privilege_counter() + approved_privileges@.len() <= u64::MAX,
        ensures
            final(self).wf(),
            is_grant_privileges_outcome(*old(self), *final(self), *auth, case_id, credentialing_committee, approved_privileges@, conditions, effective_date, expiration_date, r),

    {
        if !auth.authenticate(credentialing_committee) {
            return Err(Error::NotAuthorized);
        }
        let idx = match self.case_index(case_id) {
            Some(i) => i,
            None => {
                return Err(Error::CaseNotFound);
            },
        };
        proof {
            self.lemma_case_wf(case_id);
        }
        if let Err(e) = self.cases[idx].approve(
            auth,
            credentialing_committee,
            approved_privileges,
            effective_date,
            expiration_date,
        ) {
            proof {
                assert(self.cases@ =~= old(self).cases@);
            }
            return Err(e);
        }
        let template = match conditions {
            Some(v) => v,
            None => Vec::new(),
        };
        let provider_id = self.cases[idx].case.provider_id;
        let facility_id = self.cases[idx].case.facility_id;
        self.ledger.grant(
            provider_id,
            facility_id,
            approved_privileges,
            &template,
            effective_date,
            expiration_date,
        );
        proof {
            assert forall|i: int| 0 <= i < self.cases@.len() implies case_file_wf(
                #[trigger] self.cases@[i],
                i + 1,
            ) by {
                if i != idx {
                    assert(self.cases@[i] == old(self).cases@[i]);
                }
            }
        }
        Ok(())
    }

    /// Suspends every privilege of a provider at a facility and files the suspension. The
    /// authority must sign; there must be privileges, not all of them suspended already.
    pub fn suspend_privileges(
        &mut self,
        auth: &AuthContext,
        provider_id: Address,
        facility_id: Address,
        suspension_authority: Address,
        suspension_reason: String,
        suspension_date: u64,
        is_immediate: bool,
        peer_review_required: bool,
    ) -> (r: Result<(), Error>)
        requires
            old(self).wf(),
        ensures
            final(self).wf(),
            !auth.authorizes(suspension_authority) ==> r == Err::<(), Error>(
                Error::NotAuthorized,
            ),
            r is Err ==> old(self).unchanged(*final(self)),
            auth.authorizes(suspension_authority) ==> is_suspend_outcome(
                old(self).ledger(),
                final(self).ledger(),
                provider_id,
                facility_id,
                SuspensionRecord {
                    suspension_authority,
                    suspension_reason,
                    suspension_date,
                    is_immediate,
                    peer_review_required,
                },
                r,
            ),
            final(self).cases() == old(self).cases(),
            final(self).tracking() == old(self).tracking(),
    {
        if !auth.authenticate(suspension_authority) {
            return Err(Error::NotAuthorized);
        }
        let record = SuspensionRecord {
            suspension_authority,
            suspension_reason,
            suspension_date,
            is_immediate,
            peer_review_required,
        };
        self.ledger.suspend(provider_id, facility_id, record)
    }

    /// Lifts the suspension of every privilege of a provider at a facility and files the
    /// reinstatement. The authority must sign; some privilege must be suspended.
    pub fn reinstate_privileges(
        &mut self,
        auth: &AuthContext,
        provider_id: Address,
        facility_id: Address,
        reinstatement_authority: Address,
        corrective_actions_completed: Vec<String>,
        monitoring_requirements: Vec<String>,
    ) -> (r: Result<(), Error>)
        requires
            old(self).wf(),
        ensures
            final(self).wf(),
            !auth.authorizes(reinstatement_authority) ==> r == Err::<(), Error>(
                Error::NotAuthorized,
            ),
            r is Err ==> old(self).unchanged(*final(self)),
            auth.authorizes(reinstatement_authority) ==> is_reinstate_outcome(
                old(self).ledger(),
                final(self).ledger(),
                provider_id,
                facility_id,
                ReinstatementRecord {
                    reinstatement_authority,
                    corrective_actions_completed,
                    monitoring_requirements,
                },
                r,
            ),
            final(self).cases() == old(self).cases(),
            final(self).tracking() == old(self).tracking(),
    {
        if !auth.authenticate(reinstatement_authority) {
            return Err(Error::NotAuthorized);
        }
        let record = ReinstatementRecord {
            reinstatement_authority,
            corrective_actions_completed,
            monitoring_requirements,
        };
        self.ledger.reinstate(provider_id, facility_id, record)
    }

    /// Files a request for provisional privileges and returns its id. The provider must sign.
    pub fn request_provisional_privileges(
        &mut self,
        auth: &AuthContext,
        provider_id: Address,
        facility_id: Address,
        privilege_category: String,
        supervising_provider: Address,
        justification: String,
    ) -> (r: Result<u64, Error>)
        requires
            old(self).wf(),
            old(self).tracking().provisional_requests().len() < u64::MAX,
        ensures
            final(self).wf(),
            !auth.authorizes(provider_id) ==> r == Err::<u64, Error>(Error::NotAuthorized)
                && old(self).unchanged(*final(self)),
            auth.authorizes(provider_id) ==> r is Ok && is_provisional_request(
                old(self).tracking(),
                final(self).tracking(),
                provider_id,
                facility_id,
                privilege_category,
                supervising_provider,
                justification,
                r->Ok_0,
            ),
            final(self).cases() == old(self).cases(),
            final(self).ledger() == old(self).ledger(),
    {
        if !auth.authenticate(provider_id) {
            return Err(Error::NotAuthorized);
        }
        let id = self.tracking.add_provisional_request(
            provider_id,
            facility_id,
            privilege_category,
            supervising_provider,
            justification,
        );
        Ok(id)
    }

    /// Logs a procedure the provider performed at the facility. The provider must sign.
    pub fn track_clinical_activity(
        &mut self,
        auth: &AuthContext,
        provider_id: Address,
        facility_id: Address,
        procedure_code: String,
        outcome: String,
        complications: bool,
        activity_date: u64,
    ) -> (r: Result<(), Error>)
        requires
            old(self).wf(),
        ensures
            final(self).wf(),
            !auth.authorizes(provider_id) ==> r == Err::<(), Error>(Error::NotAuthorized)
                && old(self).unchanged(*final(self)),
            auth.authorizes(provider_id) ==> r is Ok && is_activity_logged(
                old(self).tracking(),
                final(self).tracking(),
                provider_id,
                facility_id,
                ClinicalActivityRecord { procedure_code, outcome, complications, activity_date },
            ),
            final(self).cases() == old(self).cases(),
            final(self).ledger() == old(self).ledger(),
    {
        if !auth.authenticate(provider_id) {
            return Err(Error::NotAuthorized);
        }
        self.tracking.add_activity(
            provider_id,
            facility_id,
            ClinicalActivityRecord { procedure_code, outcome, complications, activity_date },
        );
        Ok(())
    }

    /// Opens a focused review of a provider at a facility and returns its id. The one who
    /// opens it must sign.
    pub fn trigger_focused_review(
        &mut self,
        auth: &AuthContext,
        provider_id: Address,
        facility_id: Address,
        trigger_reason: String,
        review_type: String,
        initiated_by: Address,
    ) -> (r: Result<u64, Error>)
        requires
            old(self).wf(),
            old(self).tracking().focused_reviews().len() < u64::MAX,
        ensures
            final(self).wf(),
            !auth.authorizes(initiated_by) ==> r == Err::<u64, Error>(Error::NotAuthorized)
                && old(self).unchanged(*final(self)),
            auth.authorizes(initiated_by) ==> r is Ok && is_focused_review(
                old(self).tracking(),
                final(self).tracking(),
                provider_id,
                facility_id,
                trigger_reason,
                review_type,
                initiated_by,
                r->Ok_0,
            ),
            final(self).cases() == old(self).cases(),
            final(self).ledger() == old(self).ledger(),
    {
        if !auth.authenticate(initiated_by) {
            return Err(Error::NotAuthorized);
        }
        let id = self.tracking.add_focused_review(
            provider_id,
            facility_id,
            trigger_reason,
            review_type,
            initiated_by,
        );
        Ok(id)
    }

    /// Sets a recredentialing due date for a provider at a facility and returns the
    /// schedule's id. The provider must sign.
    pub fn schedule_recredentialing(
        &mut self,
        auth: &AuthContext,
        provider_id: Address,
        facility_id: Address,
        due_date: u64,
        notification_sent: bool,
    ) -> (r: Result<u64, Error>)
        requires
            old(self).wf(),
            old(self).tracking().schedules().len() < u64::MAX,
        ensures
            final(self).wf(),
            !auth.authorizes(provider_id) ==> r == Err::<u64, Error>(Error::NotAuthorized)
                && old(self).unchanged(*final(self)),
            auth.authorizes(provider_id) ==> r is Ok && is_schedule(
                old(self).tracking(),
                final(self).tracking(),
                provider_id,
                facility_id,
                due_date,
                notification_sent,
                r->Ok_0,
            ),
            final(self).cases() == old(self).cases(),
            final(self).ledger() == old(self).ledger(),
    {
        if !auth.authenticate(provider_id) {
            return Err(Error::NotAuthorized);
        }
        let id = self.tracking.add_schedule(provider_id, facility_id, due_date, notification_sent);
        Ok(id)
    }

    /// The case numbered `case_id`.
    pub fn get_credentialing_case(&self, case_id: u64) -> (r: Result<CredentialingCase, Error>)
        ensures
            self.has_case(case_id) ==> r == Ok::<CredentialingCase, Error>(self.case(case_id)),
            !self.has_case(case_id) ==> r == Err::<CredentialingCase, Error>(Error::CaseNotFound),
    {
        self.get_case(case_id)
    }

    /// A copy of the privileges of a provider at a facility, in the order of their grant.
    pub fn get_provider_privileges(&self, provider_id: Address, facility_id: Address) -> (r: Vec<
        Privilege,
    >)
        requires
            self.wf(),
        ensures
            ({
                let ps = self.privileges_of(provider_id, facility_id);
                &&& r@.len() == ps.len()
                &&& forall|i: int|
                    0 <= i < ps.len() ==> same_but_restrictions(ps[i], #[trigger] r@[i])
                        && r@[i].restrictions@ == ps[i].restrictions@
            }),
    {
        self.ledger.privileges(provider_id, facility_id)
    }

    /// A copy of the clinical activity log of a provider at a facility, oldest first.
    pub fn get_clinical_activities(&self, provider_id: Address, facility_id: Address) -> (r: Vec<
        ClinicalActivityRecord,
    >)
        requires
            self.wf(),
        ensures
            r@ == self.tracking().activities_of(provider_id, facility_id),
    {
        self.tracking.activities(provider_id, facility_id)
    }
}


/// No case ever holds more completed verifications than it requires: every operation keeps
/// the system well formed, and a well-formed system has the counter within the requirement.
pub proof fn lemma_verifications_within_requirement(
    s: HealthcareCredentialingSystem,
    case_id: u64,
)
    requires
        s.wf(),
        s.has_case(case_id),
    ensures
        s.case(case_id).verifications_complete <= s.case(case_id).verifications_required,
        s.case(case_id).verifications_required == REQUIRED_CREDENTIALS,
{
    s.lemma_case_wf(case_id);
}

/// A case in committee review has as many successful verifications recorded as it
/// requires, in whatever order the operations came.
pub proof fn lemma_committee_review_needs_quorum(s: HealthcareCredentialingSystem, case_id: u64)
    requires
        s.wf(),
        s.has_case(case_id),
        s.case(case_id).status == CredentialingStatus::CommitteeReview,
    ensures
        successful_verifications(s.case_file(case_id).verifications@) >= s.case(
            case_id,
        ).verifications_required,
{
    s.lemma_case_wf(case_id);
}

/// Right after a successful verification, the case is in committee review exactly when its
/// successful verifications recorded reach the requirement.
pub proof fn lemma_success_reaches_committee_review(
    before: HealthcareCredentialingSystem,
    after: HealthcareCredentialingSystem,
    auth: AuthContext,
    case_id: u64,
    credential_type: Seq<char>,
    verifier: Address,
    verification_method: String,
    verification_date: u64,
    verification_notes: String,
    r: Result<(), Error>,
)
    requires
        before.wf(),
        is_verify_credential_outcome(
            before,
            after,
            auth,
            case_id,
            credential_type,
            verifier,
            verification_method,
            true,
            verification_date,
            verification_notes,
            r,
        ),
        r is Ok,
    ensures
        after.case(case_id).status == CredentialingStatus::CommitteeReview <==> successful_verifications(
            after.case_file(case_id).verifications@,
        ) >= after.case(case_id).verifications_required,
{
    before.lemma_case_wf(case_id);
    lemma_successful_verifications_push(
        before.case_file(case_id).verifications@,
        VerificationRecord {
            credential_type: CredentialType::named(credential_type)->Some_0,
            verifier,
            verification_method,
            verification_result: true,
            verification_date,
            verification_notes,
        },
    );
}

/// Privileges are granted only on a case in committee review, and only once: a second
/// grant on the same case, by a signing committee, fails with `InvalidStatusTransition`.
pub proof fn lemma_grant_once(
    s0: HealthcareCredentialingSystem,
    s1: HealthcareCredentialingSystem,
    s2: HealthcareCredentialingSystem,
    auth1: AuthContext,
    auth2: AuthContext,
    case_id: u64,
    committee1: Address,
    committee2: Address,
    approved1: Seq<String>,
    approved2: Seq<String>,
    conditions1: Option<Vec<String>>,
    conditions2: Option<Vec<String>>,
    effective1: u64,
    effective2: u64,
    expiration1: u64,
    expiration2: u64,
    r1: Result<(), Error>,
    r2: Result<(), Error>,
)
    requires
        is_grant_privileges_outcome(
            s0,
            s1,
            auth1,
            case_id,
            committee1,
            approved1,
            conditions1,
            effective1,
            expiration1,
            r1,
        ),
        is_grant_privileges_outcome(
            s1,
            s2,
            auth2,
            case_id,
            committee2,
            approved2,
            conditions2,
            effective2,
            expiration2,
            r2,
        ),
        auth2.authorizes(committee2),
    ensures
        r1 is Ok ==> s0.case(case_id).status == CredentialingStatus::CommitteeReview,
        r1 is Ok ==> s1.case(case_id).status == CredentialingStatus::Approved,
        r1 is Ok ==> r2 == Err::<(), Error>(Error::InvalidStatusTransition),
{
}

} // verus!
