use healthcare_credentialing::case::{REQUIRED_CREDENTIALS, TARGET_COMPLETION_SECONDS};
use healthcare_credentialing::casefile::CaseFile;
use healthcare_credentialing::ledger::{grant_into, reinstate_list, suspend_list};
use healthcare_credentialing::privilege::marker_exists;
use healthcare_credentialing::{
    Address, AuthContext, CaseType, CompetencyRating, CredentialType, CredentialingStatus, Error,
    HealthcareCredentialingSystem, Marker, Restriction,
};

const PROVIDER: u64 = 1;
const FACILITY: u64 = 2;
const VERIFIER: u64 = 3;
const CHECKER: u64 = 4;
const REFERENCE: u64 = 5;
const COMMITTEE: u64 = 6;
const AUTHORITY: u64 = 7;
const STRANGER: u64 = 99;

const TYPES: [&str; 5] = ["medical_license", "dea", "board_cert", "cv", "references"];

fn addr(id: u64) -> Address {
    Address::new(id)
}

fn everyone() -> AuthContext {
    AuthContext::new((1..=9).map(Address::new).collect())
}

fn new_case(sys: &mut HealthcareCredentialingSystem) -> u64 {
    sys.initiate_credentialing(&everyone(), addr(PROVIDER), addr(FACILITY), 1_000, &vec!["surgery".to_string()])
        .unwrap()
}

fn submit(sys: &mut HealthcareCredentialingSystem, case_id: u64, t: &str) -> Result<(), Error> {
    sys.submit_credential_document(case_id, t, [1; 32], "Board".to_string(), 1_000, None)
}

fn verify(sys: &mut HealthcareCredentialingSystem, case_id: u64, t: &str, result: bool) -> Result<(), Error> {
    sys.verify_credential(
        &everyone(),
        case_id,
        t,
        addr(VERIFIER),
        "primary_source".to_string(),
        result,
        2_000,
        String::new(),
    )
}

fn reviewed_case(sys: &mut HealthcareCredentialingSystem) -> u64 {
    let case_id = new_case(sys);
    for t in TYPES.iter() {
        submit(sys, case_id, t).unwrap();
    }
    for t in TYPES.iter() {
        verify(sys, case_id, t, true).unwrap();
    }
    case_id
}

fn grant(sys: &mut HealthcareCredentialingSystem, case_id: u64, categories: &[&str]) -> Result<(), Error> {
    let approved: Vec<String> = categories.iter().map(|c| c.to_string()).collect();
    sys.grant_privileges(&everyone(), case_id, addr(COMMITTEE), &approved, None, 10, 20)
}

fn suspend(sys: &mut HealthcareCredentialingSystem, immediate: bool, peer: bool) -> Result<(), Error> {
    sys.suspend_privileges(
        &everyone(),
        addr(PROVIDER),
        addr(FACILITY),
        addr(AUTHORITY),
        "Quality concern".to_string(),
        3_000,
        immediate,
        peer,
    )
}

fn reinstate(sys: &mut HealthcareCredentialingSystem) -> Result<(), Error> {
    sys.reinstate_privileges(&everyone(), addr(PROVIDER), addr(FACILITY), addr(AUTHORITY), vec![], vec![])
}

#[test]
fn initiate_sets_up_a_fresh_case() {
    let mut sys = HealthcareCredentialingSystem::new();
    let first = new_case(&mut sys);
    let second = new_case(&mut sys);
    assert_eq!((first, second), (1, 2));
    let case = sys.get_credentialing_case(first).unwrap();
    assert_eq!(case.status, CredentialingStatus::Incomplete);
    assert_eq!(case.case_type, CaseType::Initial);
    assert_eq!(case.target_completion_date, 1_000 + 7_776_000);
    assert_eq!(TARGET_COMPLETION_SECONDS, 7_776_000);
    assert_eq!(case.verifications_required, 5);
    assert_eq!(REQUIRED_CREDENTIALS, 5);
    assert_eq!(case.verifications_complete, 0);
    assert_eq!(case.provider_id, addr(PROVIDER));
}

#[test]
fn initiate_needs_requested_privileges_and_the_provider() {
    let mut sys = HealthcareCredentialingSystem::new();
    let none: Vec<String> = vec![];
    assert_eq!(
        sys.initiate_credentialing(&everyone(), addr(PROVIDER), addr(FACILITY), 1, &none),
        Err(Error::InvalidInput)
    );
    let only_stranger = AuthContext::signed_by(addr(STRANGER));
    assert_eq!(
        sys.initiate_credentialing(&only_stranger, addr(PROVIDER), addr(FACILITY), 1, &vec!["icu".to_string()]),
        Err(Error::NotAuthorized)
    );
    assert_eq!(sys.case_count(), 0);
}

#[test]
fn unknown_case_is_reported() {
    let mut sys = HealthcareCredentialingSystem::new();
    assert_eq!(sys.get_credentialing_case(1).err(), Some(Error::CaseNotFound));
    assert_eq!(submit(&mut sys, 3, "cv"), Err(Error::CaseNotFound));
    assert_eq!(verify(&mut sys, 0, "cv", true), Err(Error::CaseNotFound));
}

#[test]
fn unsupported_document_type_is_rejected() {
    let mut sys = HealthcareCredentialingSystem::new();
    let case_id = new_case(&mut sys);
    assert_eq!(submit(&mut sys, case_id, "passport"), Err(Error::InvalidCredentialType));
    assert_eq!(CredentialType::from_name("dea"), Some(CredentialType::Dea));
    assert_eq!(CredentialType::from_name("Dea"), None);
    let case = sys.get_credentialing_case(case_id).unwrap();
    assert_eq!(case.status, CredentialingStatus::Incomplete);
}

#[test]
fn verification_counter_stays_within_requirement() {
    let mut sys = HealthcareCredentialingSystem::new();
    let case_id = new_case(&mut sys);
    submit(&mut sys, case_id, "cv").unwrap();
    for _ in 0..8 {
        verify(&mut sys, case_id, "cv", true).unwrap();
    }
    let case = sys.get_credentialing_case(case_id).unwrap();
    assert_eq!(case.verifications_complete, 5);
    assert!(case.verifications_complete <= case.verifications_required);
}

#[test]
fn committee_review_comes_with_the_fifth_success() {
    let mut sys = HealthcareCredentialingSystem::new();
    let case_id = new_case(&mut sys);
    submit(&mut sys, case_id, "dea").unwrap();
    for _ in 0..4 {
        verify(&mut sys, case_id, "dea", true).unwrap();
        assert_eq!(sys.get_credentialing_case(case_id).unwrap().status, CredentialingStatus::InReview);
    }
    verify(&mut sys, case_id, "dea", false).unwrap();
    let deferred = sys.get_credentialing_case(case_id).unwrap();
    assert_eq!(deferred.status, CredentialingStatus::DeferredForMoreInfo);
    assert_eq!(deferred.verifications_complete, 4);
    verify(&mut sys, case_id, "dea", true).unwrap();
    let reviewed = sys.get_credentialing_case(case_id).unwrap();
    assert_eq!(reviewed.status, CredentialingStatus::CommitteeReview);
    assert_eq!(reviewed.verifications_complete, 5);
}

#[test]
fn resubmission_puts_the_case_back_in_review() {
    let mut sys = HealthcareCredentialingSystem::new();
    let case_id = reviewed_case(&mut sys);
    submit(&mut sys, case_id, "cv").unwrap();
    assert_eq!(sys.get_credentialing_case(case_id).unwrap().status, CredentialingStatus::InReview);
    assert_eq!(grant(&mut sys, case_id, &["icu"]), Err(Error::InvalidStatusTransition));
}

#[test]
fn verifier_must_sign() {
    let mut sys = HealthcareCredentialingSystem::new();
    let case_id = new_case(&mut sys);
    submit(&mut sys, case_id, "cv").unwrap();
    let res = sys.verify_credential(
        &AuthContext::signed_by(addr(STRANGER)),
        case_id,
        "cv",
        addr(VERIFIER),
        "primary_source".to_string(),
        true,
        2_000,
        String::new(),
    );
    assert_eq!(res, Err(Error::NotAuthorized));
    assert_eq!(sys.get_credentialing_case(case_id).unwrap().verifications_complete, 0);
}

#[test]
fn peer_reference_rules() {
    let mut sys = HealthcareCredentialingSystem::new();
    let case_id = new_case(&mut sys);
    assert_eq!(
        sys.conduct_peer_reference(&everyone(), case_id, addr(REFERENCE), vec![], [0; 32], true),
        Err(Error::InvalidRating)
    );
    let zero = CompetencyRating { competency_area: "skill".to_string(), rating: 0, clinical_examples: false };
    assert_eq!(
        sys.conduct_peer_reference(&everyone(), case_id, addr(REFERENCE), vec![zero], [0; 32], true),
        Err(Error::InvalidRating)
    );
    let one = CompetencyRating { competency_area: "skill".to_string(), rating: 1, clinical_examples: false };
    sys.conduct_peer_reference(&everyone(), case_id, addr(REFERENCE), vec![one], [0; 32], false).unwrap();
    assert_eq!(
        sys.get_credentialing_case(case_id).unwrap().status,
        CredentialingStatus::DeferredForMoreInfo
    );
}

#[test]
fn clean_sanction_check_leaves_status() {
    let mut sys = HealthcareCredentialingSystem::new();
    let case_id = reviewed_case(&mut sys);
    sys.check_sanctions(&everyone(), case_id, addr(CHECKER), vec![], false, 5).unwrap();
    assert_eq!(sys.get_credentialing_case(case_id).unwrap().status, CredentialingStatus::CommitteeReview);
}

#[test]
fn grant_succeeds_once() {
    let mut sys = HealthcareCredentialingSystem::new();
    let case_id = reviewed_case(&mut sys);
    grant(&mut sys, case_id, &["surgery"]).unwrap();
    assert_eq!(sys.get_credentialing_case(case_id).unwrap().status, CredentialingStatus::Approved);
    assert_eq!(grant(&mut sys, case_id, &["surgery"]), Err(Error::InvalidStatusTransition));
    assert_eq!(sys.get_provider_privileges(addr(PROVIDER), addr(FACILITY)).len(), 1);
}

#[test]
fn grant_needs_committee_review() {
    let mut sys = HealthcareCredentialingSystem::new();
    let case_id = new_case(&mut sys);
    assert_eq!(grant(&mut sys, case_id, &["surgery"]), Err(Error::InvalidStatusTransition));
}

#[test]
fn grant_validates_its_input() {
    let mut sys = HealthcareCredentialingSystem::new();
    let case_id = reviewed_case(&mut sys);
    assert_eq!(grant(&mut sys, case_id, &[]), Err(Error::InvalidInput));
    let approved = vec!["icu".to_string()];
    assert_eq!(
        sys.grant_privileges(&everyone(), case_id, addr(COMMITTEE), &approved, None, 20, 20),
        Err(Error::InvalidInput)
    );
    assert_eq!(sys.get_credentialing_case(case_id).unwrap().status, CredentialingStatus::CommitteeReview);
}

#[test]
fn granted_privileges_carry_ids_and_conditions() {
    let mut sys = HealthcareCredentialingSystem::new();
    let case_id = reviewed_case(&mut sys);
    let approved = vec!["surgery".to_string(), "icu".to_string()];
    let conditions = vec!["proctoring_required".to_string()];
    sys.grant_privileges(&everyone(), case_id, addr(COMMITTEE), &approved, Some(conditions), 10, 20)
        .unwrap();
    let ps = sys.get_provider_privileges(addr(PROVIDER), addr(FACILITY));
    assert_eq!(ps.len(), 2);
    assert_eq!(ps[0].privilege_id, 1);
    assert_eq!(ps[1].privilege_id, 2);
    assert_eq!(ps[1].privilege_category, "icu");
    assert_eq!(ps[0].privilege_name, "Approved Privilege");
    assert_eq!(ps[0].scope, "facility_scope");
    assert_eq!(ps[0].granted_date, 10);
    assert_eq!(ps[0].expiration_date, 20);
    assert!(!ps[0].supervision_required);
    assert_eq!(ps[0].volume_requirements, None);
    assert_eq!(ps[0].restrictions.len(), 1);
    assert!(matches!(&ps[0].restrictions[0], Restriction::Condition(c) if c == "proctoring_required"));
    assert_eq!(sys.privilege_counter(), 2);
    let second = reviewed_case(&mut sys);
    grant(&mut sys, second, &["er"]).unwrap();
    let ps = sys.get_provider_privileges(addr(PROVIDER), addr(FACILITY));
    assert_eq!(ps.len(), 3);
    assert_eq!(ps[2].privilege_id, 3);
    assert_eq!(ps[2].restrictions.len(), 0);
}

#[test]
fn suspension_needs_privileges() {
    let mut sys = HealthcareCredentialingSystem::new();
    assert_eq!(suspend(&mut sys, false, false), Err(Error::PrivilegeNotFound));
    assert_eq!(reinstate(&mut sys), Err(Error::PrivilegeNotFound));
}

#[test]
fn suspension_marks_every_privilege_once() {
    let mut sys = HealthcareCredentialingSystem::new();
    let case_id = reviewed_case(&mut sys);
    grant(&mut sys, case_id, &["surgery", "icu"]).unwrap();
    suspend(&mut sys, true, false).unwrap();
    for p in sys.get_provider_privileges(addr(PROVIDER), addr(FACILITY)) {
        assert!(marker_exists(&p.restrictions, Marker::Suspended));
        assert!(marker_exists(&p.restrictions, Marker::Immediate));
        assert!(!marker_exists(&p.restrictions, Marker::PeerReviewRequired));
        assert_eq!(p.restrictions.len(), 2);
    }
    assert_eq!(suspend(&mut sys, true, true), Err(Error::AlreadySuspended));
}

#[test]
fn reinstatement_needs_a_suspension() {
    let mut sys = HealthcareCredentialingSystem::new();
    let case_id = reviewed_case(&mut sys);
    grant(&mut sys, case_id, &["surgery"]).unwrap();
    assert_eq!(reinstate(&mut sys), Err(Error::NotSuspended));
}

#[test]
fn reinstatement_clears_every_marker() {
    let mut sys = HealthcareCredentialingSystem::new();
    let case_id = reviewed_case(&mut sys);
    let approved = vec!["surgery".to_string(), "icu".to_string()];
    sys.grant_privileges(&everyone(), case_id, addr(COMMITTEE), &approved, Some(vec!["night_cover".to_string()]), 10, 20)
        .unwrap();
    suspend(&mut sys, true, true).unwrap();
    reinstate(&mut sys).unwrap();
    for p in sys.get_provider_privileges(addr(PROVIDER), addr(FACILITY)) {
        assert!(!marker_exists(&p.restrictions, Marker::Suspended));
        assert!(!marker_exists(&p.restrictions, Marker::Immediate));
        assert!(!marker_exists(&p.restrictions, Marker::PeerReviewRequired));
        assert_eq!(p.restrictions.len(), 1);
    }
    assert_eq!(reinstate(&mut sys), Err(Error::NotSuspended));
    suspend(&mut sys, false, false).unwrap();
}

#[test]
fn privileges_are_kept_per_provider_and_facility() {
    let mut sys = HealthcareCredentialingSystem::new();
    let case_id = reviewed_case(&mut sys);
    grant(&mut sys, case_id, &["surgery"]).unwrap();
    assert_eq!(sys.get_provider_privileges(addr(PROVIDER), addr(FACILITY + 100)).len(), 0);
    let res = sys.suspend_privileges(
        &everyone(),
        addr(PROVIDER),
        addr(FACILITY + 100),
        addr(AUTHORITY),
        String::new(),
        0,
        false,
        false,
    );
    assert_eq!(res, Err(Error::PrivilegeNotFound));
}

#[test]
fn ancillary_records_need_the_acting_party() {
    let mut sys = HealthcareCredentialingSystem::new();
    let stranger = AuthContext::signed_by(addr(STRANGER));
    assert_eq!(
        sys.schedule_recredentialing(&stranger, addr(PROVIDER), addr(FACILITY), 5, false),
        Err(Error::NotAuthorized)
    );
    assert_eq!(
        sys.track_clinical_activity(&stranger, addr(PROVIDER), addr(FACILITY), String::new(), String::new(), false, 1),
        Err(Error::NotAuthorized)
    );
    assert_eq!(sys.get_clinical_activities(addr(PROVIDER), addr(FACILITY)).len(), 0);
    assert_eq!(sys.schedule_recredentialing(&everyone(), addr(PROVIDER), addr(FACILITY), 5, false), Ok(1));
    assert_eq!(sys.schedule_recredentialing(&everyone(), addr(PROVIDER), addr(FACILITY), 6, true), Ok(2));
}

#[test]
fn clinical_activities_come_back_in_order() {
    let mut sys = HealthcareCredentialingSystem::new();
    for (code, date) in [("99291", 1u64), ("33533", 2u64)] {
        sys.track_clinical_activity(&everyone(), addr(PROVIDER), addr(FACILITY), code.to_string(), "ok".to_string(), date == 2, date)
            .unwrap();
    }
    let log = sys.get_clinical_activities(addr(PROVIDER), addr(FACILITY));
    assert_eq!(log.len(), 2);
    assert_eq!(log[0].procedure_code, "99291");
    assert_eq!(log[1].procedure_code, "33533");
    assert!(log[1].complications);
    assert_eq!(sys.get_clinical_activities(addr(FACILITY), addr(PROVIDER)).len(), 0);
}

#[test]
fn case_file_moves_through_review_on_its_own() {
    let auth = everyone();
    let mut file = CaseFile::open(&auth, 7, addr(PROVIDER), addr(FACILITY), 50, &vec!["icu".to_string()]).unwrap();
    assert_eq!(file.case.case_id, 7);
    assert_eq!(file.case.target_completion_date, 50 + 7_776_000);
    assert_eq!(
        file.approve(&auth, addr(COMMITTEE), &vec!["icu".to_string()], 1, 2),
        Err(Error::InvalidStatusTransition)
    );
    for t in TYPES.iter() {
        file.submit_credential_document(t, [0; 32], String::new(), 1, None).unwrap();
        file.verify_credential(&auth, t, addr(VERIFIER), "primary_source".to_string(), true, 2, String::new())
            .unwrap();
    }
    assert_eq!(file.case.status, CredentialingStatus::CommitteeReview);
    assert_eq!(file.verifications.len(), 5);
    assert_eq!(
        file.check_sanctions(&AuthContext::signed_by(addr(STRANGER)), addr(CHECKER), vec![], true, 3),
        Err(Error::NotAuthorized)
    );
    file.approve(&auth, addr(COMMITTEE), &vec!["icu".to_string()], 1, 2).unwrap();
    assert_eq!(file.case.status, CredentialingStatus::Approved);
    assert!(CaseFile::open(&auth, 8, addr(PROVIDER), addr(FACILITY), 50, &vec![]).is_err());
}

#[test]
fn privilege_lists_on_their_own() {
    let mut list = Vec::new();
    let mut counter: u64 = 40;
    grant_into(&mut list, &mut counter, &vec!["a".to_string(), "b".to_string()], &vec![], 1, 2);
    assert_eq!(counter, 42);
    assert_eq!(list.len(), 2);
    assert_eq!(list[0].privilege_id, 41);
    assert_eq!(list[1].privilege_id, 42);
    assert_eq!(suspend_list(&vec![], true, true).err(), Some(Error::PrivilegeNotFound));
    assert_eq!(reinstate_list(&list).err(), Some(Error::NotSuspended));
    let suspended = suspend_list(&list, false, true).unwrap();
    assert!(suspended.iter().all(|p| marker_exists(&p.restrictions, Marker::PeerReviewRequired)));
    assert_eq!(suspend_list(&suspended, false, false).err(), Some(Error::AlreadySuspended));
    let reinstated = reinstate_list(&suspended).unwrap();
    assert!(reinstated.iter().all(|p| p.restrictions.is_empty()));
}
