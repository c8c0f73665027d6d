use healthcare_credentialing::privilege::marker_exists;
use healthcare_credentialing::{
    Address, AuthContext, CompetencyRating, CredentialingStatus, Error,
    HealthcareCredentialingSystem, Marker,
};

const PROVIDER: u64 = 1;
const FACILITY: u64 = 2;
const VERIFIER: u64 = 3;
const CHECKER: u64 = 4;
const REFERENCE: u64 = 5;
const COMMITTEE: u64 = 6;
const AUTHORITY: u64 = 7;
const SUPERVISOR: u64 = 8;
const REVIEWER: u64 = 9;

const TYPES: [&str; 5] = ["medical_license", "dea", "board_cert", "cv", "references"];

fn addr(id: u64) -> Address {
    Address::new(id)
}

fn everyone() -> AuthContext {
    AuthContext::new((1..=9).map(Address::new).collect())
}

fn create_case(sys: &mut HealthcareCredentialingSystem) -> u64 {
    let requested = vec!["surgery".to_string()];
    sys.initiate_credentialing(&everyone(), addr(PROVIDER), addr(FACILITY), 1_700_000_000, &requested)
        .unwrap()
}

fn submit_required_docs(sys: &mut HealthcareCredentialingSystem, case_id: u64) {
    for (idx, t) in TYPES.iter().enumerate() {
        sys.submit_credential_document(
            case_id,
            t,
            [idx as u8; 32],
            "Issuer".to_string(),
            1_700_000_000,
            Some(1_900_000_000),
        )
        .unwrap();
    }
}

fn verify(sys: &mut HealthcareCredentialingSystem, case_id: u64, t: &str, result: bool) -> Result<(), Error> {
    sys.verify_credential(
        &everyone(),
        case_id,
        t,
        addr(VERIFIER),
        "primary_source".to_string(),
        result,
        1_700_010_000,
        "Verified".to_string(),
    )
}

fn rating(value: u32) -> CompetencyRating {
    CompetencyRating {
        competency_area: "clinical_judgment".to_string(),
        rating: value,
        clinical_examples: true,
    }
}

fn approved_case(sys: &mut HealthcareCredentialingSystem, categories: &[&str], conditions: Option<Vec<String>>) -> u64 {
    let case_id = create_case(sys);
    submit_required_docs(sys, case_id);
    for t in TYPES.iter() {
        verify(sys, case_id, t, true).unwrap();
    }
    sys.check_sanctions(&everyone(), case_id, addr(CHECKER), vec!["NPDB".to_string()], false, 1_700_020_000)
        .unwrap();
    sys.conduct_peer_reference(&everyone(), case_id, addr(REFERENCE), vec![rating(4)], [7; 32], true)
        .unwrap();
    let approved: Vec<String> = categories.iter().map(|c| c.to_string()).collect();
    sys.grant_privileges(&everyone(), case_id, addr(COMMITTEE), &approved, conditions, 1_700_030_000, 1_900_000_000)
        .unwrap();
    case_id
}

fn suspend(sys: &mut HealthcareCredentialingSystem, immediate: bool, peer: bool) -> Result<(), Error> {
    sys.suspend_privileges(
        &everyone(),
        addr(PROVIDER),
        addr(FACILITY),
        addr(AUTHORITY),
        "Quality concern".to_string(),
        1_700_040_000,
        immediate,
        peer,
    )
}

fn reinstate(sys: &mut HealthcareCredentialingSystem) -> Result<(), Error> {
    sys.reinstate_privileges(
        &everyone(),
        addr(PROVIDER),
        addr(FACILITY),
        addr(AUTHORITY),
        vec!["proctoring complete".to_string()],
        vec!["90-day review".to_string()],
    )
}

#[test]
fn full_credentialing_lifecycle() {
    let mut sys = HealthcareCredentialingSystem::new();
    let case_id = create_case(&mut sys);
    submit_required_docs(&mut sys, case_id);
    for t in TYPES.iter() {
        verify(&mut sys, case_id, t, true).unwrap();
    }
    let dbs = vec!["NPDB".to_string(), "OIG".to_string(), "SAM".to_string()];
    sys.check_sanctions(&everyone(), case_id, addr(CHECKER), dbs, false, 1_700_020_000).unwrap();
    sys.conduct_peer_reference(&everyone(), case_id, addr(REFERENCE), vec![rating(5)], [9; 32], true)
        .unwrap();
    let approved = vec!["surgery".to_string(), "icu".to_string()];
    let conditions = vec!["proctoring_required".to_string()];
    sys.grant_privileges(
        &everyone(),
        case_id,
        addr(COMMITTEE),
        &approved,
        Some(conditions),
        1_700_030_000,
        1_900_000_000,
    )
    .unwrap();
    let case = sys.get_credentialing_case(case_id).unwrap();
    assert_eq!(case.status, CredentialingStatus::Approved);
    let privileges = sys.get_provider_privileges(addr(PROVIDER), addr(FACILITY));
    assert_eq!(privileges.len(), 2);
}

#[test]
fn verification_requires_submitted_document() {
    let mut sys = HealthcareCredentialingSystem::new();
    let case_id = create_case(&mut sys);
    let res = verify(&mut sys, case_id, "medical_license", true);
    assert_eq!(res, Err(Error::DocumentNotFound));
}

#[test]
fn invalid_peer_rating_fails() {
    let mut sys = HealthcareCredentialingSystem::new();
    let case_id = create_case(&mut sys);
    let ratings = vec![CompetencyRating {
        competency_area: "communication".to_string(),
        rating: 6,
        clinical_examples: false,
    }];
    let res = sys.conduct_peer_reference(&everyone(), case_id, addr(REFERENCE), ratings, [0; 32], true);
    assert_eq!(res, Err(Error::InvalidRating));
}

#[test]
fn sanctions_can_deny_case() {
    let mut sys = HealthcareCredentialingSystem::new();
    let case_id = create_case(&mut sys);
    sys.check_sanctions(&everyone(), case_id, addr(CHECKER), vec!["NPDB".to_string()], true, 1_700_020_000)
        .unwrap();
    let case = sys.get_credentialing_case(case_id).unwrap();
    assert_eq!(case.status, CredentialingStatus::Denied);
}

#[test]
fn provisional_review_schedule_and_activity_flow() {
    let mut sys = HealthcareCredentialingSystem::new();
    let req_id = sys
        .request_provisional_privileges(
            &everyone(),
            addr(PROVIDER),
            addr(FACILITY),
            "icu".to_string(),
            addr(SUPERVISOR),
            "new hire pending references".to_string(),
        )
        .unwrap();
    assert_eq!(req_id, 1);
    sys.track_clinical_activity(
        &everyone(),
        addr(PROVIDER),
        addr(FACILITY),
        "99291".to_string(),
        "successful".to_string(),
        false,
        1_700_050_000,
    )
    .unwrap();
    let review_id = sys
        .trigger_focused_review(
            &everyone(),
            addr(PROVIDER),
            addr(FACILITY),
            "complication_rate".to_string(),
            "fppe".to_string(),
            addr(REVIEWER),
        )
        .unwrap();
    assert_eq!(review_id, 1);
    let schedule_id = sys
        .schedule_recredentialing(&everyone(), addr(PROVIDER), addr(FACILITY), 1_800_000_000, true)
        .unwrap();
    assert_eq!(schedule_id, 1);
    let activities = sys.get_clinical_activities(addr(PROVIDER), addr(FACILITY));
    assert_eq!(activities.len(), 1);
}

#[test]
fn suspend_and_reinstate_privileges() {
    let mut sys = HealthcareCredentialingSystem::new();
    approved_case(&mut sys, &["icu"], None);
    suspend(&mut sys, true, true).unwrap();
    let after_suspend = sys.get_provider_privileges(addr(PROVIDER), addr(FACILITY));
    assert!(marker_exists(&after_suspend[0].restrictions, Marker::Suspended));
    reinstate(&mut sys).unwrap();
    let after_reinstate = sys.get_provider_privileges(addr(PROVIDER), addr(FACILITY));
    assert!(!marker_exists(&after_reinstate[0].restrictions, Marker::Suspended));
}
