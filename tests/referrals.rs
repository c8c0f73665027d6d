use healthcare_credentialing::referral::{Error, ReferralContract, ReferralStatus};
use healthcare_credentialing::{Address, AuthContext};

fn everyone() -> AuthContext {
    AuthContext::new((1..=4).map(Address::new).collect())
}

fn create(contract: &mut ReferralContract, referring: Address, patient: Address, referred_to: Address) -> u64 {
    contract
        .create_referral(
            &everyone(),
            100,
            referring,
            patient,
            referred_to,
            "Ortho".to_string(),
            "Knee pain".to_string(),
            "Routine".to_string(),
        )
        .unwrap()
}

#[test]
fn test_referral_lifecycle() {
    let mut contract = ReferralContract::new();
    let referring_provider = Address::new(1);
    let patient_id = Address::new(2);
    let referred_to = Address::new(3);
    let referral_id = contract
        .create_referral(
            &everyone(),
            100,
            referring_provider,
            patient_id,
            referred_to,
            "Cardio".to_string(),
            "Heart palpitations".to_string(),
            "Urgent".to_string(),
        )
        .unwrap();
    assert_eq!(referral_id, 1);
    contract.accept_referral(&everyone(), 200, referral_id, referred_to).unwrap();
    contract.share_care_summary(&everyone(), referral_id, referred_to).unwrap();
    contract.request_care_summary(&everyone(), referral_id, referring_provider).unwrap();
    contract.complete_referral(&everyone(), 300, referral_id, referred_to).unwrap();
    let res = contract.accept_referral(&everyone(), 400, referral_id, referred_to);
    assert!(res.is_err());
}

#[test]
fn test_decline_and_update_status() {
    let mut contract = ReferralContract::new();
    let referring_provider = Address::new(1);
    let patient_id = Address::new(2);
    let referred_to = Address::new(3);
    let referral_id = create(&mut contract, referring_provider, patient_id, referred_to);
    contract.decline_referral(&everyone(), referral_id, referred_to).unwrap();
    let referral_id2 = create(&mut contract, referring_provider, patient_id, referred_to);
    contract
        .update_referral_status(&everyone(), referral_id2, referred_to, "Scheduled")
        .unwrap();
}

#[test]
fn test_auth_failures() {
    let mut contract = ReferralContract::new();
    let referring_provider = Address::new(1);
    let patient_id = Address::new(2);
    let referred_to = Address::new(3);
    let referral_id = create(&mut contract, referring_provider, patient_id, referred_to);
    let wrong_provider = Address::new(4);
    let res = contract.accept_referral(&everyone(), 200, referral_id, wrong_provider);
    assert!(res.is_err());
}

#[test]
fn referral_statuses_follow_the_answers() {
    let mut contract = ReferralContract::new();
    let (a, p, b) = (Address::new(1), Address::new(2), Address::new(3));
    let first = create(&mut contract, a, p, b);
    let second = create(&mut contract, a, p, b);
    assert_eq!((first, second), (1, 2));
    assert_eq!(contract.referral_status(first), Ok(ReferralStatus::Pending));
    assert_eq!(contract.complete_referral(&everyone(), 5, first, b), Err(Error::InvalidStatusTransition));
    contract.decline_referral(&everyone(), first, b).unwrap();
    assert_eq!(contract.referral_status(first), Ok(ReferralStatus::Declined));
    assert_eq!(contract.accept_referral(&everyone(), 5, first, b), Err(Error::InvalidStatusTransition));
    contract.update_referral_status(&everyone(), second, a, "InProgress").unwrap();
    assert_eq!(contract.referral_status(second), Ok(ReferralStatus::InProgress));
    contract.complete_referral(&everyone(), 9, second, b).unwrap();
    assert_eq!(contract.referral_status(second), Ok(ReferralStatus::Completed));
}

#[test]
fn referral_errors() {
    let mut contract = ReferralContract::new();
    let (a, p, b, c) = (Address::new(1), Address::new(2), Address::new(3), Address::new(4));
    let id = create(&mut contract, a, p, b);
    assert_eq!(contract.referral_status(7), Err(Error::ReferralNotFound));
    assert_eq!(contract.accept_referral(&everyone(), 5, 7, b), Err(Error::ReferralNotFound));
    assert_eq!(
        contract.accept_referral(&AuthContext::signed_by(c), 5, id, b),
        Err(Error::NotAuthorized)
    );
    assert_eq!(
        contract.update_referral_status(&everyone(), id, b, "Lost"),
        Err(Error::InvalidStatusTransition)
    );
    assert_eq!(contract.update_referral_status(&everyone(), id, c, "Scheduled"), Err(Error::NotAuthorized));
    assert_eq!(contract.share_care_summary(&everyone(), id, c), Err(Error::NotAuthorized));
    assert_eq!(contract.request_care_summary(&everyone(), id, a), Ok(()));
    assert_eq!(contract.referral_status(id), Ok(ReferralStatus::Pending));
    let unsigned = contract.create_referral(
        &AuthContext::signed_by(b),
        1,
        a,
        p,
        b,
        String::new(),
        String::new(),
        String::new(),
    );
    assert_eq!(unsigned, Err(Error::NotAuthorized));
    assert_eq!(ReferralStatus::from_name("Cancelled"), Some(ReferralStatus::Cancelled));
}
