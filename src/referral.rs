//! Referrals between providers and the status machine they follow.
use vstd::prelude::*;
use crate::text::same_text;
use crate::identity::{Address, AuthContext};

verus! {

#[derive(Clone, Copy, Debug, PartialEq, Eq, Structural)]
pub enum Error {
    NotAuthorized,
    ReferralNotFound,
    InvalidStatusTransition,
}

#[derive(Clone, Copy, Debug, PartialEq, Eq, Structural)]
pub enum ReferralStatus {
    Pending,
    Accepted,
    Declined,
    Scheduled,
    InProgress,
    Completed,
    Cancelled,
}

impl ReferralStatus {
    /// The status that `name` spells, if any.
    pub open spec fn named(name: Seq<char>) -> Option<ReferralStatus> {
        if name == "Pending"@ {
            Some(ReferralStatus::Pending)
        } else if name == "Accepted"@ {
            Some(ReferralStatus::Accepted)
        } else if name == "Declined"@ {
            Some(ReferralStatus::Declined)
        } else if name == "Scheduled"@ {
            Some(ReferralStatus::Scheduled)
        } else if name == "InProgress"@ {
            Some(ReferralStatus::InProgress)
        } else if name == "Completed"@ {
            Some(ReferralStatus::Completed)
        } else if name == "Cancelled"@ {
            Some(ReferralStatus::Cancelled)
        } else {
            None
        }
    }

    /// Reads a status from its name, as the variant is written.
    pub fn from_name(name: &str) -> (r: Option<ReferralStatus>)
        ensures
            r == Self::named(name@),
    {
        if same_text(name, "Pending") {
            Some(ReferralStatus::Pending)
        } else if same_text(name, "Accepted") {
            Some(ReferralStatus::Accepted)
        } else if same_text(name, "Declined") {
            Some(ReferralStatus::Declined)
        } else if same_text(name, "Scheduled") {
            Some(ReferralStatus::Scheduled)
        } else if same_text(name, "InProgress") {
            Some(ReferralStatus::InProgress)
        } else if same_text(name, "Completed") {
            Some(ReferralStatus::Completed)
        } else if same_text(name, "Cancelled") {
            Some(ReferralStatus::Cancelled)
        } else {
            None
        }
    }

    /// Whether a referral in this status may be completed: it must have been accepted, and
    /// not declined or cancelled since.
    pub open spec fn completable(self) -> bool {
        !(self == ReferralStatus::Pending || self == ReferralStatus::Declined || self
            == ReferralStatus::Cancelled)
    }
}

#[derive(Clone, Debug)]
pub struct Referral {
    pub referral_id: u64,
    pub referring_provider: Address,
    pub receiving_provider: Address,
    pub patient_id: Address,
    pub specialty: String,
    pub reason: String,
    pub priority: String,
    pub status: ReferralStatus,
    pub created_at: u64,
    pub accepted_at: Option<u64>,
    pub completed_at: Option<u64>,
}

impl Referral {
    /// Whether `who` is one of the two providers of the referral.
    pub open spec fn involves(self, who: Address) -> bool {
        self.receiving_provider == who || self.referring_provider == who
    }
}

/// The referrals, the one numbered `i + 1` at index `i`.
pub struct ReferralContract {
    referrals: Vec<Referral>,
}

impl ReferralContract {
    pub closed spec fn referrals(&self) -> Seq<Referral> {
        self.referrals@
    }

    pub open spec fn has_referral(&self, id: u64) -> bool {
        1 <= id <= self.referrals().len()
    }

    pub open spec fn referral(&self, id: u64) -> Referral {
        self.referrals()[id - 1]
    }

    /// `after` is `self` with the referral numbered `id` replaced by `r`.
    pub open spec fn with_referral(&self, after: Self, id: u64, r: Referral) -> bool {
        after.referrals() == self.referrals().update(id - 1, r)
    }

    pub fn new() -> (r: ReferralContract)
        ensures
            r.referrals().len() == 0,
    {
        ReferralContract { referrals: Vec::new() }
    }

    fn index_of(&self, id: u64) -> (r: Option<usize>)
        ensures
            r is Some <==> self.has_referral(id),
            r matches Some(i) ==> i == id - 1,
    {
        let n = self.referrals.len();
        if id >= 1 && id <= n as u64 {
            Some((id - 1) as usize)
        } else {
            None
        }
    }

    /// Opens a pending referral at time `now` and returns its id. The referring provider
    /// must sign.
    pub fn create_referral(
        &mut self,
        auth: &AuthContext,
        now: u64,
        referring_provider: Address,
        patient_id: Address,
        referred_to: Address,
        specialty: String,
        reason: String,
        priority: String,
    ) -> (r: Result<u64, Error>)
        requires
            old(self).referrals().len() < u64::MAX,
        ensures
            !auth.authorizes(referring_provider) ==> r == Err::<u64, Error>(Error::NotAuthorized)
                && *final(self) == *old(self),
            auth.authorizes(referring_provider) ==> r == Ok::<u64, Error>(
                (old(self).referrals().len() + 1) as u64,
            ) && final(self).referrals() == old(self).referrals().push(
                Referral {
                    referral_id: r->Ok_0,
                    referring_provider,
                    receiving_provider: referred_to,
                    patient_id,
                    specialty,
                    reason,
                    priority,
                    status: ReferralStatus::Pending,
                    created_at: now,
                    accepted_at: None,
                    completed_at: None,
                },
            ),
    {
        if !auth.authenticate(referring_provider) {
            return Err(Error::NotAuthorized);
        }
        let referral_id = self.referrals.len() as u64 + 1;
        self.referrals.push(
            Referral {
                referral_id,
                referring_provider,
                receiving_provider: referred_to,
                patient_id,
                specialty,
                reason,
                priority,
                status: ReferralStatus::Pending,
                created_at: now,
                accepted_at: None,
                completed_at: None,
            },
        );
        Ok(referral_id)
    }

    /// The checks shared by the receiving provider's answers: the provider signs, the
    /// referral exists, is addressed to them, and is pending.
    pub open spec fn answer_error(&self, auth: AuthContext, id: u64, provider: Address) -> Option<
        Error,
    > {
        if !auth.authorizes(provider) {
            Some(Error::NotAuthorized)
        } else if !self.has_referral(id) {
            Some(Error::ReferralNotFound)
        } else if self.referral(id).receiving_provider != provider {
            Some(Error::NotAuthorized)
        } else if self.referral(id).status != ReferralStatus::Pending {
            Some(Error::InvalidStatusTransition)
        } else {
            None
        }
    }

    /// The receiving provider accepts a pending referral at time `now`.
    pub fn accept_referral(
        &mut self,
        auth: &AuthContext,
        now: u64,
        referral_id: u64,
        receiving_provider: Address,
    ) -> (r: Result<(), Error>)
        ensures
            old(self).answer_error(*auth, referral_id, receiving_provider) matches Some(e) ==> r
                == Err::<(), Error>(e) && *final(self) == *old(self),
            old(self).answer_error(*auth, referral_id, receiving_provider) is None ==> r is Ok
                && old(self).with_referral(
                *final(self),
                referral_id,
                Referral {
                    status: ReferralStatus::Accepted,
                    accepted_at: Some(now),
                    ..old(self).referral(referral_id)
                },
            ),
    {
        if !auth.authenticate(receiving_provider) {
            return Err(Error::NotAuthorized);
        }
        let i = match self.index_of(referral_id) {
            Some(i) => i,
            None => {
                return Err(Error::ReferralNotFound);
            },
        };
        if self.referrals[i].receiving_provider != receiving_provider {
            return Err(Error::NotAuthorized);
        }
        if self.referrals[i].status != ReferralStatus::Pending {
            return Err(Error::InvalidStatusTransition);
        }
        self.referrals[i].status = ReferralStatus::Accepted;
        self.referrals[i].accepted_at = Some(now);
        proof {
            assert(self.referrals@ =~= old(self).referrals@.update(
                i as int,
                Referral {
                    status: ReferralStatus::Accepted,
                    accepted_at: Some(now),
                    ..old(self).referrals@[i as int]
                },
            ));
        }
        Ok(())
    }

    /// The receiving provider declines a pending referral.
    pub fn decline_referral(
        &mut self,
        auth: &AuthContext,
        referral_id: u64,
        receiving_provider: Address,
    ) -> (r: Result<(), Error>)
        ensures
            old(self).answer_error(*auth, referral_id, receiving_provider) matches Some(e) ==> r
                == Err::<(), Error>(e) && *final(self) == *old(self),
            old(self).answer_error(*auth, referral_id, receiving_provider) is None ==> r is Ok
                && old(self).with_referral(
                *final(self),
                referral_id,
                Referral { status: ReferralStatus::Declined, ..old(self).referral(referral_id) },
            ),
    {
        if !auth.authenticate(receiving_provider) {
            return Err(Error::NotAuthorized);
        }
        let i = match self.index_of(referral_id) {
            Some(i) => i,
            None => {
                return Err(Error::ReferralNotFound);
            },
        };
        if self.referrals[i].receiving_provider != receiving_provider {
            return Err(Error::NotAuthorized);
        }
        if self.referrals[i].status != ReferralStatus::Pending {
            return Err(Error::InvalidStatusTransition);
        }
        self.referrals[i].status = ReferralStatus::Declined;
        proof {
            assert(self.referrals@ =~= old(self).referrals@.update(
                i as int,
                Referral { status: ReferralStatus::Declined, ..old(self).referrals@[i as int] },
            ));
        }
        Ok(())
    }

    /// Either provider of a referral sets its status by name.
    pub fn update_referral_status(
        &mut self,
        auth: &AuthContext,
        referral_id: u64,
        provider_id: Address,
        status: &str,
    ) -> (r: Result<(), Error>)
        ensures
            r is Err ==> *final(self) == *old(self),
            !auth.authorizes(provider_id) ==> r == Err::<(), Error>(Error::NotAuthorized),
            auth.authorizes(provider_id) && !old(self).has_referral(referral_id) ==> r == Err::<
                (),
                Error,
            >(Error::ReferralNotFound),
            auth.authorizes(provider_id) && old(self).has_referral(referral_id) && !old(self).referral(referral_id).involves(provider_id) ==> r == Err::<(), Error>(
                Error::NotAuthorized,
            ),
            auth.authorizes(provider_id) && old(self).has_referral(referral_id) && old(self).referral(referral_id).involves(provider_id) && ReferralStatus::named(status@) is None
                ==> r == Err::<(), Error>(Error::InvalidStatusTransition),
            auth.authorizes(provider_id) && old(self).has_referral(referral_id) && old(self).referral(referral_id).involves(provider_id) && ReferralStatus::named(status@) is Some
                ==> r is Ok && old(self).with_referral(
                *final(self),
                referral_id,
                Referral {
                    status: ReferralStatus::named(status@)->Some_0,
                    ..old(self).referral(referral_id)
                },
            ),
    {
        if !auth.authenticate(provider_id) {
            return Err(Error::NotAuthorized);
        }
        let i = match self.index_of(referral_id) {
            Some(i) => i,
            None => {
                return Err(Error::ReferralNotFound);
            },
        };
        if self.referrals[i].receiving_provider != provider_id
            && self.referrals[i].referring_provider != provider_id {
            return Err(Error::NotAuthorized);
        }
        let new_status = match ReferralStatus::from_name(status) {
            Some(s) => s,
            None => {
                return Err(Error::InvalidStatusTransition);
            },
        };
        self.referrals[i].status = new_status;
        proof {
            assert(self.referrals@ =~= old(self).referrals@.update(
                i as int,
                Referral { status: new_status, ..old(self).referrals@[i as int] },
            ));
        }
        Ok(())
    }

    /// The receiving provider completes, at time `now`, a referral that was accepted and
    /// neither declined nor cancelled.
    pub fn complete_referral(
        &mut self,
        auth: &AuthContext,
        now: u64,
        referral_id: u64,
        receiving_provider: Address,
    ) -> (r: Result<(), Error>)
        ensures
            r is Err ==> *final(self) == *old(self),
            !auth.authorizes(receiving_provider) ==> r == Err::<(), Error>(Error::NotAuthorized),
            auth.authorizes(receiving_provider) && !old(self).has_referral(referral_id) ==> r
                == Err::<(), Error>(Error::ReferralNotFound),
            auth.authorizes(receiving_provider) && old(self).has_referral(referral_id) && old(self).referral(referral_id).receiving_provider != receiving_provider ==> r == Err::<
                (),
                Error,
            >(Error::NotAuthorized),
            auth.authorizes(receiving_provider) && old(self).has_referral(referral_id) && old(self).referral(referral_id).receiving_provider == receiving_provider && !old(self).referral(referral_id).status.completable() ==> r == Err::<(), Error>(
                Error::InvalidStatusTransition,
            ),
            auth.authorizes(receiving_provider) && old(self).has_referral(referral_id) && old(self).referral(referral_id).receiving_provider == receiving_provider && old(self).referral(referral_id).status.completable() ==> r is Ok && old(self).with_referral(
                *final(self),
                referral_id,
                Referral {
                    status: ReferralStatus::Completed,
                    completed_at: Some(now),
                    ..old(self).referral(referral_id)
                },
            ),
    {
        if !auth.authenticate(receiving_provider) {
            return Err(Error::NotAuthorized);
        }
        let i = match self.index_of(referral_id) {
            Some(i) => i,
            None => {
                return Err(Error::ReferralNotFound);
            },
        };
        if self.referrals[i].receiving_provider != receiving_provider {
            return Err(Error::NotAuthorized);
        }
        match self.referrals[i].status {
            ReferralStatus::Pending | ReferralStatus::Declined | ReferralStatus::Cancelled => {
                return Err(Error::InvalidStatusTransition);
            },
            _ => {},
        }
        self.referrals[i].status = ReferralStatus::Completed;
        self.referrals[i].completed_at = Some(now);
        proof {
            assert(self.referrals@ =~= old(self).referrals@.update(
                i as int,
                Referral {
                    status: ReferralStatus::Completed,
                    completed_at: Some(now),
                    ..old(self).referrals@[i as int]
                },
            ));
        }
        Ok(())
    }

    /// Checks that a provider may exchange care summaries on a referral: they sign, and
    /// are one of its two providers.
    fn check_participant(
        &self,
        auth: &AuthContext,
        referral_id: u64,
        provider: Address,
    ) -> (r: Result<(), Error>)
        ensures
            r == if !auth.authorizes(provider) {
                Err::<(), Error>(Error::NotAuthorized)
            } else if !self.has_referral(referral_id) {
                Err(Error::ReferralNotFound)
            } else if !self.referral(referral_id).involves(provider) {
                Err(Error::NotAuthorized)
            } else {
                Ok(())
            },
    {
        if !auth.authenticate(provider) {
            return Err(Error::NotAuthorized);
        }
        let i = match self.index_of(referral_id) {
            Some(i) => i,
            None => {
                return Err(Error::ReferralNotFound);
            },
        };
        if self.referrals[i].receiving_provider != provider
            && self.referrals[i].referring_provider != provider {
            return Err(Error::NotAuthorized);
        }
        Ok(())
    }

    /// Admits a provider of the referral to share a care summary on it.
    pub fn share_care_summary(
        &self,
        auth: &AuthContext,
        referral_id: u64,
        from_provider: Address,
    ) -> (r: Result<(), Error>)
        ensures
            r == if !auth.authorizes(from_provider) {
                Err::<(), Error>(Error::NotAuthorized)
            } else if !self.has_referral(referral_id) {
                Err(Error::ReferralNotFound)
            } else if !self.referral(referral_id).involves(from_provider) {
                Err(Error::NotAuthorized)
            } else {
                Ok(())
            },
    {
        self.check_participant(auth, referral_id, from_provider)
    }

    /// Admits a provider of the referral to ask for a care summary on it.
    pub fn request_care_summary(
        &self,
        auth: &AuthContext,
        referral_id: u64,
        requesting_provider: Address,
    ) -> (r: Result<(), Error>)
        ensures
            r == if !auth.authorizes(requesting_provider) {
                Err::<(), Error>(Error::NotAuthorized)
            } else if !self.has_referral(referral_id) {
                Err(Error::ReferralNotFound)
            } else if !self.referral(referral_id).involves(requesting_provider) {
                Err(Error::NotAuthorized)
            } else {
                Ok(())
            },
    {
        self.check_participant(auth, referral_id, requesting_provider)
    }

    /// The status of a referral.
    pub fn referral_status(&self, referral_id: u64) -> (r: Result<ReferralStatus, Error>)
        ensures
            r == if self.has_referral(referral_id) {
                Ok::<ReferralStatus, Error>(self.referral(referral_id).status)
            } else {
                Err(Error::ReferralNotFound)
            },
    {
        match self.index_of(referral_id) {
            Some(i) => Ok(self.referrals[i].status),
            None => Err(Error::ReferralNotFound),
        }
    }
}

} // verus!
