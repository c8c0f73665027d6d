//! Provisional-privilege requests, clinical activity, focused reviews and recredentialing
//! schedules: records appended and looked up independently of any case.
use vstd::prelude::*;
use crate::identity::Address;
use crate::keyed::PartyLists;

verus! {

/// A request for temporary privileges under supervision.
#[derive(Clone, Debug)]
pub struct ProvisionalPrivilegeRequest {
    pub request_id: u64,
    pub provider_id: Address,
    pub facility_id: Address,
    pub privilege_category: String,
    pub supervising_provider: Address,
    pub justification: String,
}

/// One procedure a provider performed at a facility.
#[derive(Clone, Debug)]
pub struct ClinicalActivityRecord {
    pub procedure_code: String,
    pub outcome: String,
    pub complications: bool,
    pub activity_date: u64,
}

impl ClinicalActivityRecord {
    /// A copy of this record.
    pub fn duplicate(&self) -> (r: ClinicalActivityRecord)
        ensures
            r == *self,
    {
        ClinicalActivityRecord {
            procedure_code: self.procedure_code.clone(),
            outcome: self.outcome.clone(),
            complications: self.complications,
            activity_date: self.activity_date,
        }
    }
}

/// A focused professional practice evaluation opened for a provider.
#[derive(Clone, Debug)]
pub struct FocusedReviewRecord {
    pub review_id: u64,
    pub provider_id: Address,
    pub facility_id: Address,
    pub trigger_reason: String,
    pub review_type: String,
    pub initiated_by: Address,
}

/// A recredentialing due date set for a provider at a facility.
#[derive(Clone, Debug)]
pub struct RecredentialingSchedule {
    pub schedule_id: u64,
    pub provider_id: Address,
    pub facility_id: Address,
    pub due_date: u64,
    pub notification_sent: bool,
}

/// What filing a provisional-privilege request does to the records, with the id returned.
pub open spec fn is_provisional_request(
    before: AncillaryTracking,
    after: AncillaryTracking,
    provider_id: Address,
    facility_id: Address,
    privilege_category: String,
    supervising_provider: Address,
    justification: String,
    r: u64,
) -> bool {
    &&& r == before.provisional_requests().len() + 1
    &&& after.provisional_requests() == before.provisional_requests().push(
        ProvisionalPrivilegeRequest {
            request_id: r,
            provider_id,
            facility_id,
            privilege_category,
            supervising_provider,
            justification,
        },
    )
    &&& after.provisional_ids_of(provider_id, facility_id) == before.provisional_ids_of(provider_id, facility_id).push(r)
    &&& forall|p: Address, f: Address|
        !(p == provider_id && f == facility_id) ==> #[trigger] after.provisional_ids_of(p, f) == before.provisional_ids_of(p, f)
    &&& forall|p: Address, f: Address| #[trigger]
        after.activities_of(p, f) == before.activities_of(p, f)
    &&& forall|p: Address, f: Address| #[trigger]
        after.schedule_ids_of(p, f) == before.schedule_ids_of(p, f)
    &&& after.focused_reviews() == before.focused_reviews()
    &&& after.schedules() == before.schedules()
}

/// What logging a clinical activity does to the records.
pub open spec fn is_activity_logged(
    before: AncillaryTracking,
    after: AncillaryTracking,
    provider_id: Address,
    facility_id: Address,
    record: ClinicalActivityRecord,
) -> bool {
    &&& after.activities_of(provider_id, facility_id) == before.activities_of(provider_id, facility_id).push(record)
    &&& forall|p: Address, f: Address|
        !(p == provider_id && f == facility_id) ==> #[trigger] after.activities_of(
            p,
            f,
        ) == before.activities_of(p, f)
    &&& forall|p: Address, f: Address| #[trigger]
        after.provisional_ids_of(p, f) == before.provisional_ids_of(p, f)
    &&& forall|p: Address, f: Address| #[trigger]
        after.schedule_ids_of(p, f) == before.schedule_ids_of(p, f)
    &&& after.provisional_requests() == before.provisional_requests()
    &&& after.focused_reviews() == before.focused_reviews()
    &&& after.schedules() == before.schedules()
}

/// What opening a focused review does to the records, with the id returned.
pub open spec fn is_focused_review(
    before: AncillaryTracking,
    after: AncillaryTracking,
    provider_id: Address,
    facility_id: Address,
    trigger_reason: String,
    review_type: String,
    initiated_by: Address,
    r: u64,
) -> bool {
    &&& r == before.focused_reviews().len() + 1
    &&& after.focused_reviews() == before.focused_reviews().push(
        FocusedReviewRecord {
            review_id: r,
            provider_id,
            facility_id,
            trigger_reason,
            review_type,
            initiated_by,
        },
    )
    &&& forall|p: Address, f: Address| #[trigger]
        after.provisional_ids_of(p, f) == before.provisional_ids_of(p, f)
    &&& forall|p: Address, f: Address| #[trigger]
        after.activities_of(p, f) == before.activities_of(p, f)
    &&& forall|p: Address, f: Address| #[trigger]
        after.schedule_ids_of(p, f) == before.schedule_ids_of(p, f)
    &&& after.provisional_requests() == before.provisional_requests()
    &&& after.schedules() == before.schedules()
}

/// What setting a recredentialing due date does to the records, with the id returned.
pub open spec fn is_schedule(
    before: AncillaryTracking,
    after: AncillaryTracking,
    provider_id: Address,
    facility_id: Address,
    due_date: u64,
    notification_sent: bool,
    r: u64,
) -> bool {
    &&& r == before.schedules().len() + 1
    &&& after.schedules() == before.schedules().push(
        RecredentialingSchedule {
            schedule_id: r,
            provider_id,
            facility_id,
            due_date,
            notification_sent,
        },
    )
    &&& after.schedule_ids_of(provider_id, facility_id) == before.schedule_ids_of(provider_id, facility_id).push(r)
    &&& forall|p: Address, f: Address|
        !(p == provider_id && f == facility_id) ==> #[trigger] after.schedule_ids_of(
            p,
            f,
        ) == before.schedule_ids_of(p, f)
    &&& forall|p: Address, f: Address| #[trigger]
        after.provisional_ids_of(p, f) == before.provisional_ids_of(p, f)
    &&& forall|p: Address, f: Address| #[trigger]
        after.activities_of(p, f) == before.activities_of(p, f)
    &&& after.provisional_requests() == before.provisional_requests()
    &&& after.focused_reviews() == before.focused_reviews()
}

/// The ancillary records, each kind numbered from 1 in the order of creation.
pub struct AncillaryTracking {
    provisional_requests: Vec<ProvisionalPrivilegeRequest>,
    provisional_by_party: PartyLists<u64>,
    activities: PartyLists<ClinicalActivityRecord>,
    focused_reviews: Vec<FocusedReviewRecord>,
    schedules: Vec<RecredentialingSchedule>,
    schedules_by_party: PartyLists<u64>,
}

impl AncillaryTracking {
    pub closed spec fn provisional_requests(&self) -> Seq<ProvisionalPrivilegeRequest> {
        self.provisional_requests@
    }

    /// The ids of the provisional requests of a provider at a facility, oldest first.
    pub closed spec fn provisional_ids_of(&self, p: Address, f: Address) -> Seq<u64> {
        self.provisional_by_party.list(p, f)
    }

    pub closed spec fn activities_of(&self, p: Address, f: Address) -> Seq<ClinicalActivityRecord> {
        self.activities.list(p, f)
    }

    pub closed spec fn focused_reviews(&self) -> Seq<FocusedReviewRecord> {
        self.focused_reviews@
    }

    pub closed spec fn schedules(&self) -> Seq<RecredentialingSchedule> {
        self.schedules@
    }

    /// The ids of the recredentialing schedules of a provider at a facility, oldest first.
    pub closed spec fn schedule_ids_of(&self, p: Address, f: Address) -> Seq<u64> {
        self.schedules_by_party.list(p, f)
    }

    /// Each (provider, facility) pair has at most one list of each kind.
    pub closed spec fn wf(&self) -> bool {
        &&& self.provisional_by_party.wf()
        &&& self.activities.wf()
        &&& self.schedules_by_party.wf()
    }

    pub fn new() -> (r: AncillaryTracking)
        ensures
            r.wf(),
            r.provisional_requests().len() == 0,
            r.focused_reviews().len() == 0,
            r.schedules().len() == 0,
            forall|p: Address, f: Address|
                (#[trigger] r.provisional_ids_of(p, f)).len() == 0 && r.activities_of(p, f).len()
                    == 0 && r.schedule_ids_of(p, f).len() == 0,
    {
        AncillaryTracking {
            provisional_requests: Vec::new(),
            provisional_by_party: PartyLists::new(),
            activities: PartyLists::new(),
            focused_reviews: Vec::new(),
            schedules: Vec::new(),
            schedules_by_party: PartyLists::new(),
        }
    }

    /// Files a provisional-privilege request and returns its id.
    pub fn add_provisional_request(
        &mut self,
        provider_id: Address,
        facility_id: Address,
        privilege_category: String,
        supervising_provider: Address,
        justification: String,
    ) -> (r: u64)
        requires
            old(self).wf(),
            old(self).provisional_requests().len() < u64::MAX,
        ensures
            final(self).wf(),
            is_provisional_request(*old(self), *final(self), provider_id, facility_id, privilege_category, supervising_provider, justification, r),

    {
        let request_id = self.provisional_requests.len() as u64 + 1;
        self.provisional_requests.push(
            ProvisionalPrivilegeRequest {
                request_id,
                provider_id,
                facility_id,
                privilege_category,
                supervising_provider,
                justification,
            },
        );
        self.provisional_by_party.push(provider_id, facility_id, request_id);
        request_id
    }

    /// Appends a clinical activity to the log of a provider at a facility.
    pub fn add_activity(
        &mut self,
        provider_id: Address,
        facility_id: Address,
        record: ClinicalActivityRecord,
    )
        requires
            old(self).wf(),
        ensures
            final(self).wf(),
            is_activity_logged(*old(self), *final(self), provider_id, facility_id, record),

    {
        self.activities.push(provider_id, facility_id, record);
    }

    /// Opens a focused review and returns its id.
    pub fn add_focused_review(
        &mut self,
        provider_id: Address,
        facility_id: Address,
        trigger_reason: String,
        review_type: String,
        initiated_by: Address,
    ) -> (r: u64)
        requires
            old(self).wf(),
            old(self).focused_reviews().len() < u64::MAX,
        ensures
            final(self).wf(),
            is_focused_review(*old(self), *final(self), provider_id, facility_id, trigger_reason, review_type, initiated_by, r),

    {
        let review_id = self.focused_reviews.len() as u64 + 1;
        self.focused_reviews.push(
            FocusedReviewRecord {
                review_id,
                provider_id,
                facility_id,
                trigger_reason,
                review_type,
                initiated_by,
            },
        );
        review_id
    }

    /// Sets a recredentialing due date and returns the schedule's id.
    pub fn add_schedule(
        &mut self,
        provider_id: Address,
        facility_id: Address,
        due_date: u64,
        notification_sent: bool,
    ) -> (r: u64)
        requires
            old(self).wf(),
            old(self).schedules().len() < u64::MAX,
        ensures
            final(self).wf(),
            is_schedule(*old(self), *final(self), provider_id, facility_id, due_date, notification_sent, r),

    {
        let schedule_id = self.schedules.len() as u64 + 1;
        self.schedules.push(
            RecredentialingSchedule {
                schedule_id,
                provider_id,
                facility_id,
                due_date,
                notification_sent,
            },
        );
        self.schedules_by_party.push(provider_id, facility_id, schedule_id);
        schedule_id
    }

    /// A copy of the clinical activity log of a provider at a facility, oldest first.
    pub fn activities(&self, provider_id: Address, facility_id: Address) -> (r: Vec<
        ClinicalActivityRecord,
    >)
        requires
            self.wf(),
        ensures
            r@ == self.activities_of(provider_id, facility_id),
    {
        let mut out: Vec<ClinicalActivityRecord> = Vec::new();
        match self.activities.get(provider_id, facility_id) {
            Some(v) => {
                let mut i: usize = 0;
                while i < v.len()
                    invariant
                        i <= v@.len(),
                        out@ == v@.subrange(0, i as int),
                    decreases v@.len() - i,
                {
                    out.push(v[i].duplicate());
                    i = i + 1;
                    assert(out@ =~= v@.subrange(0, i as int));
                }
                assert(v@.subrange(0, v@.len() as int) =~= v@);
            },
            None => {
                assert(out@ =~= self.activities_of(provider_id, facility_id));
            },
        }
        out
    }
}

} // verus!
