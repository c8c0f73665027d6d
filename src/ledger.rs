//! The privilege ledger: the privileges granted to each provider at each facility, and the
//! history of their suspensions and reinstatements.
use vstd::prelude::*;
use crate::case::Error;
use crate::identity::Address;
use crate::keyed::PartyLists;
use crate::privilege::{
    has_marker, lemma_reinstated_has_no_marker, lemma_suspended_has_marker,
    all_privileges_have_marker, any_privilege_has_marker, copy_privileges,
    every_privilege_has, reinstated_restrictions, same_but_restrictions, some_privilege_has,
    suspended_restrictions, Marker, Privilege, ReinstatementRecord, Restriction,
    SuspensionRecord,
};

verus! {

/// The restriction set that a condition list stands for.
pub open spec fn conditions_as_restrictions(conditions: Seq<String>) -> Seq<Restriction> {
    conditions.map_values(|c: String| Restriction::Condition(c))
}

/// Whether `p` is the privilege a grant creates with the given id, category, conditions
/// and dates.
pub open spec fn is_granted(
    p: Privilege,
    id: u64,
    category: String,
    conditions: Seq<String>,
    effective_date: u64,
    expiration_date: u64,
) -> bool {
    &&& p.privilege_id == id
    &&& p.privilege_category == category
    &&& p.privilege_name@ == "Approved Privilege"@
    &&& p.scope@ == "facility_scope"@
    &&& p.restrictions@ == conditions_as_restrictions(conditions)
    &&& !p.supervision_required
    &&& p.volume_requirements is None
    &&& p.granted_date == effective_date
    &&& p.expiration_date == expiration_date
}

/// Turns each condition into a restriction.
pub fn condition_restrictions(conditions: &Vec<String>) -> (r: Vec<Restriction>)
    ensures
        r@ == conditions_as_restrictions(conditions@),
{
    let mut out: Vec<Restriction> = Vec::new();
    let mut i: usize = 0;
    while i < conditions.len()
        invariant
            i <= conditions@.len(),
            out@ == conditions_as_restrictions(conditions@.subrange(0, i as int)),
        decreases conditions@.len() - i,
    {
        out.push(Restriction::Condition(conditions[i].clone()));
        i = i + 1;
        assert(out@ =~= conditions_as_restrictions(conditions@.subrange(0, i as int)));
    }
    assert(conditions@.subrange(0, conditions@.len() as int) =~= conditions@);
    out
}

/// Whether `after` is the privilege list `before` once suspended.
pub open spec fn is_suspension_of(
    before: Seq<Privilege>,
    after: Seq<Privilege>,
    is_immediate: bool,
    peer_review_required: bool,
) -> bool {
    &&& after.len() == before.len()
    &&& forall|i: int|
        0 <= i < before.len() ==> same_but_restrictions(before[i], #[trigger] after[i])
            && after[i].restrictions@ == suspended_restrictions(
            before[i].restrictions@,
            is_immediate,
            peer_review_required,
        )
}

/// Whether `after` is the privilege list `before` once reinstated.
pub open spec fn is_reinstatement_of(before: Seq<Privilege>, after: Seq<Privilege>) -> bool {
    &&& after.len() == before.len()
    &&& forall|i: int|
        0 <= i < before.len() ==> same_but_restrictions(before[i], #[trigger] after[i])
            && after[i].restrictions@ == reinstated_restrictions(before[i].restrictions@)
}

/// Whether `after` is `before` with one privilege per category appended, numbered on from
/// `counter` and carrying the conditions as restrictions.
pub open spec fn is_granted_list(
    before: Seq<Privilege>,
    after: Seq<Privilege>,
    counter: u64,
    categories: Seq<String>,
    conditions: Seq<String>,
    effective_date: u64,
    expiration_date: u64,
) -> bool {
    &&& after.len() == before.len() + categories.len()
    &&& after.subrange(0, before.len() as int) == before
    &&& forall|k: int|
        0 <= k < categories.len() ==> is_granted(
            #[trigger] after[before.len() + k],
            (counter + k + 1) as u64,
            categories[k],
            conditions,
            effective_date,
            expiration_date,
        )
}

/// Appends one privilege per category to a privilege list, numbering them on from the
/// counter, each carrying the conditions as its restrictions.
pub fn grant_into(
    privileges: &mut Vec<Privilege>,
    counter: &mut u64,
    categories: &Vec<String>,
    conditions: &Vec<String>,
    effective_date: u64,
    expiration_date: u64,
)
    requires
        *old(counter) + categories@.len() <= u64::MAX,
    ensures
        *final(counter) == *old(counter) + categories@.len(),
        is_granted_list(
            old(privileges)@,
            final(privileges)@,
            *old(counter),
            categories@,
            conditions@,
            effective_date,
            expiration_date,
        ),
{
    let ghost before = old(privileges)@;
    let ghost start = *old(counter);
    let mut idx: usize = 0;
    while idx < categories.len()
        invariant
            idx <= categories@.len(),
            *counter == start + idx,
            start + categories@.len() <= u64::MAX,
            privileges@.len() == before.len() + idx,
            privileges@.subrange(0, before.len() as int) == before,
            forall|k: int|
                0 <= k < idx ==> is_granted(
                    #[trigger] privileges@[before.len() + k],
                    (start + k + 1) as u64,
                    categories@[k],
                    conditions@,
                    effective_date,
                    expiration_date,
                ),
        decreases categories@.len() - idx,
    {
        *counter = *counter + 1;
        privileges.push(
            Privilege {
                privilege_id: *counter,
                privilege_category: categories[idx].clone(),
                privilege_name: "Approved Privilege".to_owned(),
                scope: "facility_scope".to_owned(),
                restrictions: condition_restrictions(conditions),
                supervision_required: false,
                volume_requirements: None,
                granted_date: effective_date,
                expiration_date,
            },
        );
        idx = idx + 1;
        assert(privileges@.subrange(0, before.len() as int) =~= before);
    }
}

/// A privilege list once suspended: every privilege marked suspended, and immediate or
/// awaiting peer review as flagged. Fails when the list is empty, or when every privilege
/// is suspended already.
pub fn suspend_list(
    privileges: &Vec<Privilege>,
    is_immediate: bool,
    peer_review_required: bool,
) -> (r: Result<Vec<Privilege>, Error>)
    ensures
        privileges@.len() == 0 ==> (r matches Err(e) && e == Error::PrivilegeNotFound),
        every_privilege_has(privileges@, Marker::Suspended) ==> (r matches Err(e) && e
            == Error::AlreadySuspended),
        privileges@.len() > 0 && !every_privilege_has(privileges@, Marker::Suspended) ==> (r matches Ok(
            v,
        ) && is_suspension_of(privileges@, v@, is_immediate, peer_review_required)),
{
    if privileges.len() == 0 {
        return Err(Error::PrivilegeNotFound);
    }
    if all_privileges_have_marker(privileges, Marker::Suspended) {
        return Err(Error::AlreadySuspended);
    }
    let mut updated: Vec<Privilege> = Vec::new();
    let mut idx: usize = 0;
    while idx < privileges.len()
        invariant
            idx <= privileges@.len(),
            updated@.len() == idx,
            forall|i: int|
                0 <= i < idx ==> same_but_restrictions(privileges@[i], #[trigger] updated@[i])
                    && updated@[i].restrictions@ == suspended_restrictions(
                    privileges@[i].restrictions@,
                    is_immediate,
                    peer_review_required,
                ),
        decreases privileges@.len() - idx,
    {
        updated.push(privileges[idx].suspended(is_immediate, peer_review_required));
        idx = idx + 1;
    }
    Ok(updated)
}

/// A privilege list once reinstated: every suspension marker taken off. Fails when the
/// list is empty, or when no privilege is suspended.
pub fn reinstate_list(privileges: &Vec<Privilege>) -> (r: Result<Vec<Privilege>, Error>)
    ensures
        privileges@.len() == 0 ==> (r matches Err(e) && e == Error::PrivilegeNotFound),
        privileges@.len() > 0 && !some_privilege_has(privileges@, Marker::Suspended) ==> (r matches Err(
            e,
        ) && e == Error::NotSuspended),
        some_privilege_has(privileges@, Marker::Suspended) ==> (r matches Ok(v)
            && is_reinstatement_of(privileges@, v@)),
{
    if privileges.len() == 0 {
        return Err(Error::PrivilegeNotFound);
    }
    if !any_privilege_has_marker(privileges, Marker::Suspended) {
        return Err(Error::NotSuspended);
    }
    let mut updated: Vec<Privilege> = Vec::new();
    let mut idx: usize = 0;
    while idx < privileges.len()
        invariant
            idx <= privileges@.len(),
            updated@.len() == idx,
            forall|i: int|
                0 <= i < idx ==> same_but_restrictions(privileges@[i], #[trigger] updated@[i])
                    && updated@[i].restrictions@ == reinstated_restrictions(
                    privileges@[i].restrictions@,
                ),
        decreases privileges@.len() - idx,
    {
        updated.push(privileges[idx].reinstated());
        idx = idx + 1;
    }
    Ok(updated)
}

/// What a grant to a provider at a facility does to the ledger.
pub open spec fn is_grant(
    before: PrivilegeLedger,
    after: PrivilegeLedger,
    provider_id: Address,
    facility_id: Address,
    categories: Seq<String>,
    conditions: Seq<String>,
    effective_date: u64,
    expiration_date: u64,
) -> bool {
    &&& after.privilege_counter() == before.privilege_counter() + categories.len()
    &&& is_granted_list(
        before.privileges_of(provider_id, facility_id),
        after.privileges_of(provider_id, facility_id),
        before.privilege_counter(),
        categories,
        conditions,
        effective_date,
        expiration_date,
    )
    &&& forall|p: Address, f: Address|
        !(p == provider_id && f == facility_id) ==> #[trigger] after.privileges_of(
            p,
            f,
        ) == before.privileges_of(p, f)
    &&& forall|p: Address, f: Address| #[trigger]
        after.suspensions_of(p, f) == before.suspensions_of(p, f)
    &&& forall|p: Address, f: Address| #[trigger]
        after.reinstatements_of(p, f) == before.reinstatements_of(p, f)
}

/// What a suspension of a provider's privileges at a facility does to the ledger, with its result.
pub open spec fn is_suspend_outcome(
    before: PrivilegeLedger,
    after: PrivilegeLedger,
    provider_id: Address,
    facility_id: Address,
    record: SuspensionRecord,
    r: Result<(), Error>,
) -> bool {
    &&& ({
        let ps = before.privileges_of(provider_id, facility_id);
        &&& ps.len() == 0 ==> r == Err::<(), Error>(Error::PrivilegeNotFound)
        &&& ps.len() > 0 && every_privilege_has(ps, Marker::Suspended) ==> r
            == Err::<(), Error>(Error::AlreadySuspended)
        &&& !every_privilege_has(ps, Marker::Suspended) && ps.len() > 0 ==> r is Ok
    })
    &&& r is Err ==> after == before
    &&& r is Ok ==> {
        &&& is_suspension_of(
            before.privileges_of(provider_id, facility_id),
            after.privileges_of(provider_id, facility_id),
            record.is_immediate,
            record.peer_review_required,
        )
        &&& after.suspensions_of(provider_id, facility_id) == before.suspensions_of(provider_id, facility_id).push(record)
        &&& forall|p: Address, f: Address|
            !(p == provider_id && f == facility_id) ==> #[trigger] after.privileges_of(p, f) == before.privileges_of(p, f)
                && after.suspensions_of(p, f) == before.suspensions_of(p, f)
        &&& forall|p: Address, f: Address| #[trigger]
            after.reinstatements_of(p, f) == before.reinstatements_of(p, f)
        &&& after.privilege_counter() == before.privilege_counter()
    }
}

/// What a reinstatement of a provider's privileges at a facility does to the ledger, with its result.
pub open spec fn is_reinstate_outcome(
    before: PrivilegeLedger,
    after: PrivilegeLedger,
    provider_id: Address,
    facility_id: Address,
    record: ReinstatementRecord,
    r: Result<(), Error>,
) -> bool {
    &&& ({
        let ps = before.privileges_of(provider_id, facility_id);
        &&& ps.len() == 0 ==> r == Err::<(), Error>(Error::PrivilegeNotFound)
        &&& ps.len() > 0 && !some_privilege_has(ps, Marker::Suspended) ==> r
            == Err::<(), Error>(Error::NotSuspended)
        &&& some_privilege_has(ps, Marker::Suspended) ==> r is Ok
    })
    &&& r is Err ==> after == before
    &&& r is Ok ==> {
        &&& is_reinstatement_of(
            before.privileges_of(provider_id, facility_id),
            after.privileges_of(provider_id, facility_id),
        )
        &&& after.reinstatements_of(provider_id, facility_id) == before.reinstatements_of(provider_id, facility_id).push(record)
        &&& forall|p: Address, f: Address|
            !(p == provider_id && f == facility_id) ==> #[trigger] after.privileges_of(p, f) == before.privileges_of(p, f)
                && after.reinstatements_of(p, f) == before.reinstatements_of(p, f)
        &&& forall|p: Address, f: Address| #[trigger]
            after.suspensions_of(p, f) == before.suspensions_of(p, f)
        &&& after.privilege_counter() == before.privilege_counter()
    }
}

/// A suspension of a provider and facility without privileges fails with
/// `PrivilegeNotFound`; one where some privilege is not yet suspended succeeds and leaves
/// every privilege suspended; and a second suspension right after a successful one fails
/// with `AlreadySuspended`.
pub proof fn lemma_suspension_cycle(
    l0: PrivilegeLedger,
    l1: PrivilegeLedger,
    l2: PrivilegeLedger,
    provider_id: Address,
    facility_id: Address,
    first: SuspensionRecord,
    second: SuspensionRecord,
    r1: Result<(), Error>,
    r2: Result<(), Error>,
)
    requires
        is_suspend_outcome(l0, l1, provider_id, facility_id, first, r1),
        is_suspend_outcome(l1, l2, provider_id, facility_id, second, r2),
    ensures
        l0.privileges_of(provider_id, facility_id).len() == 0 ==> r1 == Err::<(), Error>(
            Error::PrivilegeNotFound,
        ),
        ({
            let ps = l0.privileges_of(provider_id, facility_id);
            (exists|i: int| 0 <= i < ps.len() && !has_marker(#[trigger] ps[i].restrictions@, Marker::Suspended))
                ==> r1 is Ok
        }),
        r1 is Ok ==> every_privilege_has(l1.privileges_of(provider_id, facility_id), Marker::Suspended),
        r1 is Ok ==> r2 == Err::<(), Error>(Error::AlreadySuspended),
{
    let ps0 = l0.privileges_of(provider_id, facility_id);
    let ps1 = l1.privileges_of(provider_id, facility_id);
    if r1 is Ok {
        assert forall|i: int| 0 <= i < ps1.len() implies has_marker(
            #[trigger] ps1[i].restrictions@,
            Marker::Suspended,
        ) by {
            lemma_suspended_has_marker(
                ps0[i].restrictions@,
                first.is_immediate,
                first.peer_review_required,
            );
        }
    }
}

/// A reinstatement where no privilege is suspended fails with `NotSuspended`; a
/// reinstatement right after a successful suspension succeeds; and after any successful
/// reinstatement no privilege carries a suspension marker.
pub proof fn lemma_reinstatement_cycle(
    l0: PrivilegeLedger,
    l1: PrivilegeLedger,
    l2: PrivilegeLedger,
    provider_id: Address,
    facility_id: Address,
    suspension: SuspensionRecord,
    reinstatement: ReinstatementRecord,
    r1: Result<(), Error>,
    r2: Result<(), Error>,
)
    requires
        is_suspend_outcome(l0, l1, provider_id, facility_id, suspension, r1),
        is_reinstate_outcome(l1, l2, provider_id, facility_id, reinstatement, r2),
    ensures
        l1.privileges_of(provider_id, facility_id).len() > 0 && !some_privilege_has(
            l1.privileges_of(provider_id, facility_id),
            Marker::Suspended,
        ) ==> r2 == Err::<(), Error>(Error::NotSuspended),
        r1 is Ok ==> r2 is Ok,
        r2 is Ok ==> forall|i: int, m: Marker|
            0 <= i < l2.privileges_of(provider_id, facility_id).len() ==> !#[trigger] has_marker(
                l2.privileges_of(provider_id, facility_id)[i].restrictions@,
                m,
            ),
{
    let ps0 = l0.privileges_of(provider_id, facility_id);
    let ps1 = l1.privileges_of(provider_id, facility_id);
    let ps2 = l2.privileges_of(provider_id, facility_id);
    if r1 is Ok {
        lemma_suspended_has_marker(
            ps0[0].restrictions@,
            suspension.is_immediate,
            suspension.peer_review_required,
        );
        assert(has_marker(ps1[0].restrictions@, Marker::Suspended));
        assert(some_privilege_has(ps1, Marker::Suspended));
    }
    if r2 is Ok {
        assert forall|i: int, m: Marker|
            0 <= i < ps2.len() implies !#[trigger] has_marker(ps2[i].restrictions@, m) by {
            lemma_reinstated_has_no_marker(ps1[i].restrictions@, m);
        }
    }
}

/// The privileges of a ledger, stored in order of grant.
pub struct PrivilegeLedger {
    privilege_counter: u64,
    privileges: PartyLists<Privilege>,
    suspensions: PartyLists<SuspensionRecord>,
    reinstatements: PartyLists<ReinstatementRecord>,
}

impl PrivilegeLedger {
    /// The id of the last privilege granted, 0 before the first.
    pub closed spec fn privilege_counter(&self) -> u64 {
        self.privilege_counter
    }

    /// The privileges of a provider at a facility, in the order of their grant.
    pub closed spec fn privileges_of(&self, p: Address, f: Address) -> Seq<Privilege> {
        self.privileges.list(p, f)
    }

    pub closed spec fn suspensions_of(&self, p: Address, f: Address) -> Seq<SuspensionRecord> {
        self.suspensions.list(p, f)
    }

    pub closed spec fn reinstatements_of(&self, p: Address, f: Address) -> Seq<
        ReinstatementRecord,
    > {
        self.reinstatements.list(p, f)
    }

    /// Each (provider, facility) pair has at most one list of each kind.
    pub closed spec fn wf(&self) -> bool {
        &&& self.privileges.wf()
        &&& self.suspensions.wf()
        &&& self.reinstatements.wf()
    }

    pub fn new() -> (r: PrivilegeLedger)
        ensures
            r.wf(),
            r.privilege_counter() == 0,
            forall|p: Address, f: Address|
                (#[trigger] r.privileges_of(p, f)).len() == 0 && r.suspensions_of(p, f).len()
                    == 0 && r.reinstatements_of(p, f).len() == 0,
    {
        PrivilegeLedger {
            privilege_counter: 0,
            privileges: PartyLists::new(),
            suspensions: PartyLists::new(),
            reinstatements: PartyLists::new(),
        }
    }

    pub fn get_privilege_counter(&self) -> (r: u64)
        ensures
            r == self.privilege_counter(),
    {
        self.privilege_counter
    }

    /// Appends one privilege per category to the list of a provider at a facility, numbered
    /// on from the counter, each carrying the conditions as its restrictions.
    pub fn grant(
        &mut self,
        provider_id: Address,
        facility_id: Address,
        categories: &Vec<String>,
        conditions: &Vec<String>,
        effective_date: u64,
        expiration_date: u64,
    )
        requires
            old(self).wf(),
            old(self).privilege_counter() + categories@.len() <= u64::MAX,
        ensures
            final(self).wf(),
            is_grant(*old(self), *final(self), provider_id, facility_id, categories@, conditions@, effective_date, expiration_date),

    {
        let mut current = self.privileges.take(provider_id, facility_id);
        let mut counter = self.privilege_counter;
        grant_into(
            &mut current,
            &mut counter,
            categories,
            conditions,
            effective_date,
            expiration_date,
        );
        self.privilege_counter = counter;
        self.privileges.set(provider_id, facility_id, current);
    }

    /// Marks every privilege of a provider at a facility suspended (and immediate or awaiting
    /// peer review, as the record says) and files the record. Fails when there are no
    /// privileges, or when all of them are suspended already.
    pub fn suspend(
        &mut self,
        provider_id: Address,
        facility_id: Address,
        record: SuspensionRecord,
    ) -> (r: Result<(), Error>)
        requires
            old(self).wf(),
        ensures
            final(self).wf(),
            is_suspend_outcome(*old(self), *final(self), provider_id, facility_id, record, r),

    {
        let none: Vec<Privilege> = Vec::new();
        let privileges = match self.privileges.get(provider_id, facility_id) {
            Some(v) => v,
            None => &none,
        };
        let updated = match suspend_list(
            privileges,
            record.is_immediate,
            record.peer_review_required,
        ) {
            Ok(v) => v,
            Err(e) => {
                return Err(e);
            },
        };
        self.privileges.set(provider_id, facility_id, updated);
        self.suspensions.push(provider_id, facility_id, record);
        Ok(())
    }

    /// Takes the suspension markers off every privilege of a provider at a facility and files
    /// the record. Fails when there are no privileges, or when none is suspended.
    pub fn reinstate(
        &mut self,
        provider_id: Address,
        facility_id: Address,
        record: ReinstatementRecord,
    ) -> (r: Result<(), Error>)
        requires
            old(self).wf(),
        ensures
            final(self).wf(),
            is_reinstate_outcome(*old(self), *final(self), provider_id, facility_id, record, r),

    {
        let none: Vec<Privilege> = Vec::new();
        let privileges = match self.privileges.get(provider_id, facility_id) {
            Some(v) => v,
            None => &none,
        };
        let updated = match reinstate_list(privileges) {
            Ok(v) => v,
            Err(e) => {
                return Err(e);
            },
        };
        self.privileges.set(provider_id, facility_id, updated);
        self.reinstatements.push(provider_id, facility_id, record);
        Ok(())
    }

    /// A copy of the privileges of a provider at a facility.
    pub fn privileges(&self, provider_id: Address, facility_id: Address) -> (r: Vec<Privilege>)
        requires
            self.wf(),
        ensures
            ({
                let ps = self.privileges_of(provider_id, facility_id);
                &&& r@.len() == ps.len()
                &&& forall|i: int|
                    0 <= i < ps.len() ==> same_but_restrictions(ps[i], #[trigger] r@[i])
                        && r@[i].restrictions@ == ps[i].restrictions@
            }),
    {
        match self.privileges.get(provider_id, facility_id) {
            Some(v) => copy_privileges(v),
            None => Vec::new(),
        }
    }
}

} // verus!
