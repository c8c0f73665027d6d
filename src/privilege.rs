//! Granted privileges, the restriction tags they carry, and the records kept about them.
use vstd::prelude::*;
use crate::identity::Address;

verus! {

/// A tag that marks a privilege's suspension state.
#[derive(Clone, Copy, Debug, PartialEq, Eq, Structural)]
pub enum Marker {
    Suspended,
    Immediate,
    PeerReviewRequired,
}

/// One entry of a privilege's restriction set: a condition the committee attached, or a
/// suspension marker.
#[derive(Clone, Debug)]
pub enum Restriction {
    Condition(String),
    Marker(Marker),
}

impl Restriction {
    /// A copy of this restriction.
    pub fn duplicate(&self) -> (r: Restriction)
        ensures
            r == *self,
    {
        match self {
            Restriction::Condition(c) => Restriction::Condition(c.clone()),
            Restriction::Marker(m) => Restriction::Marker(*m),
        }
    }
}

/// A clinical privilege granted to a provider at a facility.
#[derive(Clone, Debug)]
pub struct Privilege {
    pub privilege_id: u64,
    pub privilege_category: String,
    pub privilege_name: String,
    pub scope: String,
    pub restrictions: Vec<Restriction>,
    pub supervision_required: bool,
    pub volume_requirements: Option<u32>,
    pub granted_date: u64,
    pub expiration_date: u64,
}

/// Whether `b` is `a` with, at most, another restriction set.
pub open spec fn same_but_restrictions(a: Privilege, b: Privilege) -> bool {
    &&& a.privilege_id == b.privilege_id
    &&& a.privilege_category == b.privilege_category
    &&& a.privilege_name == b.privilege_name
    &&& a.scope == b.scope
    &&& a.supervision_required == b.supervision_required
    &&& a.volume_requirements == b.volume_requirements
    &&& a.granted_date == b.granted_date
    &&& a.expiration_date == b.expiration_date
}

/// Whether the restriction set `rs` carries the marker `m`.
pub open spec fn has_marker(rs: Seq<Restriction>, m: Marker) -> bool {
    rs.contains(Restriction::Marker(m))
}

/// `rs` with the marker `m` added, unless it is there already.
pub open spec fn with_marker(rs: Seq<Restriction>, m: Marker) -> Seq<Restriction> {
    if has_marker(rs, m) {
        rs
    } else {
        rs.push(Restriction::Marker(m))
    }
}

/// `rs` without any copy of the marker `m`, the other entries in their order.
pub open spec fn without_marker(rs: Seq<Restriction>, m: Marker) -> Seq<Restriction> {
    rs.filter(|x: Restriction| x != Restriction::Marker(m))
}

/// The restriction set of a privilege after a suspension.
pub open spec fn suspended_restrictions(
    rs: Seq<Restriction>,
    is_immediate: bool,
    peer_review_required: bool,
) -> Seq<Restriction> {
    let a = with_marker(rs, Marker::Suspended);
    let b = if is_immediate {
        with_marker(a, Marker::Immediate)
    } else {
        a
    };
    if peer_review_required {
        with_marker(b, Marker::PeerReviewRequired)
    } else {
        b
    }
}

/// The restriction set of a privilege after a reinstatement.
pub open spec fn reinstated_restrictions(rs: Seq<Restriction>) -> Seq<Restriction> {
    without_marker(
        without_marker(without_marker(rs, Marker::Suspended), Marker::Immediate),
        Marker::PeerReviewRequired,
    )
}

/// Whether some privilege of `ps` carries `m`.
pub open spec fn some_privilege_has(ps: Seq<Privilege>, m: Marker) -> bool {
    exists|i: int| 0 <= i < ps.len() && has_marker(#[trigger] ps[i].restrictions@, m)
}

/// Whether there are privileges and every one of them carries `m`.
pub open spec fn every_privilege_has(ps: Seq<Privilege>, m: Marker) -> bool {
    &&& ps.len() > 0
    &&& forall|i: int| 0 <= i < ps.len() ==> has_marker(#[trigger] ps[i].restrictions@, m)
}

/// Looks for the marker `m` in a restriction set.
pub fn marker_exists(values: &Vec<Restriction>, m: Marker) -> (r: bool)
    ensures
        r == has_marker(values@, m),
{
    let mut i: usize = 0;
    while i < values.len()
        invariant
            i <= values@.len(),
            forall|j: int| 0 <= j < i ==> values@[j] != Restriction::Marker(m),
        decreases values@.len() - i,
    {
        match &values[i] {
            Restriction::Marker(x) => {
                if *x == m {
                    assert(values@[i as int] == Restriction::Marker(m));
                    return true;
                }
            },
            Restriction::Condition(_) => {},
        }
        i = i + 1;
    }
    proof {
        if has_marker(values@, m) {
            let j = choose|j: int| 0 <= j < values@.len() && values@[j] == Restriction::Marker(m);
            assert(values@[j] != Restriction::Marker(m));
        }
    }
    false
}

/// Adds the marker `m` to a restriction set that does not carry it yet.
pub fn add_unique_marker(values: Vec<Restriction>, m: Marker) -> (r: Vec<Restriction>)
    ensures
        r@ == with_marker(values@, m),
{
    let mut values = values;
    if !marker_exists(&values, m) {
        values.push(Restriction::Marker(m));
    }
    values
}

/// Removes every copy of the marker `m` from a restriction set.
pub fn remove_marker(values: &Vec<Restriction>, m: Marker) -> (r: Vec<Restriction>)
    ensures
        r@ == without_marker(values@, m),
{
    let ghost keep = |x: Restriction| x != Restriction::Marker(m);
    let mut out: Vec<Restriction> = Vec::new();
    let mut i: usize = 0;
    while i < values.len()
        invariant
            i <= values@.len(),
            keep == (|x: Restriction| x != Restriction::Marker(m)),
            out@ == values@.subrange(0, i as int).filter(keep),
        decreases values@.len() - i,
    {
        let v = values[i].duplicate();
        proof {
            let next = values@.subrange(0, i + 1);
            assert(next.drop_last() =~= values@.subrange(0, i as int));
            assert(next.last() == v);
            reveal(Seq::filter);
        }
        let drop = match &v {
            Restriction::Marker(x) => *x == m,
            Restriction::Condition(_) => false,
        };
        if !drop {
            out.push(v);
        }
        i = i + 1;
    }
    assert(values@.subrange(0, values@.len() as int) =~= values@);
    out
}

/// Whether some privilege of the list carries `m`.
pub fn any_privilege_has_marker(privileges: &Vec<Privilege>, m: Marker) -> (r: bool)
    ensures
        r == some_privilege_has(privileges@, m),
{
    let mut i: usize = 0;
    while i < privileges.len()
        invariant
            i <= privileges@.len(),
            forall|j: int| 0 <= j < i ==> !has_marker(#[trigger] privileges@[j].restrictions@, m),
        decreases privileges@.len() - i,
    {
        if marker_exists(&privileges[i].restrictions, m) {
            return true;
        }
        i = i + 1;
    }
    false
}

/// Whether the list holds privileges and each one carries `m`.
pub fn all_privileges_have_marker(privileges: &Vec<Privilege>, m: Marker) -> (r: bool)
    ensures
        r == every_privilege_has(privileges@, m),
{
    if privileges.len() == 0 {
        return false;
    }
    let mut i: usize = 0;
    while i < privileges.len()
        invariant
            i <= privileges@.len(),
            forall|j: int| 0 <= j < i ==> has_marker(#[trigger] privileges@[j].restrictions@, m),
        decreases privileges@.len() - i,
    {
        if !marker_exists(&privileges[i].restrictions, m) {
            return false;
        }
        i = i + 1;
    }
    true
}


/// Adding a marker leaves it in the set, and keeps every marker that was there.
pub proof fn lemma_with_marker(rs: Seq<Restriction>, m: Marker, other: Marker)
    ensures
        has_marker(with_marker(rs, m), m),
        has_marker(rs, other) ==> has_marker(with_marker(rs, m), other),
{
    if !has_marker(rs, m) {
        let pushed = rs.push(Restriction::Marker(m));
        assert(pushed[rs.len() as int] == Restriction::Marker(m));
        if has_marker(rs, other) {
            let j = choose|j: int| 0 <= j < rs.len() && rs[j] == Restriction::Marker(other);
            assert(pushed[j] == Restriction::Marker(other));
        }
    }
}

/// A suspended restriction set carries the suspension marker.
pub proof fn lemma_suspended_has_marker(
    rs: Seq<Restriction>,
    is_immediate: bool,
    peer_review_required: bool,
)
    ensures
        has_marker(suspended_restrictions(rs, is_immediate, peer_review_required), Marker::Suspended),
{
    let a = with_marker(rs, Marker::Suspended);
    lemma_with_marker(rs, Marker::Suspended, Marker::Suspended);
    let b = if is_immediate {
        with_marker(a, Marker::Immediate)
    } else {
        a
    };
    lemma_with_marker(a, Marker::Immediate, Marker::Suspended);
    lemma_with_marker(b, Marker::PeerReviewRequired, Marker::Suspended);
}

/// Whatever a filter keeps was in the sequence it filtered.
proof fn lemma_filter_subset(s: Seq<Restriction>, pred: spec_fn(Restriction) -> bool, x: Restriction)
    requires
        s.filter(pred).contains(x),
    ensures
        s.contains(x),
    decreases s.len(),
{
    reveal(Seq::filter);
    if s.len() > 0 {
        let sub = s.drop_last().filter(pred);
        if pred(s.last()) && x == s.last() {
            assert(s[s.len() - 1] == x);
        } else {
            if pred(s.last()) {
                let j = choose|j: int| 0 <= j < s.filter(pred).len() && s.filter(pred)[j] == x;
                assert(s.filter(pred) == sub.push(s.last()));
                assert(j < sub.len());
                assert(sub[j] == x);
            }
            assert(sub.contains(x));
            lemma_filter_subset(s.drop_last(), pred, x);
            let k = choose|k: int| 0 <= k < s.drop_last().len() && s.drop_last()[k] == x;
            assert(s[k] == x);
        }
    }
}

/// Removing a marker takes it out, and brings back no marker that was absent.
pub proof fn lemma_without_marker(rs: Seq<Restriction>, m: Marker, other: Marker)
    ensures
        !has_marker(without_marker(rs, m), m),
        !has_marker(rs, other) ==> !has_marker(without_marker(rs, m), other),
{
    let pred = |x: Restriction| x != Restriction::Marker(m);
    let out = rs.filter(pred);
    if has_marker(out, m) {
        let j = choose|j: int| 0 <= j < out.len() && out[j] == Restriction::Marker(m);
        rs.lemma_filter_pred(pred, j);
    }
    if has_marker(out, other) {
        lemma_filter_subset(rs, pred, Restriction::Marker(other));
    }
}

/// A reinstated restriction set carries none of the suspension markers.
pub proof fn lemma_reinstated_has_no_marker(rs: Seq<Restriction>, m: Marker)
    ensures
        !has_marker(reinstated_restrictions(rs), m),
{
    let a = without_marker(rs, Marker::Suspended);
    let b = without_marker(a, Marker::Immediate);
    lemma_without_marker(rs, Marker::Suspended, m);
    lemma_without_marker(a, Marker::Immediate, m);
    lemma_without_marker(b, Marker::PeerReviewRequired, m);
}

/// A copy of a restriction set.
pub fn copy_restrictions(values: &Vec<Restriction>) -> (r: Vec<Restriction>)
    ensures
        r@ == values@,
{
    let mut out: Vec<Restriction> = Vec::new();
    let mut i: usize = 0;
    while i < values.len()
        invariant
            i <= values@.len(),
            out@ == values@.subrange(0, i as int),
        decreases values@.len() - i,
    {
        out.push(values[i].duplicate());
        i = i + 1;
        assert(out@ =~= values@.subrange(0, i as int));
    }
    assert(values@.subrange(0, values@.len() as int) =~= values@);
    out
}

impl Privilege {
    /// A copy of this privilege.
    pub fn duplicate(&self) -> (r: Privilege)
        ensures
            same_but_restrictions(*self, r),
            r.restrictions@ == self.restrictions@,
    {
        Privilege {
            privilege_id: self.privilege_id,
            privilege_category: self.privilege_category.clone(),
            privilege_name: self.privilege_name.clone(),
            scope: self.scope.clone(),
            restrictions: copy_restrictions(&self.restrictions),
            supervision_required: self.supervision_required,
            volume_requirements: self.volume_requirements,
            granted_date: self.granted_date,
            expiration_date: self.expiration_date,
        }
    }

    /// This privilege with another restriction set.
    pub fn with_restrictions(&self, restrictions: Vec<Restriction>) -> (r: Privilege)
        ensures
            same_but_restrictions(*self, r),
            r.restrictions == restrictions,
    {
        Privilege {
            privilege_id: self.privilege_id,
            privilege_category: self.privilege_category.clone(),
            privilege_name: self.privilege_name.clone(),
            scope: self.scope.clone(),
            restrictions,
            supervision_required: self.supervision_required,
            volume_requirements: self.volume_requirements,
            granted_date: self.granted_date,
            expiration_date: self.expiration_date,
        }
    }

    /// This privilege marked suspended, and immediate or awaiting peer review as flagged.
    pub fn suspended(&self, is_immediate: bool, peer_review_required: bool) -> (r: Privilege)
        ensures
            same_but_restrictions(*self, r),
            r.restrictions@ == suspended_restrictions(
                self.restrictions@,
                is_immediate,
                peer_review_required,
            ),
    {
        let mut rs = add_unique_marker(copy_restrictions(&self.restrictions), Marker::Suspended);
        if is_immediate {
            rs = add_unique_marker(rs, Marker::Immediate);
        }
        if peer_review_required {
            rs = add_unique_marker(rs, Marker::PeerReviewRequired);
        }
        self.with_restrictions(rs)
    }

    /// This privilege with its suspension markers taken off.
    pub fn reinstated(&self) -> (r: Privilege)
        ensures
            same_but_restrictions(*self, r),
            r.restrictions@ == reinstated_restrictions(self.restrictions@),
    {
        let a = remove_marker(&self.restrictions, Marker::Suspended);
        let b = remove_marker(&a, Marker::Immediate);
        let c = remove_marker(&b, Marker::PeerReviewRequired);
        self.with_restrictions(c)
    }
}

/// A copy of a privilege list.
pub fn copy_privileges(privileges: &Vec<Privilege>) -> (r: Vec<Privilege>)
    ensures
        r@.len() == privileges@.len(),
        forall|i: int|
            0 <= i < privileges@.len() ==> same_but_restrictions(privileges@[i], #[trigger] r@[i])
                && r@[i].restrictions@ == privileges@[i].restrictions@,
{
    let mut out: Vec<Privilege> = Vec::new();
    let mut i: usize = 0;
    while i < privileges.len()
        invariant
            i <= privileges@.len(),
            out@.len() == i,
            forall|j: int|
                0 <= j < i ==> same_but_restrictions(privileges@[j], #[trigger] out@[j])
                    && out@[j].restrictions@ == privileges@[j].restrictions@,
        decreases privileges@.len() - i,
    {
        out.push(privileges[i].duplicate());
        i = i + 1;
    }
    out
}

/// The record of one suspension of a provider's privileges at a facility.
#[derive(Clone, Debug)]
pub struct SuspensionRecord {
    pub suspension_authority: Address,
    pub suspension_reason: String,
    pub suspension_date: u64,
    pub is_immediate: bool,
    pub peer_review_required: bool,
}

/// The record of one reinstatement of a provider's privileges at a facility.
#[derive(Clone, Debug)]
pub struct ReinstatementRecord {
    pub reinstatement_authority: Address,
    pub corrective_actions_completed: Vec<String>,
    pub monitoring_requirements: Vec<String>,
}

} // verus!
