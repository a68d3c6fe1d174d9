use vstd::prelude::*;

use crate::challenge::{Challenge, ChallengeId, ChallengeView};
use crate::update::{merge_into, merged, ChangeSet, ChangeSetView};

verus! {

/// Why an operation on the store did not go through.
#[derive(Clone, Copy, Debug, PartialEq, Eq, Structural)]
pub enum ChallengeError {
    /// No live record has the identifier: it is absent or soft-deleted.
    NotFound,
    /// A record with the identifier is already stored.
    AlreadyExists,
    /// The system clock could not be read as a time after the Unix epoch.
    ClockUnavailable,
}

impl ChallengeError {
    /// The message shown to the client for this error.
    pub fn message(&self) -> (r: String)
        ensures
            *self == ChallengeError::NotFound ==> r@ == "challenge_not_found"@,
            *self == ChallengeError::AlreadyExists ==> r@ == "challenge_already_exists"@,
            *self == ChallengeError::ClockUnavailable ==> r@ == "clock_unavailable"@,
    {
        match self {
            ChallengeError::NotFound => String::from_str("challenge_not_found"),
            ChallengeError::AlreadyExists => String::from_str("challenge_already_exists"),
            ChallengeError::ClockUnavailable => String::from_str("clock_unavailable"),
        }
    }
}

/// Every record is stored under its own id.
pub open spec fn keyed_by_id(m: Map<ChallengeId, ChallengeView>) -> bool {
    forall|k: ChallengeId| #[trigger] m.contains_key(k) ==> m[k].id == k
}

/// Whether the store holds a record with this id that is not soft-deleted.
pub open spec fn live(m: Map<ChallengeId, ChallengeView>, id: ChallengeId) -> bool {
    m.contains_key(id) && m[id].deleted_at is None
}

/// What a lookup by id yields: the record, only while it is live.
pub open spec fn found(m: Map<ChallengeId, ChallengeView>, id: ChallengeId) -> Option<
    ChallengeView,
> {
    if live(m, id) {
        Some(m[id])
    } else {
        None
    }
}

/// The store after merging a change-set into the live record `id`, or `None`
/// when there is no such record.
pub open spec fn updated(
    m: Map<ChallengeId, ChallengeView>,
    id: ChallengeId,
    cs: ChangeSetView,
) -> Option<Map<ChallengeId, ChallengeView>> {
    if live(m, id) {
        Some(m.insert(id, merged(m[id], cs)))
    } else {
        None
    }
}

/// The record marked as deleted at time `at`.
pub open spec fn marked_deleted(c: ChallengeView, at: i64) -> ChallengeView {
    ChallengeView { deleted_at: Some(at), ..c }
}

/// The store after soft-deleting the live record `id` at time `at`, or
/// `None` when there is no such record.
pub open spec fn deleted(m: Map<ChallengeId, ChallengeView>, id: ChallengeId, at: i64) -> Option<
    Map<ChallengeId, ChallengeView>,
> {
    if live(m, id) {
        Some(m.insert(id, marked_deleted(m[id], at)))
    } else {
        None
    }
}

pub open spec fn result_view(r: Result<Challenge, ChallengeError>) -> Result<
    ChallengeView,
    ChallengeError,
> {
    match r {
        Ok(c) => Ok(c@),
        Err(e) => Err(e),
    }
}

/// Challenge records, one row per id; soft-deleted rows are kept.
pub struct ChallengeStore {
    rows: Vec<Challenge>,
}

impl ChallengeStore {
    pub closed spec fn has_row(&self, id: ChallengeId) -> bool {
        exists|i: int| 0 <= i < self.rows@.len() && (#[trigger] self.rows@[i]).id == id
    }

    pub closed spec fn row_index(&self, id: ChallengeId) -> int {
        choose|i: int| 0 <= i < self.rows@.len() && (#[trigger] self.rows@[i]).id == id
    }

    /// No two rows share an id.
    pub closed spec fn wf(&self) -> bool {
        forall|i: int, j: int|
            0 <= i < self.rows@.len() && 0 <= j < self.rows@.len() && i != j ==> (
            #[trigger] self.rows@[i]).id != (#[trigger] self.rows@[j]).id
    }

    proof fn lemma_row(&self, i: int)
        requires
            self.wf(),
            0 <= i < self.rows@.len(),
        ensures
            self@.contains_key(self.rows@[i].id),
            self@[self.rows@[i].id] == self.rows@[i]@,
    {
        let id = self.rows@[i].id;
        assert(self.has_row(id));
        let j = self.row_index(id);
        assert(self.rows@[j].id == id);
    }

    /// In a well-formed store every record sits under its own id.
    pub proof fn lemma_keyed_by_id(&self)
        requires
            self.wf(),
        ensures
            keyed_by_id(self@),
    {
        assert forall|k: ChallengeId| #[trigger] self@.contains_key(k) implies self@[k].id == k by {
            let j = self.row_index(k);
            assert(self.rows@[j].id == k);
        }
    }

    /// Whether a live record has this id.
    pub fn is_live(&self, id: ChallengeId) -> (r: bool)
        requires
            self.wf(),
        ensures
            r == live(self@, id),
    {
        match self.position(id) {
            Some(i) => !self.rows[i].is_deleted(),
            None => false,
        }
    }

    /// An empty store.
    pub fn new() -> (r: ChallengeStore)
        ensures
            r.wf(),
            r@ == Map::<ChallengeId, ChallengeView>::empty(),
    {
        let r = ChallengeStore { rows: Vec::new() };
        assert(r@ =~= Map::<ChallengeId, ChallengeView>::empty());
        r
    }

    fn position(&self, id: ChallengeId) -> (r: Option<usize>)
        requires
            self.wf(),
        ensures
            r is None ==> !self@.contains_key(id),
            r is Some ==> {
                &&& r->0 < self.rows@.len()
                &&& self.rows@[r->0 as int].id == id
                &&& self@.contains_key(id)
                &&& self@[id] == self.rows@[r->0 as int]@
            },
    {
        let mut i: usize = 0;
        while i < self.rows.len()
            invariant
                self.wf(),
                i <= self.rows@.len(),
                forall|j: int| 0 <= j < i ==> (#[trigger] self.rows@[j]).id != id,
            decreases self.rows.len() - i,
        {
            if self.rows[i].id == id {
                proof {
                    self.lemma_row(i as int);
                }
                return Some(i);
            }
            i = i + 1;
        }
        None
    }

    proof fn lemma_replace(&self, other: &ChallengeStore, i: int)
        requires
            self.wf(),
            0 <= i < self.rows@.len(),
            other.rows@ == self.rows@.update(i, other.rows@[i]),
            other.rows@[i].id == self.rows@[i].id,
        ensures
            other.wf(),
            other@ == self@.insert(self.rows@[i].id, other.rows@[i]@),
    {
        let id = self.rows@[i].id;
        assert(other.wf()) by {
            assert forall|a: int, b: int|
                0 <= a < other.rows@.len() && 0 <= b < other.rows@.len() && a != b implies (
                #[trigger] other.rows@[a]).id != (#[trigger] other.rows@[b]).id by {
                assert(self.rows@[a].id != self.rows@[b].id);
            }
        }
        let target = self@.insert(id, other.rows@[i]@);
        assert forall|k: ChallengeId| #[trigger] other@.contains_key(k) implies target.contains_key(k)
            && other@[k] == target[k] by {
            assert(other.has_row(k));
            let j = choose|j: int| 0 <= j < other.rows@.len() && (#[trigger] other.rows@[j]).id == k;
            other.lemma_row(j);
            if j != i {
                self.lemma_row(j);
            }
        }
        assert forall|k: ChallengeId| #[trigger] target.contains_key(k) implies other@.contains_key(
            k,
        ) by {
            if k == id {
                other.lemma_row(i);
            } else {
                assert(self.has_row(k));
                let j = choose|j: int| 0 <= j < self.rows@.len() && (#[trigger] self.rows@[j]).id == k;
                other.lemma_row(j);
            }
        }
        assert(other@ =~= target);
    }

    /// Adds a new record; refuses an id that is already stored.
    pub fn insert(&mut self, c: Challenge) -> (r: Result<(), ChallengeError>)
        requires
            old(self).wf(),
        ensures
            final(self).wf(),
            r is Ok <==> !old(self)@.contains_key(c@.id),
            r is Ok ==> final(self)@ == old(self)@.insert(c@.id, c@),
            r is Err ==> r == Err::<(), ChallengeError>(ChallengeError::AlreadyExists)
                && final(self)@ == old(self)@,
    {
        if self.position(c.id).is_some() {
            return Err(ChallengeError::AlreadyExists);
        }
        let ghost before = *self;
        let ghost id = c.id;
        let ghost cv = c@;
        self.rows.push(c);
        proof {
            let n = before.rows@.len() as int;
            assert(self.wf()) by {
                assert forall|a: int, b: int|
                    0 <= a < self.rows@.len() && 0 <= b < self.rows@.len() && a != b implies (
                    #[trigger] self.rows@[a]).id != (#[trigger] self.rows@[b]).id by {
                    assert(!before.has_row(id));
                    if a == n {
                        assert(self.rows@[b] == before.rows@[b]);
                    } else if b == n {
                        assert(self.rows@[a] == before.rows@[a]);
                    } else {
                        assert(before.rows@[a].id != before.rows@[b].id);
                    }
                }
            }
            let target = before@.insert(id, cv);
            assert forall|k: ChallengeId| #[trigger] self@.contains_key(k) implies target.contains_key(k)
                && self@[k] == target[k] by {
                assert(self.has_row(k));
                let j = choose|j: int| 0 <= j < self.rows@.len() && (#[trigger] self.rows@[j]).id == k;
                self.lemma_row(j);
                if j != n {
                    before.lemma_row(j);
                }
            }
            assert forall|k: ChallengeId| #[trigger] target.contains_key(k) implies self@.contains_key(k) by {
                if k == id {
                    self.lemma_row(n);
                } else {
                    assert(before.has_row(k));
                    let j = choose|j: int| 0 <= j < before.rows@.len() && (#[trigger] before.rows@[j]).id == k;
                    self.lemma_row(j);
                }
            }
            assert(self@ =~= target);
        }
        Ok(())
    }

    /// Looks up the live record with this id.
    pub fn find(&self, id: ChallengeId) -> (r: Result<Challenge, ChallengeError>)
        requires
            self.wf(),
        ensures
            match found(self@, id) {
                Some(c) => result_view(r) == Ok::<ChallengeView, ChallengeError>(c),
                None => r == Err::<Challenge, ChallengeError>(ChallengeError::NotFound),
            },
            r is Ok ==> r->Ok_0@.id == id,
    {
        proof {
            self.lemma_keyed_by_id();
        }
        match self.position(id) {
            Some(i) => {
                if self.rows[i].is_deleted() {
                    Err(ChallengeError::NotFound)
                } else {
                    Ok(self.rows[i].snapshot())
                }
            },
            None => Err(ChallengeError::NotFound),
        }
    }

    /// Merges a change-set into the live record `id` and returns the record as
    /// stored afterwards.
    pub fn apply_update(&mut self, id: ChallengeId, cs: ChangeSet) -> (r: Result<
        Challenge,
        ChallengeError,
    >)
        requires
            old(self).wf(),
        ensures
            final(self).wf(),
            match updated(old(self)@, id, cs@) {
                Some(m) => final(self)@ == m && result_view(r) == Ok::<
                    ChallengeView,
                    ChallengeError,
                >(m[id]),
                None => final(self)@ == old(self)@ && r == Err::<Challenge, ChallengeError>(
                    ChallengeError::NotFound,
                ),
            },
            r is Ok ==> r->Ok_0@.id == id,
    {
        proof {
            old(self).lemma_keyed_by_id();
        }
        match self.position(id) {
            Some(i) => {
                if self.rows[i].is_deleted() {
                    return Err(ChallengeError::NotFound);
                }
                let mut c = self.rows[i].snapshot();
                merge_into(&mut c, cs);
                let out = c.snapshot();
                let ghost before = *self;
                self.rows.set(i, c);
                proof {
                    before.lemma_replace(self, i as int);
                }
                Ok(out)
            },
            None => Err(ChallengeError::NotFound),
        }
    }

    /// Marks the live record `id` as deleted at time `at`.
    pub fn soft_delete(&mut self, id: ChallengeId, at: i64) -> (r: Result<(), ChallengeError>)
        requires
            old(self).wf(),
        ensures
            final(self).wf(),
            match deleted(old(self)@, id, at) {
                Some(m) => final(self)@ == m && r is Ok,
                None => final(self)@ == old(self)@ && r == Err::<(), ChallengeError>(
                    ChallengeError::NotFound,
                ),
            },
    {
        match self.position(id) {
            Some(i) => {
                if self.rows[i].is_deleted() {
                    return Err(ChallengeError::NotFound);
                }
                let mut c = self.rows[i].snapshot();
                c.deleted_at = Some(at);
                let ghost before = *self;
                self.rows.set(i, c);
                proof {
                    before.lemma_replace(self, i as int);
                }
                Ok(())
            },
            None => Err(ChallengeError::NotFound),
        }
    }
}

impl View for ChallengeStore {
    type V = Map<ChallengeId, ChallengeView>;

    closed spec fn view(&self) -> Map<ChallengeId, ChallengeView> {
        Map::new(|id: ChallengeId| self.has_row(id), |id: ChallengeId| self.rows@[self.row_index(id)]@)
    }
}

} // verus!
