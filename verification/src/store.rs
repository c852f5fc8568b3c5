//! The assignment store: the durable link between one source ticket and
//! its mirrored target issue.  A source ticket id maps to at most one
//! assignment, and an assignment whose target id is still unset stands
//! for a creation that has not completed.  The store alone enforces that
//! uniqueness; its view is the map from source ticket id to the optional
//! target issue id.

use vstd::prelude::*;

verus! {

/// The ways a store operation can fail.
#[derive(Debug, Clone, Copy, PartialEq, Eq, Structural)]
pub enum StoreError {
    /// An assignment for the source ticket already exists; a retried
    /// creation webhook is expected to land here and is benign.
    DuplicateSourceTicket,
    /// No assignment exists for the given id.
    NotFound,
    /// The assignment exists but its target id is still unset: the
    /// remote create call has not completed.
    PendingCreation,
}

/// One durable link: a row of the store.
#[derive(Debug, Clone, Copy, PartialEq, Eq, Structural)]
pub struct Assignment {
    /// Opaque identifier of the row itself, assigned at creation,
    /// immutable.
    pub id: u64,
    /// Identifier of the ticket in the source system; unique across all
    /// assignments.
    pub zammad_id: i32,
    /// Identifier of the mirrored issue in the target system; unset
    /// until the remote create call has succeeded.
    pub jira_id: Option<i32>,
}

/// The map a row list denotes: each source ticket id to the target id of
/// its (unique) row.
pub open spec fn map_of(rows: Seq<Assignment>) -> Map<i32, Option<i32>>
    decreases rows.len(),
{
    if rows.len() == 0 {
        Map::<i32, Option<i32>>::empty()
    } else {
        map_of(rows.drop_last()).insert(rows.last().zammad_id, rows.last().jira_id)
    }
}

/// Row lists with pairwise distinct source ticket ids.
pub open spec fn unique_sources(rows: Seq<Assignment>) -> bool {
    forall|i: int, j: int|
        0 <= i < j < rows.len() ==> rows[i].zammad_id != rows[j].zammad_id
}

/// With distinct source ids, the denoted map contains exactly the rows'
/// source ids, and maps each to that row's target id.
proof fn lemma_map_of_rows(rows: Seq<Assignment>)
    requires
        unique_sources(rows),
    ensures
        forall|z: i32|
            map_of(rows).dom().contains(z) <==> exists|i: int|
                0 <= i < rows.len() && #[trigger] rows[i].zammad_id == z,
        forall|i: int|
            0 <= i < rows.len() ==> map_of(rows).dom().contains(#[trigger] rows[i].zammad_id)
                && map_of(rows)[rows[i].zammad_id] == rows[i].jira_id,
    decreases rows.len(),
{
    if rows.len() > 0 {
        let prefix = rows.drop_last();
        lemma_map_of_rows(prefix);
        assert forall|i: int|
            0 <= i < rows.len() implies map_of(rows).dom().contains(
            #[trigger] rows[i].zammad_id,
        ) && map_of(rows)[rows[i].zammad_id] == rows[i].jira_id by {
            if i < rows.len() - 1 {
                assert(prefix[i] == rows[i]);
                assert(rows[i].zammad_id != rows.last().zammad_id);
            }
        }
        assert forall|z: i32| map_of(rows).dom().contains(z) implies exists|i: int|
            0 <= i < rows.len() && #[trigger] rows[i].zammad_id == z by {
            if z == rows.last().zammad_id {
                assert(rows[rows.len() - 1].zammad_id == z);
            } else {
                let i = choose|i: int| 0 <= i < prefix.len() && #[trigger] prefix[i].zammad_id
                    == z;
                assert(rows[i].zammad_id == z);
            }
        }
    }
}

/// Replacing one row with another that keeps its source id rewrites
/// exactly that id's entry of the denoted map.
proof fn lemma_map_of_update(rows: Seq<Assignment>, i: int, row: Assignment)
    requires
        unique_sources(rows),
        0 <= i < rows.len(),
        row.zammad_id == rows[i].zammad_id,
    ensures
        map_of(rows.update(i, row)) == map_of(rows).insert(row.zammad_id, row.jira_id),
{
    let updated = rows.update(i, row);
    assert(unique_sources(updated)) by {
        assert forall|p: int, q: int|
            0 <= p < q < updated.len() implies updated[p].zammad_id != updated[q].zammad_id by {
            assert(updated[p].zammad_id == rows[p].zammad_id);
            assert(updated[q].zammad_id == rows[q].zammad_id);
        }
    }
    lemma_map_of_rows(rows);
    lemma_map_of_rows(updated);
    let expected = map_of(rows).insert(row.zammad_id, row.jira_id);
    assert forall|z: i32|
        map_of(updated).dom().contains(z) implies expected.dom().contains(z) by {
        let k = choose|k: int| 0 <= k < updated.len() && #[trigger] updated[k].zammad_id == z;
        assert(rows[k].zammad_id == z);
    }
    assert forall|z: i32|
        expected.dom().contains(z) implies map_of(updated).dom().contains(z) by {
        if z != row.zammad_id {
            let k = choose|k: int| 0 <= k < rows.len() && #[trigger] rows[k].zammad_id == z;
            assert(updated[k].zammad_id == z);
        } else {
            assert(updated[i].zammad_id == z);
        }
    }
    assert forall|z: i32|
        map_of(updated).dom().contains(z) implies map_of(updated)[z] == expected[z] by {
        if z == row.zammad_id {
            assert(updated[i].zammad_id == z);
            assert(map_of(updated)[z] == updated[i].jira_id);
        } else {
            let k = choose|k: int| 0 <= k < updated.len() && #[trigger] updated[k].zammad_id == z;
            assert(k != i);
            assert(rows[k] == updated[k]);
            assert(map_of(rows)[z] == rows[k].jira_id);
        }
    }
    assert(map_of(updated) =~= expected);
}

/// The in-memory assignment store.  A persistence backend may mirror its
/// rows; the uniqueness invariant is enforced here, not by callers.
pub struct AssignmentStore {
    rows: Vec<Assignment>,
}

impl View for AssignmentStore {
    type V = Map<i32, Option<i32>>;

    closed spec fn view(&self) -> Map<i32, Option<i32>> {
        map_of(self.rows@)
    }
}

impl AssignmentStore {
    /// The rows in creation order.
    pub closed spec fn entries(self) -> Seq<Assignment> {
        self.rows@
    }

    /// Well-formed store: source ids pairwise distinct, and each row's
    /// opaque id is its creation rank.
    pub closed spec fn wf(self) -> bool {
        &&& unique_sources(self.rows@)
        &&& forall|i: int| 0 <= i < self.rows@.len() ==> self.rows@[i].id == i as u64
    }

    /// Creates an empty store.
    pub fn new() -> (s: Self)
        ensures
            s.wf(),
            s@ == Map::<i32, Option<i32>>::empty(),
            s.entries() == Seq::<Assignment>::empty(),
    {
        let s = AssignmentStore { rows: Vec::new() };
        proof {
            assert(s.rows@ =~= Seq::<Assignment>::empty());
        }
        s
    }

    /// The index of the row for `zammad_id`, if one exists.
    fn find_index(&self, zammad_id: i32) -> (r: Option<usize>)
        ensures
            match r {
                Some(i) => i < self.rows@.len() && self.rows@[i as int].zammad_id == zammad_id,
                None => forall|i: int|
                    0 <= i < self.rows@.len() ==> self.rows@[i].zammad_id != zammad_id,
            },
    {
        let n = self.rows.len();
        let mut i: usize = 0;
        while i < n
            invariant
                n == self.rows@.len(),
                i <= n,
                forall|j: int| 0 <= j < i ==> self.rows@[j].zammad_id != zammad_id,
            decreases n - i,
        {
            if self.rows[i].zammad_id == zammad_id {
                return Some(i);
            }
            i = i + 1;
        }
        None
    }

    /// Inserts a new pending assignment (target id unset) for a source
    /// ticket, returning the new row's opaque id, unless one already
    /// exists: the guard that makes creation idempotent under retried
    /// webhooks.  Succeeds if and only if the id was not yet assigned.
    pub fn create_pending(&mut self, zammad_id: i32) -> (r: Result<u64, StoreError>)
        requires
            old(self).wf(),
        ensures
            final(self).wf(),
            old(self)@.dom().contains(zammad_id) ==> r == Err::<u64, StoreError>(
                StoreError::DuplicateSourceTicket,
            ) && final(self)@ == old(self)@ && final(self).entries() == old(self).entries(),
            !old(self)@.dom().contains(zammad_id) ==> r == Ok::<u64, StoreError>(
                old(self).entries().len() as u64,
            ) && final(self)@ == old(self)@.insert(zammad_id, None::<i32>) && final(self).entries()
                == old(self).entries().push(
                Assignment {
                    id: old(self).entries().len() as u64,
                    zammad_id,
                    jira_id: None::<i32>,
                },
            ),
    {
        proof {
            lemma_map_of_rows(self.rows@);
        }
        match self.find_index(zammad_id) {
            Some(_) => Err(StoreError::DuplicateSourceTicket),
            None => {
                let id = self.rows.len() as u64;
                let row = Assignment { id, zammad_id, jira_id: None };
                self.rows.push(row);
                proof {
                    assert(self.rows@.drop_last() =~= old(self).rows@);
                    assert(self.rows@.last() == row);
                }
                Ok(id)
            },
        }
    }

    /// Fills in the target issue id of the existing assignment for a
    /// source ticket; reports `NotFound` when no assignment exists.
    pub fn attach_target(&mut self, zammad_id: i32, jira_id: i32) -> (r: Result<(), StoreError>)
        requires
            old(self).wf(),
        ensures
            final(self).wf(),
            !old(self)@.dom().contains(zammad_id) ==> r == Err::<(), StoreError>(
                StoreError::NotFound,
            ) && final(self)@ == old(self)@ && final(self).entries() == old(self).entries(),
            old(self)@.dom().contains(zammad_id) ==> r == Ok::<(), StoreError>(()) && final(self)@
                == old(self)@.insert(zammad_id, Some(jira_id)),
            final(self).entries().len() == old(self).entries().len(),
            forall|k: int|
                0 <= k < old(self).entries().len() && old(self).entries()[k].zammad_id != zammad_id
                    ==> final(self).entries()[k] == old(self).entries()[k],
            forall|k: int|
                0 <= k < old(self).entries().len() && old(self).entries()[k].zammad_id == zammad_id
                    ==> final(self).entries()[k] == (Assignment {
                    id: old(self).entries()[k].id,
                    zammad_id,
                    jira_id: Some(jira_id),
                }),
    {
        proof {
            lemma_map_of_rows(self.rows@);
        }
        match self.find_index(zammad_id) {
            None => Err(StoreError::NotFound),
            Some(i) => {
                let row = Assignment {
                    id: self.rows[i].id,
                    zammad_id,
                    jira_id: Some(jira_id),
                };
                proof {
                    lemma_map_of_update(self.rows@, i as int, row);
                }
                self.rows.set(i, row);
                proof {
                    assert forall|p: int, q: int|
                        0 <= p < q < self.rows@.len() implies self.rows@[p].zammad_id
                        != self.rows@[q].zammad_id by {
                        assert(self.rows@[p].zammad_id == old(self).rows@[p].zammad_id);
                        assert(self.rows@[q].zammad_id == old(self).rows@[q].zammad_id);
                    }
                }
                Ok(())
            },
        }
    }

    /// Looks up the target issue id for a source ticket: `NotFound` when
    /// no assignment exists, `PendingCreation` when one exists whose
    /// target id is still unset, and the target id otherwise.
    pub fn resolve_target(&self, zammad_id: i32) -> (r: Result<i32, StoreError>)
        requires
            self.wf(),
        ensures
            !self@.dom().contains(zammad_id) ==> r == Err::<i32, StoreError>(StoreError::NotFound),
            self@.dom().contains(zammad_id) && self@[zammad_id] is None ==> r == Err::<
                i32,
                StoreError,
            >(StoreError::PendingCreation),
            self@.dom().contains(zammad_id) && self@[zammad_id] is Some ==> r == Ok::<
                i32,
                StoreError,
            >(self@[zammad_id]->0),
    {
        proof {
            lemma_map_of_rows(self.rows@);
        }
        match self.find_index(zammad_id) {
            None => Err(StoreError::NotFound),
            Some(i) => match self.rows[i].jira_id {
                None => Err(StoreError::PendingCreation),
                Some(jira_id) => Ok(jira_id),
            },
        }
    }

    /// Looks up, in the opposite direction, a source ticket whose
    /// assignment carries the given target issue id; `NotFound` when no
    /// assignment does.
    pub fn resolve_source(&self, jira_id: i32) -> (r: Result<i32, StoreError>)
        requires
            self.wf(),
        ensures
            (r is Ok) <==> exists|z: i32|
                #![trigger self@[z]]
                self@.dom().contains(z) && self@[z] == Some(jira_id),
            r matches Ok(z) ==> self@.dom().contains(z) && self@[z] == Some(jira_id),
            r is Err ==> r == Err::<i32, StoreError>(StoreError::NotFound),
    {
        proof {
            lemma_map_of_rows(self.rows@);
        }
        let n = self.rows.len();
        let mut i: usize = 0;
        while i < n
            invariant
                self.wf(),
                n == self.rows@.len(),
                i <= n,
                forall|j: int| 0 <= j < i ==> self.rows@[j].jira_id != Some(jira_id),
            decreases n - i,
        {
            let matches_target = match self.rows[i].jira_id {
                Some(t) => t == jira_id,
                None => false,
            };
            if matches_target {
                let z = self.rows[i].zammad_id;
                proof {
                    lemma_map_of_rows(self.rows@);
                    assert(self@.dom().contains(z) && self@[z] == Some(jira_id));
                }
                return Ok(z);
            }
            i = i + 1;
        }
        proof {
            assert forall|z: i32|
                self@.dom().contains(z) implies self@[z] != Some(jira_id) by {
                let k = choose|k: int|
                    0 <= k < self.rows@.len() && #[trigger] self.rows@[k].zammad_id == z;
                assert(self@[z] == self.rows@[k].jira_id);
            }
        }
        Err(StoreError::NotFound)
    }

    /// The number of assignments ever created.
    pub fn assignment_count(&self) -> (r: usize)
        ensures
            r == self.entries().len(),
    {
        self.rows.len()
    }

    /// The assignment at a creation-order position.
    pub fn assignment_at(&self, i: usize) -> (r: Assignment)
        requires
            i < self.entries().len(),
        ensures
            r == self.entries()[i as int],
    {
        self.rows[i]
    }
}

/// Law: creating a pending assignment for a source ticket id not yet in
/// the store succeeds and puts the id into the store's map, so by
/// [`AssignmentStore::create_pending`]'s contract an immediately repeated
/// creation for the same id must report `DuplicateSourceTicket`: of two
/// such calls, exactly the first succeeds.
pub proof fn lemma_create_pending_twice(m: Map<i32, Option<i32>>, zammad_id: i32)
    requires
        !m.dom().contains(zammad_id),
    ensures
        m.insert(zammad_id, None::<i32>).dom().contains(zammad_id),
{
}

} // verus!
