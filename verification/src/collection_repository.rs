//! The collection repository: create, update, find-by-id, list-all and
//! count-by-identifier over the collection entity family.
//!
//! Every operation takes the storage handle explicitly; uniqueness of the
//! collection identifier is enforced at insert and update time, surfacing
//! `Conflict`, and is never left to a pre-flight count alone.

use vstd::prelude::*;
use crate::Error;
use crate::model::{
    Collection, CollectionV, CreatableCollection, ModelCount, Store, UpdatableCollection,
    col_by_identifier, col_idx, cols_v, count_col_ident, lemma_col_by_identifier_props,
    lemma_col_idx_props, lemma_count_col_ident_push, store_wf,
};

verus! {

/// The repository for the collection entity family.
pub struct CollectionRepository {}

impl CollectionRepository {
    pub fn new() -> (r: CollectionRepository) {
        CollectionRepository {  }
    }

    /// Every collection, in storage order: id ascending, deterministic
    /// across calls.
    #[verifier::loop_isolation(false)]
    pub fn all_collection(&self, store: &Store) -> (r: Vec<Collection>)
        ensures
            cols_v(r@) == store@.collections,
    {
        let mut out: Vec<Collection> = Vec::new();
        let n = store.collections.len();
        for i in 0..n
            invariant
                n == store.collections@.len(),
                out@.len() == i,
                forall|j: int| #![trigger out@[j]] 0 <= j < i ==> out@[j]@ == store@.collections[j],
        {
            let c = store.collections[i].duplicate();
            out.push(c);
        }
        proof {
            assert(cols_v(out@) =~= store@.collections);
        }
        out
    }

    /// Exact lookup by id; `NotFound` exactly when no collection has the
    /// id.
    #[verifier::loop_isolation(false)]
    pub fn find_by_id(&self, store: &Store, id: u64) -> (r: Result<Collection, Error>)
        ensures
            match r {
                Ok(c) => col_idx(store@.collections, id) is Some && c@ == store@.collections[col_idx(
                    store@.collections,
                    id,
                )->Some_0],
                Err(e) => e == Error::NotFound && col_idx(store@.collections, id) is None,
            },
    {
        proof {
            lemma_col_idx_props(store@.collections, id);
        }
        let n = store.collections.len();
        for i in 0..n
            invariant
                n == store.collections@.len(),
                forall|j: int| 0 <= j < i ==> (#[trigger] store@.collections[j].id) != id,
        {
            if store.collections[i].id == id {
                proof {
                    lemma_col_idx_first(store@.collections, id, i as int);
                }
                return Ok(store.collections[i].duplicate());
            }
        }
        Err(Error::NotFound)
    }

    /// Inserts a new collection; `Conflict` exactly when the identifier is
    /// already taken. The new entity takes the next server-assigned id and
    /// is stamped with the acting user and the supplied clock reading.
    #[verifier::loop_isolation(false)]
    pub fn create_collection(
        &self,
        store: &mut Store,
        creatable: CreatableCollection,
        now: u64,
    ) -> (r: Result<Collection, Error>)
        requires
            store_wf(old(store)@),
            old(store).next_collection_id < u64::MAX,
        ensures
            store_wf(final(store)@),
            match r {
                Ok(c) => {
                    &&& col_by_identifier(old(store)@.collections, creatable.identifier@) is None
                    &&& c@ == (CollectionV {
                        id: old(store)@.next_collection_id,
                        name: creatable.name@,
                        identifier: creatable.identifier@,
                        created_at: now,
                        updated_at: now,
                        created_by: creatable.logged_in_username@,
                        updated_by: creatable.logged_in_username@,
                    })
                    &&& final(store)@.collections == old(store)@.collections.push(c@)
                    &&& final(store)@.contents == old(store)@.contents
                    &&& final(store)@.next_collection_id == old(store)@.next_collection_id + 1
                    &&& final(store)@.next_content_id == old(store)@.next_content_id
                },
                Err(e) => {
                    &&& e == Error::Conflict
                    &&& col_by_identifier(old(store)@.collections, creatable.identifier@) is Some
                    &&& final(store)@ == old(store)@
                },
            },
    {
        proof {
            lemma_col_by_identifier_props(old(store)@.collections, creatable.identifier@);
        }
        let n = store.collections.len();
        for i in 0..n
            invariant
                forall|j: int|
                    0 <= j < i ==> (#[trigger] store@.collections[j].identifier)
                        != creatable.identifier@,
        {
            if store.collections[i].identifier == creatable.identifier {
                proof {
                    assert(old(store)@.collections[i as int].identifier == creatable.identifier@);
                    assert(col_by_identifier(old(store)@.collections, creatable.identifier@)
                        is Some);
                }
                return Err(Error::Conflict);
            }
        }
        let c = Collection {
            id: store.next_collection_id,
            name: creatable.name,
            identifier: creatable.identifier,
            created_at: now,
            updated_at: now,
            created_by: creatable.logged_in_username.clone(),
            updated_by: creatable.logged_in_username,
        };
        let result = c.duplicate();
        store.collections.push(c);
        store.next_collection_id = store.next_collection_id + 1;
        proof {
            let s0 = old(store)@.collections;
            let s1 = final(store)@.collections;
            assert(final(store)@.contents == old(store)@.contents);
            assert(s1 =~= s0.push(result@));
            assert forall|i: int, j: int| 0 <= i < j < s1.len() implies s1[i].id < s1[j].id by {
                if j < s0.len() {
                    assert(s0[i].id < s0[j].id);
                } else {
                    assert(s0[i].id < old(store)@.next_collection_id);
                }
            }
            assert forall|i: int, j: int|
                0 <= i < j < s1.len() implies s1[i].identifier != s1[j].identifier by {
                if j < s0.len() {
                    assert(s0[i].identifier != s0[j].identifier);
                } else {
                    assert(s0[i].identifier != creatable.identifier@);
                }
            }
            assert forall|i: int|
                0 <= i < s1.len() implies s1[i].id < final(store)@.next_collection_id by {
                if i < s0.len() {
                    assert(s0[i].id < old(store)@.next_collection_id);
                }
            }
        }
        Ok(result)
    }

    /// Full replacement of a collection's name and identifier. `NotFound`
    /// exactly when the id is absent; `Conflict` exactly when the new
    /// identifier belongs to a different collection. Creation metadata is
    /// kept; the update stamp advances.
    #[verifier::loop_isolation(false)]
    pub fn update_collection(
        &self,
        store: &mut Store,
        updatable: UpdatableCollection,
        now: u64,
    ) -> (r: Result<Collection, Error>)
        requires
            store_wf(old(store)@),
        ensures
            store_wf(final(store)@),
            match r {
                Ok(c) => {
                    let s0 = old(store)@.collections;
                    let i = col_idx(s0, updatable.id)->Some_0;
                    &&& col_idx(s0, updatable.id) is Some
                    &&& forall|j: int|
                        0 <= j < s0.len() && j != i ==> (#[trigger] s0[j].identifier)
                            != updatable.identifier@
                    &&& c@ == (CollectionV {
                        id: updatable.id,
                        name: updatable.name@,
                        identifier: updatable.identifier@,
                        created_at: s0[i].created_at,
                        updated_at: now,
                        created_by: s0[i].created_by,
                        updated_by: updatable.logged_in_username@,
                    })
                    &&& final(store)@.collections == s0.update(i, c@)
                    &&& final(store)@.contents == old(store)@.contents
                    &&& final(store)@.next_collection_id == old(store)@.next_collection_id
                    &&& final(store)@.next_content_id == old(store)@.next_content_id
                },
                Err(e) => {
                    &&& final(store)@ == old(store)@
                    &&& (e == Error::NotFound || e == Error::Conflict)
                    &&& (e == Error::NotFound <==> col_idx(
                        old(store)@.collections,
                        updatable.id,
                    ) is None)
                    &&& (e == Error::Conflict ==> exists|j: int|
                        0 <= j < old(store)@.collections.len() && j != col_idx(
                            old(store)@.collections,
                            updatable.id,
                        )->Some_0 && (#[trigger] old(store)@.collections[j].identifier)
                            == updatable.identifier@)
                },
            },
    {
        proof {
            lemma_col_idx_props(store@.collections, updatable.id);
        }
        let n = store.collections.len();
        let mut found: usize = 0;
        let mut has_found: bool = false;
        for i in 0..n
            invariant
                has_found ==> found < i && store@.collections[found as int].id == updatable.id
                    && col_idx(store@.collections, updatable.id) == Some(found as int),
                !has_found ==> forall|j: int|
                    0 <= j < i ==> (#[trigger] store@.collections[j].id) != updatable.id,
        {
            if !has_found && store.collections[i].id == updatable.id {
                found = i;
                has_found = true;
                proof {
                    lemma_col_idx_first(store@.collections, updatable.id, i as int);
                }
            }
        }
        if !has_found {
            return Err(Error::NotFound);
        }
        for j in 0..n
            invariant
                found < n,
                col_idx(store@.collections, updatable.id) == Some(found as int),
                forall|k: int|
                    0 <= k < j && k != found ==> (#[trigger] store@.collections[k].identifier)
                        != updatable.identifier@,
        {
            if j != found && store.collections[j].identifier == updatable.identifier {
                proof {
                    assert(old(store)@.collections[j as int].identifier == updatable.identifier@);
                }
                return Err(Error::Conflict);
            }
        }
        let prior = &store.collections[found];
        let c = Collection {
            id: updatable.id,
            name: updatable.name,
            identifier: updatable.identifier,
            created_at: prior.created_at,
            updated_at: now,
            created_by: prior.created_by.clone(),
            updated_by: updatable.logged_in_username,
        };
        let result = c.duplicate();
        store.collections.set(found, c);
        proof {
            let s0 = old(store)@.collections;
            let s1 = final(store)@.collections;
            let f = found as int;
            assert(final(store)@.contents == old(store)@.contents);
            assert(s1 =~= s0.update(f, result@));
            assert forall|i: int, j: int| 0 <= i < j < s1.len() implies s1[i].id < s1[j].id by {
                assert(s0[i].id < s0[j].id);
                assert(s1[i].id == s0[i].id && s1[j].id == s0[j].id);
            }
            assert forall|i: int, j: int|
                0 <= i < j < s1.len() implies s1[i].identifier != s1[j].identifier by {
                if i != f && j != f {
                    assert(s0[i].identifier != s0[j].identifier);
                } else if i == f {
                    assert(s0[j].identifier != updatable.identifier@);
                } else {
                    assert(s0[i].identifier != updatable.identifier@);
                }
            }
            assert forall|i: int|
                0 <= i < s1.len() implies s1[i].id < final(store)@.next_collection_id by {
                assert(s0[i].id < old(store)@.next_collection_id);
            }
        }
        Ok(result)
    }

    /// The pre-flight existence check: how many collections hold the
    /// identifier exactly.
    #[verifier::loop_isolation(false)]
    pub fn count_of_identifier(&self, store: &Store, identifier: &String) -> (r: ModelCount)
        ensures
            r.total == count_col_ident(store@.collections, identifier@),
    {
        let n = store.collections.len();
        let mut count: u64 = 0;
        for i in 0..n
            invariant
                count <= i,
                count == count_col_ident(store@.collections.take(i as int), identifier@),
        {
            let matched = store.collections[i].identifier == *identifier;
            proof {
                let s = store@.collections;
                let x = s[i as int];
                assert(s.take(i as int + 1) =~= s.take(i as int).push(x));
                lemma_count_col_ident_push(s.take(i as int), identifier@, x);
            }
            if matched {
                count = count + 1;
            }
        }
        proof {
            assert(store@.collections.take(n as int) =~= store@.collections);
        }
        ModelCount { total: count }
    }
}

/// When the entity at `i` is the first hit of a scan by id, `col_idx`
/// agrees with `i`.
pub proof fn lemma_col_idx_first(s: Seq<CollectionV>, id: u64, i: int)
    requires
        0 <= i < s.len(),
        s[i].id == id,
        forall|j: int| 0 <= j < i ==> (#[trigger] s[j].id) != id,
    ensures
        col_idx(s, id) == Some(i),
    decreases i,
{
    if i > 0 {
        assert(forall|j: int| 0 <= j < s.drop_first().len() ==> s.drop_first()[j] == s[j + 1]);
        lemma_col_idx_first(s.drop_first(), id, i - 1);
    }
}

} // verus!
