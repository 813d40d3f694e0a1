//! The content repository: create, whole-record update, identifier-only
//! rename, delete, exact lookups, and the count queries over content
//! entities. The content type is a hard scope filter on every operation.
//!
//! Uniqueness of the (content type, identifier) pair is enforced at insert
//! and rename time, surfacing `Conflict`; deleting an absent entity
//! returns `false` rather than an error.

use vstd::prelude::*;
use crate::{Error, PER_PAGE};
use crate::order::{ContentOrder, sorted_by_order, sort_contents};
use crate::field::fields_v;
use crate::model::{
    Content, ContentV, CreatableContentModel, ModelCount, PutContentIdentifierModel, Store,
    UpdatableContentModel, content_ident_idx, content_idx, contents_of_type, contents_v,
    count_content_ident, lemma_content_ident_idx_props, lemma_content_idx_props,
    lemma_contents_of_type_push, lemma_count_content_ident_push, store_wf,
};

verus! {

/// The repository for the content entity family.
pub struct ContentRepository {}

impl ContentRepository {
    pub fn new() -> (r: ContentRepository) {
        ContentRepository {  }
    }

    /// How many content entities live under the collection identifier.
    #[verifier::loop_isolation(false)]
    pub fn get_total_count(&self, store: &Store, content_type: &String) -> (r: ModelCount)
        ensures
            r.total == contents_of_type(store@.contents, content_type@).len(),
    {
        let n = store.contents.len();
        let mut count: u64 = 0;
        for i in 0..n
            invariant
                count <= i,
                count == contents_of_type(store@.contents.take(i as int), content_type@).len(),
        {
            let matched = store.contents[i].content_type == *content_type;
            proof {
                let s = store@.contents;
                let x = s[i as int];
                assert(s.take(i as int + 1) =~= s.take(i as int).push(x));
                lemma_contents_of_type_push(s.take(i as int), content_type@, x);
            }
            if matched {
                count = count + 1;
            }
        }
        proof {
            assert(store@.contents.take(n as int) =~= store@.contents);
        }
        ModelCount { total: count }
    }

    /// The pre-flight existence check: how many content entities under the
    /// content type hold the identifier exactly.
    #[verifier::loop_isolation(false)]
    pub fn count_of_identifier(
        &self,
        store: &Store,
        content_type: &String,
        identifier: &String,
    ) -> (r: ModelCount)
        ensures
            r.total == count_content_ident(store@.contents, content_type@, identifier@),
    {
        let n = store.contents.len();
        let mut count: u64 = 0;
        for i in 0..n
            invariant
                count <= i,
                count == count_content_ident(
                    store@.contents.take(i as int),
                    content_type@,
                    identifier@,
                ),
        {
            let matched = store.contents[i].content_type == *content_type
                && store.contents[i].identifier == *identifier;
            proof {
                let s = store@.contents;
                let x = s[i as int];
                assert(s.take(i as int + 1) =~= s.take(i as int).push(x));
                lemma_count_content_ident_push(s.take(i as int), content_type@, identifier@, x);
            }
            if matched {
                count = count + 1;
            }
        }
        proof {
            assert(store@.contents.take(n as int) =~= store@.contents);
        }
        ModelCount { total: count }
    }

    /// Exact lookup by id, scoped by content type: an entity stored under
    /// another content type is `NotFound`.
    #[verifier::loop_isolation(false)]
    pub fn find_by_id(&self, store: &Store, content_type: &String, id: u64) -> (r: Result<
        Content,
        Error,
    >)
        ensures
            match r {
                Ok(c) => content_idx(store@.contents, content_type@, id) is Some && c@
                    == store@.contents[content_idx(store@.contents, content_type@, id)->Some_0],
                Err(e) => e == Error::NotFound && content_idx(
                    store@.contents,
                    content_type@,
                    id,
                ) is None,
            },
    {
        proof {
            lemma_content_idx_props(store@.contents, content_type@, id);
        }
        let n = store.contents.len();
        for i in 0..n
            invariant
                forall|j: int| #![trigger store@.contents[j]]
                    0 <= j < i ==> !(store@.contents[j].id == id && store@.contents[j].content_type
                        == content_type@),
        {
            if store.contents[i].id == id && store.contents[i].content_type == *content_type {
                proof {
                    lemma_content_idx_first(store@.contents, content_type@, id, i as int);
                }
                return Ok(store.contents[i].duplicate());
            }
        }
        Err(Error::NotFound)
    }

    /// Exact lookup by identifier, scoped by content type.
    #[verifier::loop_isolation(false)]
    pub fn find_by_identifier(&self, store: &Store, content_type: &String, identifier: &String) -> (r:
        Result<Content, Error>)
        ensures
            match r {
                Ok(c) => content_ident_idx(store@.contents, content_type@, identifier@) is Some
                    && c@ == store@.contents[content_ident_idx(
                    store@.contents,
                    content_type@,
                    identifier@,
                )->Some_0],
                Err(e) => e == Error::NotFound && content_ident_idx(
                    store@.contents,
                    content_type@,
                    identifier@,
                ) is None,
            },
    {
        proof {
            lemma_content_ident_idx_props(store@.contents, content_type@, identifier@);
        }
        let n = store.contents.len();
        for i in 0..n
            invariant
                forall|j: int| #![trigger store@.contents[j]]
                    0 <= j < i ==> !(store@.contents[j].content_type == content_type@
                        && store@.contents[j].identifier == identifier@),
        {
            if store.contents[i].content_type == *content_type && store.contents[i].identifier
                == *identifier {
                proof {
                    lemma_content_ident_idx_first(
                        store@.contents,
                        content_type@,
                        identifier@,
                        i as int,
                    );
                }
                return Ok(store.contents[i].duplicate());
            }
        }
        Err(Error::NotFound)
    }

    /// Inserts a new content entity; `Conflict` exactly when the
    /// (content type, identifier) pair is already taken. The field list
    /// must have passed the field type system.
    #[verifier::loop_isolation(false)]
    pub fn create_content(
        &self,
        store: &mut Store,
        creatable: CreatableContentModel,
        now: u64,
    ) -> (r: Result<Content, Error>)
        requires
            store_wf(old(store)@),
            old(store).next_content_id < u64::MAX,
            crate::field::fields_v_wf(fields_v(creatable.content_fields@)),
        ensures
            store_wf(final(store)@),
            match r {
                Ok(c) => {
                    &&& content_ident_idx(
                        old(store)@.contents,
                        creatable.content_type@,
                        creatable.identifier@,
                    ) is None
                    &&& c@ == (ContentV {
                        id: old(store)@.next_content_id,
                        name: creatable.name@,
                        identifier: creatable.identifier@,
                        content_type: creatable.content_type@,
                        fields: fields_v(creatable.content_fields@),
                        created_at: now,
                        updated_at: now,
                        created_by: creatable.logged_in_username@,
                        updated_by: creatable.logged_in_username@,
                    })
                    &&& final(store)@.contents == old(store)@.contents.push(c@)
                    &&& final(store)@.collections == old(store)@.collections
                    &&& final(store)@.next_content_id == old(store)@.next_content_id + 1
                    &&& final(store)@.next_collection_id == old(store)@.next_collection_id
                },
                Err(e) => {
                    &&& e == Error::Conflict
                    &&& content_ident_idx(
                        old(store)@.contents,
                        creatable.content_type@,
                        creatable.identifier@,
                    ) is Some
                    &&& final(store)@ == old(store)@
                },
            },
    {
        proof {
            lemma_content_ident_idx_props(
                old(store)@.contents,
                creatable.content_type@,
                creatable.identifier@,
            );
        }
        let n = store.contents.len();
        for i in 0..n
            invariant
                forall|j: int| #![trigger store@.contents[j]]
                    0 <= j < i ==> !(store@.contents[j].content_type == creatable.content_type@
                        && store@.contents[j].identifier == creatable.identifier@),
        {
            if store.contents[i].content_type == creatable.content_type
                && store.contents[i].identifier == creatable.identifier {
                proof {
                    assert(old(store)@.contents[i as int].content_type == creatable.content_type@
                        && old(store)@.contents[i as int].identifier == creatable.identifier@);
                }
                return Err(Error::Conflict);
            }
        }
        let c = Content {
            id: store.next_content_id,
            name: creatable.name,
            identifier: creatable.identifier,
            content_type: creatable.content_type,
            content_fields: creatable.content_fields,
            created_at: now,
            updated_at: now,
            created_by: creatable.logged_in_username.clone(),
            updated_by: creatable.logged_in_username,
        };
        let result = c.duplicate();
        store.contents.push(c);
        store.next_content_id = store.next_content_id + 1;
        proof {
            let s0 = old(store)@.contents;
            let s1 = final(store)@.contents;
            assert(final(store)@.collections == old(store)@.collections);
            assert(s1 =~= s0.push(result@));
            assert forall|i: int, j: int| 0 <= i < j < s1.len() implies s1[i].id < s1[j].id by {
                if j < s0.len() {
                    assert(s0[i].id < s0[j].id);
                } else {
                    assert(s0[i].id < old(store)@.next_content_id);
                }
            }
            assert forall|i: int, j: int|
                #![trigger s1[i], s1[j]]
                0 <= i < j < s1.len() implies !(s1[i].content_type == s1[j].content_type
                && s1[i].identifier == s1[j].identifier) by {
                if j < s0.len() {
                    assert(!(s0[i].content_type == s0[j].content_type && s0[i].identifier
                        == s0[j].identifier));
                } else {
                    assert(!(s0[i].content_type == creatable.content_type@ && s0[i].identifier
                        == creatable.identifier@));
                }
            }
            assert forall|i: int|
                0 <= i < s1.len() implies s1[i].id < final(store)@.next_content_id by {
                if i < s0.len() {
                    assert(s0[i].id < old(store)@.next_content_id);
                }
            }
            assert forall|i: int|
                0 <= i < s1.len() implies crate::field::fields_v_wf(s1[i].fields) by {
                if i < s0.len() {
                    assert(crate::field::fields_v_wf(s0[i].fields));
                }
            }
        }
        Ok(result)
    }

    /// Whole-record replacement of a content entity's name and field list;
    /// the identifier and the creation metadata are kept, the update stamp
    /// advances. `NotFound` exactly when the (content type, id) pair is
    /// absent.
    #[verifier::loop_isolation(false)]
    pub fn update_content(
        &self,
        store: &mut Store,
        updatable: UpdatableContentModel,
        now: u64,
    ) -> (r: Result<Content, Error>)
        requires
            store_wf(old(store)@),
            crate::field::fields_v_wf(fields_v(updatable.content_fields@)),
        ensures
            store_wf(final(store)@),
            match r {
                Ok(c) => {
                    let s0 = old(store)@.contents;
                    let i = content_idx(s0, updatable.content_type@, updatable.id)->Some_0;
                    &&& content_idx(s0, updatable.content_type@, updatable.id) is Some
                    &&& c@ == (ContentV {
                        id: updatable.id,
                        name: updatable.name@,
                        identifier: s0[i].identifier,
                        content_type: s0[i].content_type,
                        fields: fields_v(updatable.content_fields@),
                        created_at: s0[i].created_at,
                        updated_at: now,
                        created_by: s0[i].created_by,
                        updated_by: updatable.logged_in_username@,
                    })
                    &&& final(store)@.contents == s0.update(i, c@)
                    &&& final(store)@.collections == old(store)@.collections
                    &&& final(store)@.next_content_id == old(store)@.next_content_id
                    &&& final(store)@.next_collection_id == old(store)@.next_collection_id
                },
                Err(e) => {
                    &&& e == Error::NotFound
                    &&& content_idx(old(store)@.contents, updatable.content_type@, updatable.id)
                        is None
                    &&& final(store)@ == old(store)@
                },
            },
    {
        proof {
            lemma_content_idx_props(store@.contents, updatable.content_type@, updatable.id);
        }
        let n = store.contents.len();
        let mut found: usize = 0;
        let mut has_found: bool = false;
        for i in 0..n
            invariant
                has_found ==> found < i && content_idx(
                    store@.contents,
                    updatable.content_type@,
                    updatable.id,
                ) == Some(found as int),
                !has_found ==> forall|j: int| #![trigger store@.contents[j]]
                    0 <= j < i ==> !(store@.contents[j].id == updatable.id
                        && store@.contents[j].content_type == updatable.content_type@),
        {
            if !has_found && store.contents[i].id == updatable.id
                && store.contents[i].content_type == updatable.content_type {
                found = i;
                has_found = true;
                proof {
                    lemma_content_idx_first(
                        store@.contents,
                        updatable.content_type@,
                        updatable.id,
                        i as int,
                    );
                }
            }
        }
        if !has_found {
            return Err(Error::NotFound);
        }
        let prior = &store.contents[found];
        let c = Content {
            id: updatable.id,
            name: updatable.name,
            identifier: prior.identifier.clone(),
            content_type: prior.content_type.clone(),
            content_fields: updatable.content_fields,
            created_at: prior.created_at,
            updated_at: now,
            created_by: prior.created_by.clone(),
            updated_by: updatable.logged_in_username,
        };
        let result = c.duplicate();
        store.contents.set(found, c);
        proof {
            let s0 = old(store)@.contents;
            let f = found as int;
            assert(final(store)@.contents =~= s0.update(f, result@));
            assert forall|j: int| #![trigger s0[j]]
                0 <= j < s0.len() && j != f implies !(s0[j].content_type == result@.content_type
                && s0[j].identifier == result@.identifier) by {
                if j < f {
                    assert(!(s0[j].content_type == s0[f].content_type && s0[j].identifier
                        == s0[f].identifier));
                } else {
                    assert(!(s0[f].content_type == s0[j].content_type && s0[f].identifier
                        == s0[j].identifier));
                }
            }
            self.lemma_replacement_keeps_wf(old(store)@, final(store)@, f, result@);
        }
        Ok(result)
    }

    /// The identifier-only rename: nothing but the identifier, the update
    /// stamp and the updating user change; all field values and the
    /// creation metadata are untouched. `NotFound` exactly when the
    /// (content type, id) pair is absent; `Conflict` exactly when another
    /// entity of the same content type holds the new identifier.
    #[verifier::loop_isolation(false)]
    pub fn update_content_identifier(
        &self,
        store: &mut Store,
        model: PutContentIdentifierModel,
        now: u64,
    ) -> (r: Result<Content, Error>)
        requires
            store_wf(old(store)@),
        ensures
            store_wf(final(store)@),
            match r {
                Ok(c) => {
                    let s0 = old(store)@.contents;
                    let i = content_idx(s0, model.content_type@, model.id)->Some_0;
                    &&& content_idx(s0, model.content_type@, model.id) is Some
                    &&& forall|j: int| #![trigger s0[j]]
                        0 <= j < s0.len() && j != i ==> !(s0[j].content_type == model.content_type@
                            && s0[j].identifier == model.identifier@)
                    &&& c@ == (ContentV {
                        identifier: model.identifier@,
                        updated_at: now,
                        updated_by: model.logged_in_username@,
                        ..s0[i]
                    })
                    &&& final(store)@.contents == s0.update(i, c@)
                    &&& final(store)@.collections == old(store)@.collections
                    &&& final(store)@.next_content_id == old(store)@.next_content_id
                    &&& final(store)@.next_collection_id == old(store)@.next_collection_id
                },
                Err(e) => {
                    &&& final(store)@ == old(store)@
                    &&& (e == Error::NotFound || e == Error::Conflict)
                    &&& (e == Error::NotFound <==> content_idx(
                        old(store)@.contents,
                        model.content_type@,
                        model.id,
                    ) is None)
                    &&& (e == Error::Conflict ==> exists|j: int| #![trigger old(store)@.contents[j]]
                        0 <= j < old(store)@.contents.len() && j != content_idx(
                            old(store)@.contents,
                            model.content_type@,
                            model.id,
                        )->Some_0 && old(store)@.contents[j].content_type == model.content_type@
                            && old(store)@.contents[j].identifier == model.identifier@)
                },
            },
    {
        proof {
            lemma_content_idx_props(store@.contents, model.content_type@, model.id);
        }
        let n = store.contents.len();
        let mut found: usize = 0;
        let mut has_found: bool = false;
        for i in 0..n
            invariant
                has_found ==> found < i && content_idx(
                    store@.contents,
                    model.content_type@,
                    model.id,
                ) == Some(found as int),
                !has_found ==> forall|j: int| #![trigger store@.contents[j]]
                    0 <= j < i ==> !(store@.contents[j].id == model.id
                        && store@.contents[j].content_type == model.content_type@),
        {
            if !has_found && store.contents[i].id == model.id && store.contents[i].content_type
                == model.content_type {
                found = i;
                has_found = true;
                proof {
                    lemma_content_idx_first(
                        store@.contents,
                        model.content_type@,
                        model.id,
                        i as int,
                    );
                }
            }
        }
        if !has_found {
            return Err(Error::NotFound);
        }
        for j in 0..n
            invariant
                found < n,
                content_idx(store@.contents, model.content_type@, model.id) == Some(found as int),
                forall|k: int| #![trigger store@.contents[k]]
                    0 <= k < j && k != found ==> !(store@.contents[k].content_type
                        == model.content_type@ && store@.contents[k].identifier
                        == model.identifier@),
        {
            if j != found && store.contents[j].content_type == model.content_type
                && store.contents[j].identifier == model.identifier {
                proof {
                    assert(old(store)@.contents[j as int].content_type == model.content_type@
                        && old(store)@.contents[j as int].identifier == model.identifier@);
                }
                return Err(Error::Conflict);
            }
        }
        let prior = &store.contents[found];
        let c = Content {
            id: prior.id,
            name: prior.name.clone(),
            identifier: model.identifier,
            content_type: prior.content_type.clone(),
            content_fields: crate::field::duplicate_fields(&prior.content_fields),
            created_at: prior.created_at,
            updated_at: now,
            created_by: prior.created_by.clone(),
            updated_by: model.logged_in_username,
        };
        let result = c.duplicate();
        store.contents.set(found, c);
        proof {
            assert(final(store)@.contents =~= old(store)@.contents.update(found as int, result@));
            self.lemma_replacement_keeps_wf(old(store)@, final(store)@, found as int, result@);
            assert(result@ =~= (ContentV {
                identifier: model.identifier@,
                updated_at: now,
                updated_by: model.logged_in_username@,
                ..old(store)@.contents[found as int]
            }));
        }
        Ok(result)
    }

    /// One page of entities under the content type: some arrangement of
    /// all matching entities sorted under the requested ordering, windowed
    /// at the start offset, at most one page long. Entities with equal
    /// keys may come back in either order; everything else is pinned.
    #[verifier::loop_isolation(false)]
    pub fn paginate(
        &self,
        store: &Store,
        content_type: &String,
        start: u64,
        order: ContentOrder,
    ) -> (r: Vec<Content>)
        ensures
            exists|s: Seq<ContentV>|
                {
                    &&& s.to_multiset() == contents_of_type(
                        store@.contents,
                        content_type@,
                    ).to_multiset()
                    &&& sorted_by_order(s, order)
                    &&& contents_v(r@) == s.subrange(
                        vstd::math::min(start as int, s.len() as int),
                        vstd::math::min(start as int + PER_PAGE as int, s.len() as int),
                    )
                },
    {
        let n = store.contents.len();
        let mut matching: Vec<Content> = Vec::new();
        proof {
            assert(contents_v(matching@) =~= Seq::<ContentV>::empty());
            assert(store@.contents.take(0) =~= Seq::<ContentV>::empty());
        }
        for i in 0..n
            invariant
                contents_v(matching@) == contents_of_type(
                    store@.contents.take(i as int),
                    content_type@,
                ),
        {
            proof {
                let s = store@.contents;
                assert(s.take(i as int + 1) =~= s.take(i as int).push(s[i as int]));
                lemma_contents_of_type_push(s.take(i as int), content_type@, s[i as int]);
            }
            if store.contents[i].content_type == *content_type {
                let c = store.contents[i].duplicate();
                let ghost pre = contents_v(matching@);
                matching.push(c);
                proof {
                    assert(contents_v(matching@) =~= pre + seq![store@.contents[i as int]]);
                }
            }
        }
        proof {
            assert(store@.contents.take(n as int) =~= store@.contents);
        }
        let ghost all = contents_of_type(store@.contents, content_type@);
        let sorted = sort_contents(matching, order);
        proof {
            contents_v(sorted@).to_multiset_ensures();
            all.to_multiset_ensures();
        }
        let m = sorted.len();
        let from: usize = if start >= m as u64 {
            m
        } else {
            start as usize
        };
        let to: usize = if ((m - from) as u64) > PER_PAGE {
            from + 10
        } else {
            m
        };
        let mut out: Vec<Content> = Vec::new();
        proof {
            assert(contents_v(out@) =~= contents_v(sorted@).subrange(from as int, from as int));
        }
        for k in from..to
            invariant
                from <= k <= to <= m,
                m == sorted@.len(),
                contents_v(out@) == contents_v(sorted@).subrange(from as int, k as int),
        {
            let c = sorted[k].duplicate();
            let ghost pre = contents_v(out@);
            out.push(c);
            proof {
                assert(contents_v(out@) =~= contents_v(sorted@).subrange(
                    from as int,
                    k as int + 1,
                ));
            }
        }
        proof {
            let w = contents_v(sorted@);
            assert(w.to_multiset() == all.to_multiset());
            assert(w.len() == all.len());
            assert(sorted_by_order(w, order));
            assert(from as int == vstd::math::min(start as int, w.len() as int));
            assert(to as int == vstd::math::min(start as int + PER_PAGE as int, w.len() as int));
            assert(contents_v(out@) == w.subrange(
                vstd::math::min(start as int, w.len() as int),
                vstd::math::min(start as int + PER_PAGE as int, w.len() as int),
            ));
        }
        out
    }

    /// Deletes the entity with the given id under the content type.
    /// Returns `true` exactly when an entity was removed; deleting an
    /// absent entity returns `false`, not an error.
    #[verifier::loop_isolation(false)]
    pub fn delete_content(&self, store: &mut Store, content_type: &String, id: u64) -> (r: bool)
        requires
            store_wf(old(store)@),
        ensures
            store_wf(final(store)@),
            final(store)@.collections == old(store)@.collections,
            final(store)@.next_content_id == old(store)@.next_content_id,
            final(store)@.next_collection_id == old(store)@.next_collection_id,
            match content_idx(old(store)@.contents, content_type@, id) {
                Some(i) => r == true && final(store)@.contents == old(store)@.contents.remove(i),
                None => r == false && final(store)@.contents == old(store)@.contents,
            },
    {
        proof {
            lemma_content_idx_props(store@.contents, content_type@, id);
        }
        let n = store.contents.len();
        let mut found: usize = 0;
        let mut has_found: bool = false;
        for i in 0..n
            invariant
                has_found ==> found < i && content_idx(store@.contents, content_type@, id) == Some(
                    found as int,
                ),
                !has_found ==> forall|j: int| #![trigger store@.contents[j]]
                    0 <= j < i ==> !(store@.contents[j].id == id && store@.contents[j].content_type
                        == content_type@),
        {
            if !has_found && store.contents[i].id == id && store.contents[i].content_type
                == *content_type {
                found = i;
                has_found = true;
                proof {
                    lemma_content_idx_first(store@.contents, content_type@, id, i as int);
                }
            }
        }
        if !has_found {
            return false;
        }
        store.contents.remove(found);
        proof {
            let s0 = old(store)@.contents;
            let s1 = final(store)@.contents;
            let f = found as int;
            assert(s1 =~= s0.remove(f));
            assert(final(store)@.collections == old(store)@.collections);
            assert forall|i: int, j: int| 0 <= i < j < s1.len() implies s1[i].id < s1[j].id by {
                let a: int = if i < f { i } else { i + 1 };
                let b: int = if j < f { j } else { j + 1 };
                assert(s1[i] == s0[a] && s1[j] == s0[b]);
                assert(s0[a].id < s0[b].id);
            }
            assert forall|i: int, j: int|
                #![trigger s1[i], s1[j]]
                0 <= i < j < s1.len() implies !(s1[i].content_type == s1[j].content_type
                && s1[i].identifier == s1[j].identifier) by {
                let a: int = if i < f { i } else { i + 1 };
                let b: int = if j < f { j } else { j + 1 };
                assert(s1[i] == s0[a] && s1[j] == s0[b]);
                assert(!(s0[a].content_type == s0[b].content_type && s0[a].identifier
                    == s0[b].identifier));
            }
            assert forall|i: int|
                0 <= i < s1.len() implies s1[i].id < final(store)@.next_content_id by {
                let a: int = if i < f { i } else { i + 1 };
                assert(s1[i] == s0[a]);
                assert(s0[a].id < old(store)@.next_content_id);
            }
            assert forall|i: int|
                0 <= i < s1.len() implies crate::field::fields_v_wf(s1[i].fields) by {
                let a: int = if i < f { i } else { i + 1 };
                assert(s1[i] == s0[a]);
                assert(crate::field::fields_v_wf(s0[a].fields));
            }
        }
        true
    }

    /// Replacing one entity with one that keeps its id, content type,
    /// field well-formedness and, unless no other entity collides, its
    /// identifier, preserves the store invariant.
    proof fn lemma_replacement_keeps_wf(&self, s0: crate::model::StoreV, s1: crate::model::StoreV, f: int, c: ContentV)
        requires
            store_wf(s0),
            0 <= f < s0.contents.len(),
            s1.contents == s0.contents.update(f, c),
            s1.collections == s0.collections,
            s1.next_content_id == s0.next_content_id,
            s1.next_collection_id == s0.next_collection_id,
            c.id == s0.contents[f].id,
            c.content_type == s0.contents[f].content_type,
            crate::field::fields_v_wf(c.fields),
            forall|j: int| #![trigger s0.contents[j]]
                0 <= j < s0.contents.len() && j != f ==> !(s0.contents[j].content_type
                    == c.content_type && s0.contents[j].identifier == c.identifier),
    ensures
            store_wf(s1),
    {
        let t0 = s0.contents;
        let t1 = s1.contents;
        assert forall|i: int, j: int| 0 <= i < j < t1.len() implies t1[i].id < t1[j].id by {
            assert(t0[i].id < t0[j].id);
        }
        assert forall|i: int, j: int|
            #![trigger t1[i], t1[j]]
            0 <= i < j < t1.len() implies !(t1[i].content_type == t1[j].content_type
            && t1[i].identifier == t1[j].identifier) by {
            if i != f && j != f {
                assert(!(t0[i].content_type == t0[j].content_type && t0[i].identifier
                    == t0[j].identifier));
            } else if i == f {
                assert(t1[j] == t0[j]);
            } else {
                assert(t1[i] == t0[i]);
            }
        }
        assert forall|i: int| 0 <= i < t1.len() implies t1[i].id < s1.next_content_id by {
            assert(t0[i].id < s0.next_content_id);
        }
        assert forall|i: int|
            0 <= i < t1.len() implies crate::field::fields_v_wf(t1[i].fields) by {
            if i != f {
                assert(crate::field::fields_v_wf(t0[i].fields));
            }
        }
    }
}

/// After a delete, a lookup for the removed (content type, id) pair is
/// `NotFound`: ids are unique in a well-ordered store, so removing the
/// found index removes every entity the lookup could return.
pub proof fn lemma_removed_not_found(s: Seq<ContentV>, ct: Seq<char>, id: u64, i: int)
    requires
        forall|a: int, b: int|
            0 <= a < b < s.len() ==> (#[trigger] s[a].id) < (#[trigger] s[b].id),
        0 <= i < s.len(),
        content_idx(s, ct, id) == Some(i),
    ensures
        content_idx(s.remove(i), ct, id) is None,
{
    lemma_content_idx_props(s, ct, id);
    lemma_content_idx_props(s.remove(i), ct, id);
    if content_idx(s.remove(i), ct, id) is Some {
        let k = content_idx(s.remove(i), ct, id)->Some_0;
        let a: int = if k < i {
            k
        } else {
            k + 1
        };
        assert(s.remove(i)[k] == s[a]);
        assert(s[a].id == id);
        if a < i {
            assert(s[a].id < s[i].id);
        } else {
            assert(s[i].id < s[a].id);
        }
    }
}

/// When the entity at `i` is the first hit of a scan by (content type,
/// id), `content_idx` agrees with `i`.
pub proof fn lemma_content_idx_first(s: Seq<ContentV>, ct: Seq<char>, id: u64, i: int)
    requires
        0 <= i < s.len(),
        s[i].id == id,
        s[i].content_type == ct,
        forall|j: int| #![trigger s[j]] 0 <= j < i ==> !(s[j].id == id && s[j].content_type == ct),
    ensures
        content_idx(s, ct, id) == Some(i),
    decreases i,
{
    if i > 0 {
        assert(forall|j: int| 0 <= j < s.drop_first().len() ==> s.drop_first()[j] == s[j + 1]);
        lemma_content_idx_first(s.drop_first(), ct, id, i - 1);
    }
}

/// When the entity at `i` is the first hit of a scan by (content type,
/// identifier), `content_ident_idx` agrees with `i`.
pub proof fn lemma_content_ident_idx_first(s: Seq<ContentV>, ct: Seq<char>, ident: Seq<char>, i: int)
    requires
        0 <= i < s.len(),
        s[i].content_type == ct,
        s[i].identifier == ident,
        forall|j: int| #![trigger s[j]]
            0 <= j < i ==> !(s[j].content_type == ct && s[j].identifier == ident),
    ensures
        content_ident_idx(s, ct, ident) == Some(i),
    decreases i,
{
    if i > 0 {
        assert(forall|j: int| 0 <= j < s.drop_first().len() ==> s.drop_first()[j] == s[j + 1]);
        lemma_content_ident_idx_first(s.drop_first(), ct, ident, i - 1);
    }
}

} // verus!
