//! The entity families: collections (named schemas), content entities
//! (schema instances with typed fields), the creatable/updatable request
//! models, and the in-memory store that is the single source of truth.
//!
//! Every entity type has a mathematical view; the store's well-formedness
//! invariant (`store_wf`) states the uniqueness rules: collection
//! identifiers are unique globally, content identifiers are unique within
//! their content type, ids are server-assigned in strictly increasing
//! order, and every stored field list is well formed.

use vstd::prelude::*;
use crate::field::{ContentField, FieldV, fields_v, fields_v_wf, duplicate_fields};

verus! {

/// A simple aggregate result for count-style queries.
pub struct ModelCount {
    pub total: u64,
}

/// A named, user-defined content schema.
pub struct Collection {
    pub id: u64,
    pub name: String,
    pub identifier: String,
    pub created_at: u64,
    pub updated_at: u64,
    pub created_by: String,
    pub updated_by: String,
}

/// Mathematical view of `Collection`.
#[verifier::ext_equal]
pub struct CollectionV {
    pub id: u64,
    pub name: Seq<char>,
    pub identifier: Seq<char>,
    pub created_at: u64,
    pub updated_at: u64,
    pub created_by: Seq<char>,
    pub updated_by: Seq<char>,
}

impl View for Collection {
    type V = CollectionV;

    open spec fn view(&self) -> CollectionV {
        CollectionV {
            id: self.id,
            name: self.name@,
            identifier: self.identifier@,
            created_at: self.created_at,
            updated_at: self.updated_at,
            created_by: self.created_by@,
            updated_by: self.updated_by@,
        }
    }
}

/// One instance of data conforming to a collection's schema. Its
/// `content_type` is the identifier of the collection it belongs to,
/// a weak reference, not ownership.
pub struct Content {
    pub id: u64,
    pub name: String,
    pub identifier: String,
    pub content_type: String,
    pub content_fields: Vec<ContentField>,
    pub created_at: u64,
    pub updated_at: u64,
    pub created_by: String,
    pub updated_by: String,
}

/// Mathematical view of `Content`.
#[verifier::ext_equal]
pub struct ContentV {
    pub id: u64,
    pub name: Seq<char>,
    pub identifier: Seq<char>,
    pub content_type: Seq<char>,
    pub fields: Seq<FieldV>,
    pub created_at: u64,
    pub updated_at: u64,
    pub created_by: Seq<char>,
    pub updated_by: Seq<char>,
}

impl View for Content {
    type V = ContentV;

    open spec fn view(&self) -> ContentV {
        ContentV {
            id: self.id,
            name: self.name@,
            identifier: self.identifier@,
            content_type: self.content_type@,
            fields: fields_v(self.content_fields@),
            created_at: self.created_at,
            updated_at: self.updated_at,
            created_by: self.created_by@,
            updated_by: self.updated_by@,
        }
    }
}

/// What a caller supplies to create a collection; the acting user is an
/// explicit parameter, never ambient state.
pub struct CreatableCollection {
    pub name: String,
    pub identifier: String,
    pub logged_in_username: String,
}

/// What a caller supplies to replace a collection's name and identifier.
pub struct UpdatableCollection {
    pub id: u64,
    pub name: String,
    pub identifier: String,
    pub logged_in_username: String,
}

/// What a caller supplies to create a content entity; its field list has
/// already passed the field type system.
pub struct CreatableContentModel {
    pub name: String,
    pub identifier: String,
    pub content_type: String,
    pub logged_in_username: String,
    pub content_fields: Vec<ContentField>,
}

/// A whole-record replacement of a content entity's name and field list.
pub struct UpdatableContentModel {
    pub id: u64,
    pub name: String,
    pub content_type: String,
    pub logged_in_username: String,
    pub content_fields: Vec<ContentField>,
}

/// The identifier-only rename of a content entity.
pub struct PutContentIdentifierModel {
    pub id: u64,
    pub identifier: String,
    pub content_type: String,
    pub logged_in_username: String,
}

/// The in-memory storage engine: the single source of truth for both
/// entity families. Ids are assigned from the two counters.
pub struct Store {
    pub collections: Vec<Collection>,
    pub contents: Vec<Content>,
    pub next_collection_id: u64,
    pub next_content_id: u64,
}

/// Mathematical view of `Store`.
#[verifier::ext_equal]
pub struct StoreV {
    pub collections: Seq<CollectionV>,
    pub contents: Seq<ContentV>,
    pub next_collection_id: u64,
    pub next_content_id: u64,
}

pub open spec fn cols_v(s: Seq<Collection>) -> Seq<CollectionV> {
    s.map_values(|c: Collection| c@)
}

pub open spec fn contents_v(s: Seq<Content>) -> Seq<ContentV> {
    s.map_values(|c: Content| c@)
}

impl View for Store {
    type V = StoreV;

    open spec fn view(&self) -> StoreV {
        StoreV {
            collections: cols_v(self.collections@),
            contents: contents_v(self.contents@),
            next_collection_id: self.next_collection_id,
            next_content_id: self.next_content_id,
        }
    }
}

/// The store's invariant: ids strictly increase (hence are unique and the
/// stored order is deterministic, id ascending), every id is below its
/// counter, collection identifiers are unique, content identifiers are
/// unique within their content type, and stored field lists are well
/// formed.
pub open spec fn store_wf(s: StoreV) -> bool {
    &&& forall|i: int, j: int|
        0 <= i < j < s.collections.len() ==> #[trigger] s.collections[i].id
            < #[trigger] s.collections[j].id
    &&& forall|i: int|
        0 <= i < s.collections.len() ==> #[trigger] s.collections[i].id < s.next_collection_id
    &&& forall|i: int, j: int|
        0 <= i < j < s.collections.len() ==> #[trigger] s.collections[i].identifier
            != #[trigger] s.collections[j].identifier
    &&& forall|i: int, j: int|
        0 <= i < j < s.contents.len() ==> #[trigger] s.contents[i].id
            < #[trigger] s.contents[j].id
    &&& forall|i: int|
        0 <= i < s.contents.len() ==> #[trigger] s.contents[i].id < s.next_content_id
    &&& forall|i: int, j: int|
        #![trigger s.contents[i], s.contents[j]]
        0 <= i < j < s.contents.len() ==> !(s.contents[i].content_type
            == s.contents[j].content_type && s.contents[i].identifier
            == s.contents[j].identifier)
    &&& forall|i: int| 0 <= i < s.contents.len() ==> fields_v_wf(#[trigger] s.contents[i].fields)
}

impl Store {
    /// An empty store.
    pub fn new() -> (r: Store)
        ensures
            r@.collections == Seq::<CollectionV>::empty(),
            r@.contents == Seq::<ContentV>::empty(),
            r@.next_collection_id == 1u64,
            r@.next_content_id == 1u64,
            store_wf(r@),
    {
        let r = Store {
            collections: Vec::new(),
            contents: Vec::new(),
            next_collection_id: 1,
            next_content_id: 1,
        };
        proof {
            assert(r@.collections =~= Seq::<CollectionV>::empty());
            assert(r@.contents =~= Seq::<ContentV>::empty());
        }
        r
    }
}

impl Collection {
    /// A copy with the same view.
    pub fn duplicate(&self) -> (r: Collection)
        ensures
            r@ == self@,
    {
        Collection {
            id: self.id,
            name: self.name.clone(),
            identifier: self.identifier.clone(),
            created_at: self.created_at,
            updated_at: self.updated_at,
            created_by: self.created_by.clone(),
            updated_by: self.updated_by.clone(),
        }
    }
}

impl Content {
    /// A deep copy with the same view.
    pub fn duplicate(&self) -> (r: Content)
        ensures
            r@ == self@,
    {
        let r = Content {
            id: self.id,
            name: self.name.clone(),
            identifier: self.identifier.clone(),
            content_type: self.content_type.clone(),
            content_fields: duplicate_fields(&self.content_fields),
            created_at: self.created_at,
            updated_at: self.updated_at,
            created_by: self.created_by.clone(),
            updated_by: self.updated_by.clone(),
        };
        proof {
            assert(r@ =~= self@);
        }
        r
    }
}

/// The first collection holding the given identifier, if any.
pub open spec fn col_by_identifier(s: Seq<CollectionV>, ident: Seq<char>) -> Option<CollectionV>
    decreases s,
{
    if s.len() == 0 {
        None
    } else if s[0].identifier == ident {
        Some(s[0])
    } else {
        col_by_identifier(s.drop_first(), ident)
    }
}

/// The index of the collection with the given id, if any.
pub open spec fn col_idx(s: Seq<CollectionV>, id: u64) -> Option<int>
    decreases s,
{
    if s.len() == 0 {
        None
    } else if s[0].id == id {
        Some(0int)
    } else {
        match col_idx(s.drop_first(), id) {
            Some(k) => Some(k + 1),
            None => None,
        }
    }
}

/// The index of the content entity with the given id under the given
/// content type, if any; the content type is a hard filter.
pub open spec fn content_idx(s: Seq<ContentV>, ct: Seq<char>, id: u64) -> Option<int>
    decreases s,
{
    if s.len() == 0 {
        None
    } else if s[0].id == id && s[0].content_type == ct {
        Some(0int)
    } else {
        match content_idx(s.drop_first(), ct, id) {
            Some(k) => Some(k + 1),
            None => None,
        }
    }
}

/// The index of the content entity with the given identifier under the
/// given content type, if any.
pub open spec fn content_ident_idx(s: Seq<ContentV>, ct: Seq<char>, ident: Seq<char>) -> Option<
    int,
>
    decreases s,
{
    if s.len() == 0 {
        None
    } else if s[0].content_type == ct && s[0].identifier == ident {
        Some(0int)
    } else {
        match content_ident_idx(s.drop_first(), ct, ident) {
            Some(k) => Some(k + 1),
            None => None,
        }
    }
}

/// How many collections hold the identifier exactly.
pub open spec fn count_col_ident(s: Seq<CollectionV>, ident: Seq<char>) -> nat
    decreases s,
{
    if s.len() == 0 {
        0
    } else {
        (if s[0].identifier == ident {
            1nat
        } else {
            0nat
        }) + count_col_ident(s.drop_first(), ident)
    }
}

/// The content entities under a content type, in stored order.
pub open spec fn contents_of_type(s: Seq<ContentV>, ct: Seq<char>) -> Seq<ContentV>
    decreases s,
{
    if s.len() == 0 {
        Seq::empty()
    } else if s[0].content_type == ct {
        seq![s[0]] + contents_of_type(s.drop_first(), ct)
    } else {
        contents_of_type(s.drop_first(), ct)
    }
}

/// How many content entities hold the identifier under the content type.
pub open spec fn count_content_ident(s: Seq<ContentV>, ct: Seq<char>, ident: Seq<char>) -> nat
    decreases s,
{
    if s.len() == 0 {
        0
    } else {
        (if s[0].content_type == ct && s[0].identifier == ident {
            1nat
        } else {
            0nat
        }) + count_content_ident(s.drop_first(), ct, ident)
    }
}

pub proof fn lemma_count_col_ident_push(s: Seq<CollectionV>, ident: Seq<char>, x: CollectionV)
    ensures
        count_col_ident(s.push(x), ident) == count_col_ident(s, ident) + (if x.identifier
            == ident {
            1nat
        } else {
            0nat
        }),
    decreases s,
{
    if s.len() == 0 {
        assert(s.push(x)[0] == x);
        assert(s.push(x).drop_first() =~= s);
    } else {
        assert(s.push(x)[0] == s[0]);
        assert(s.push(x).drop_first() =~= s.drop_first().push(x));
        lemma_count_col_ident_push(s.drop_first(), ident, x);
    }
}

pub proof fn lemma_contents_of_type_push(s: Seq<ContentV>, ct: Seq<char>, x: ContentV)
    ensures
        contents_of_type(s.push(x), ct) == contents_of_type(s, ct) + (if x.content_type == ct {
            seq![x]
        } else {
            Seq::<ContentV>::empty()
        }),
    decreases s,
{
    if s.len() == 0 {
        assert(s.push(x)[0] == x);
        assert(s.push(x).drop_first() =~= s);
        if x.content_type == ct {
            assert(contents_of_type(s.push(x), ct) =~= contents_of_type(s, ct) + seq![x]);
        } else {
            assert(contents_of_type(s.push(x), ct) =~= contents_of_type(s, ct)
                + Seq::<ContentV>::empty());
        }
    } else {
        assert(s.push(x)[0] == s[0]);
        assert(s.push(x).drop_first() =~= s.drop_first().push(x));
        lemma_contents_of_type_push(s.drop_first(), ct, x);
        if s[0].content_type == ct {
            assert(contents_of_type(s.push(x), ct) =~= contents_of_type(s, ct) + (if x.content_type
                == ct {
                seq![x]
            } else {
                Seq::<ContentV>::empty()
            }));
        }
    }
}

pub proof fn lemma_count_content_ident_push(
    s: Seq<ContentV>,
    ct: Seq<char>,
    ident: Seq<char>,
    x: ContentV,
)
    ensures
        count_content_ident(s.push(x), ct, ident) == count_content_ident(s, ct, ident) + (if (
        x.content_type == ct && x.identifier == ident) {
            1nat
        } else {
            0nat
        }),
    decreases s,
{
    if s.len() == 0 {
        assert(s.push(x)[0] == x);
        assert(s.push(x).drop_first() =~= s);
    } else {
        assert(s.push(x)[0] == s[0]);
        assert(s.push(x).drop_first() =~= s.drop_first().push(x));
        lemma_count_content_ident_push(s.drop_first(), ct, ident, x);
    }
}

/// A found index lies in bounds and names the sought entity; basic facts
/// used throughout the repositories.
pub proof fn lemma_col_idx_props(s: Seq<CollectionV>, id: u64)
    ensures
        match col_idx(s, id) {
            Some(i) => 0 <= i < s.len() && s[i].id == id,
            None => forall|i: int| 0 <= i < s.len() ==> (#[trigger] s[i].id) != id,
        },
    decreases s,
{
    if s.len() > 0 && s[0].id != id {
        lemma_col_idx_props(s.drop_first(), id);
        assert(forall|i: int| 1 <= i < s.len() ==> s[i] == s.drop_first()[i - 1]);
    }
}

pub proof fn lemma_content_idx_props(s: Seq<ContentV>, ct: Seq<char>, id: u64)
    ensures
        match content_idx(s, ct, id) {
            Some(i) => 0 <= i < s.len() && s[i].id == id && s[i].content_type == ct,
            None => forall|i: int|
                0 <= i < s.len() ==> !((#[trigger] s[i].id) == id && s[i].content_type == ct),
        },
    decreases s,
{
    if s.len() > 0 && !(s[0].id == id && s[0].content_type == ct) {
        lemma_content_idx_props(s.drop_first(), ct, id);
        assert(forall|i: int| 1 <= i < s.len() ==> s[i] == s.drop_first()[i - 1]);
    }
}

pub proof fn lemma_content_ident_idx_props(s: Seq<ContentV>, ct: Seq<char>, ident: Seq<char>)
    ensures
        match content_ident_idx(s, ct, ident) {
            Some(i) => 0 <= i < s.len() && s[i].content_type == ct && s[i].identifier == ident,
            None => forall|i: int|
                0 <= i < s.len() ==> !((#[trigger] s[i].content_type) == ct && s[i].identifier
                    == ident),
        },
    decreases s,
{
    if s.len() > 0 && !(s[0].content_type == ct && s[0].identifier == ident) {
        lemma_content_ident_idx_props(s.drop_first(), ct, ident);
        assert(forall|i: int| 1 <= i < s.len() ==> s[i] == s.drop_first()[i - 1]);
    }
}

pub proof fn lemma_col_by_identifier_props(s: Seq<CollectionV>, ident: Seq<char>)
    ensures
        match col_by_identifier(s, ident) {
            Some(c) => c.identifier == ident && exists|i: int|
                0 <= i < s.len() && s[i] == c,
            None => forall|i: int|
                0 <= i < s.len() ==> (#[trigger] s[i].identifier) != ident,
        },
    decreases s,
{
    if s.len() > 0 && s[0].identifier != ident {
        lemma_col_by_identifier_props(s.drop_first(), ident);
        assert(forall|i: int| 1 <= i < s.len() ==> s[i] == s.drop_first()[i - 1]);
        if col_by_identifier(s.drop_first(), ident) is Some {
            let c = col_by_identifier(s.drop_first(), ident)->Some_0;
            let i = choose|i: int| 0 <= i < s.drop_first().len() && s.drop_first()[i] == c;
            assert(s[i + 1] == c);
        }
    }
}

/// The pre-flight count and the insert-time conflict check agree for
/// content entities: the count is zero exactly when no entity under the
/// content type holds the identifier, so a zero pre-flight predicts that
/// an insert of the pair will not conflict.
pub proof fn lemma_content_count_matches_lookup(s: Seq<ContentV>, ct: Seq<char>, ident: Seq<char>)
    ensures
        (count_content_ident(s, ct, ident) == 0) <==> (content_ident_idx(s, ct, ident) is None),
    decreases s,
{
    if s.len() > 0 {
        lemma_content_count_matches_lookup(s.drop_first(), ct, ident);
    }
}

/// The pre-flight count and the insert-time conflict check agree for
/// collections: the count is zero exactly when no collection holds the
/// identifier.
pub proof fn lemma_col_count_matches_lookup(s: Seq<CollectionV>, ident: Seq<char>)
    ensures
        (count_col_ident(s, ident) == 0) <==> (col_by_identifier(s, ident) is None),
    decreases s,
{
    if s.len() > 0 {
        lemma_col_count_matches_lookup(s.drop_first(), ident);
    }
}

} // verus!
