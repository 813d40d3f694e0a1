//! The service layer: a pure adaptation boundary over the two
//! repositories. Each operation converts the external request shape into
//! the internal models, stamps the authenticated caller as author or
//! editor, invokes the repository, and converts the domain model back into
//! a response carrying a status flag and an optional payload.
//!
//! The storage handle and the clock reading are explicit parameters on
//! every call; no state is ambient. The layer adds no business validation
//! of its own: uniqueness and typing are enforced by the repositories and
//! the field type system alone.

use vstd::prelude::*;
use crate::{Error, PER_PAGE};
use crate::collection_repository::CollectionRepository;
use crate::content_repository::ContentRepository;
use crate::field::{
    ExternalField, conv_fields, convert_fields, ext_fields_v, exts_ok, lemma_conv_fields_wf,
};
use crate::model::{
    Collection, CollectionV, Content, ContentV, CreatableCollection, CreatableContentModel,
    ModelCount, PutContentIdentifierModel, Store, UpdatableCollection, UpdatableContentModel,
    col_by_identifier, col_idx, cols_v, content_ident_idx, content_idx, contents_of_type,
    contents_v, count_col_ident, count_content_ident, store_wf,
};
use crate::order::{ContentOrder, default_order, order_of, parse_order, sorted_by_order};

verus! {

pub struct ContentPaginateRequest {
    pub content_type: String,
    pub page: Option<u32>,
    pub order: Option<String>,
}

pub struct CollectionAllResponse {
    pub status: bool,
    pub data: Vec<Collection>,
}

pub struct ContentPagination {
    pub total: u64,
}

pub struct ContentPaginateData {
    pub pagination: ContentPagination,
    pub data: Vec<Content>,
}

pub struct ContentPaginateResponse {
    pub status: bool,
    pub data: Option<ContentPaginateData>,
}

pub struct StoreContentRequest {
    pub name: String,
    pub identifier: String,
    pub content_type: String,
    pub content_fields: Vec<ExternalField>,
}

pub struct StoreContentResponse {
    pub status: bool,
    pub data: Option<Content>,
}

pub struct GetContentRequest {
    pub content_type: String,
    pub content_id: u64,
}

pub struct GetContentResponse {
    pub status: bool,
    pub data: Option<Content>,
}

pub struct UpdateContentRequest {
    pub content_id: u64,
    pub name: String,
    pub content_type: String,
    pub content_fields: Vec<ExternalField>,
}

pub struct UpdateContentResponse {
    pub status: bool,
    pub data: Option<Content>,
}

pub struct PutContentIdentifierRequest {
    pub content_id: u64,
    pub identifier: String,
    pub content_type: String,
}

pub struct PutContentIdentifierResponse {
    pub status: bool,
    pub data: Option<Content>,
}

pub struct GetCollectionRequest {
    pub collection_id: u64,
}

pub struct GetCollectionResponse {
    pub status: bool,
    pub data: Option<Collection>,
}

pub struct StoreCollectionRequest {
    pub name: String,
    pub identifier: String,
}

pub struct StoreCollectionResponse {
    pub status: bool,
    pub data: Option<Collection>,
}

pub struct UpdateCollectionRequest {
    pub id: u64,
    pub name: String,
    pub identifier: String,
}

pub struct UpdateCollectionResponse {
    pub status: bool,
    pub data: Option<Collection>,
}

pub struct DeleteContentResponse {
    pub status: bool,
}

pub struct GetCmsContentRequest {
    pub content_type: String,
    pub content_identifier: String,
}

pub struct GetCmsContentResponse {
    pub status: bool,
    pub data: Option<Content>,
}

pub struct SentContactFormRequest {
    pub email: String,
    pub first_name: String,
    pub last_name: String,
    pub message: String,
    pub phone: String,
}

pub struct SentContactFormResponse {
    pub status: bool,
}

/// The structured payload handed to the template engine for the
/// contact-us email.
pub struct SentContactUsEmailRequest {
    pub email: String,
    pub first_name: String,
    pub last_name: String,
    pub message: String,
    pub phone: String,
}

/// The ordering a paginate request denotes: the parsed override, or the
/// default (id descending) when no order string is present.
pub open spec fn request_order(order: Option<String>) -> ContentOrder {
    match order {
        Some(o) => order_of(o@),
        None => default_order(),
    }
}

/// The start offset of a paginate request: page number times page size.
pub open spec fn request_start(page: Option<u32>) -> int {
    (match page {
        Some(p) => p as int,
        None => 0,
    }) * PER_PAGE as int
}

/// The orchestration service for content and collection use cases.
pub struct ContentService {
    pub content_repository: ContentRepository,
    pub collection_repository: CollectionRepository,
}

impl ContentService {
    pub fn new(
        content_repository: ContentRepository,
        collection_repository: CollectionRepository,
    ) -> (r: Result<ContentService, Error>)
        ensures
            r is Ok,
    {
        Ok(ContentService { content_repository, collection_repository })
    }

    /// Every collection, in deterministic storage order (id ascending).
    pub fn collection_all(&self, store: &Store) -> (r: Result<CollectionAllResponse, Error>)
        ensures
            r is Ok,
            r->Ok_0.status == true,
            cols_v(r->Ok_0.data@) == store@.collections,
    {
        let data = self.collection_repository.all_collection(store);
        Ok(CollectionAllResponse { status: true, data })
    }

    /// One page of content entities: the total count of the content type,
    /// and a window of the entities sorted under the requested order
    /// (defaulting to id descending), starting at page times page size.
    pub fn content_paginate(&self, store: &Store, request: ContentPaginateRequest) -> (r: Result<
        ContentPaginateResponse,
        Error,
    >)
        ensures
            r is Ok,
            r->Ok_0.status == true,
            r->Ok_0.data is Some,
            ({
                let d = r->Ok_0.data->Some_0;
                let ord = request_order(request.order);
                let start = request_start(request.page);
                &&& d.pagination.total == contents_of_type(
                    store@.contents,
                    request.content_type@,
                ).len()
                &&& exists|s: Seq<ContentV>|
                    {
                        &&& s.to_multiset() == contents_of_type(
                            store@.contents,
                            request.content_type@,
                        ).to_multiset()
                        &&& sorted_by_order(s, ord)
                        &&& contents_v(d.data@) == s.subrange(
                            vstd::math::min(start, s.len() as int),
                            vstd::math::min(start + PER_PAGE as int, s.len() as int),
                        )
                    }
            }),
    {
        let total_count = self.content_repository.get_total_count(store, &request.content_type);
        let current_page: u32 = match request.page {
            Some(p) => p,
            None => 0,
        };
        let order = match &request.order {
            Some(o) => parse_order(o),
            None => ContentOrder {
                column: crate::order::OrderColumn::Id,
                direction: crate::order::OrderDirection::Desc,
            },
        };
        let start: u64 = (current_page as u64) * PER_PAGE;
        let data = self.content_repository.paginate(store, &request.content_type, start, order);
        let response = ContentPaginateResponse {
            status: true,
            data: Some(
                ContentPaginateData {
                    pagination: ContentPagination { total: total_count.total },
                    data,
                },
            ),
        };
        Ok(response)
    }

    /// Creates a content entity from the wire request: every field
    /// descriptor must pass the field type system (otherwise the whole
    /// operation fails with `Validation` and nothing is stored), the
    /// (content type, identifier) pair must be free (otherwise
    /// `Conflict`), and the acting user is stamped as author and editor.
    pub fn store_content(
        &self,
        store: &mut Store,
        request: StoreContentRequest,
        logged_in_username: String,
        now: u64,
    ) -> (r: Result<StoreContentResponse, Error>)
        requires
            store_wf(old(store)@),
            old(store).next_content_id < u64::MAX,
        ensures
            store_wf(final(store)@),
            match r {
                Ok(resp) => {
                    &&& resp.status == true
                    &&& resp.data is Some
                    &&& exts_ok(ext_fields_v(request.content_fields@))
                    &&& content_ident_idx(
                        old(store)@.contents,
                        request.content_type@,
                        request.identifier@,
                    ) is None
                    &&& resp.data->Some_0@ == (ContentV {
                        id: old(store)@.next_content_id,
                        name: request.name@,
                        identifier: request.identifier@,
                        content_type: request.content_type@,
                        fields: conv_fields(ext_fields_v(request.content_fields@)),
                        created_at: now,
                        updated_at: now,
                        created_by: logged_in_username@,
                        updated_by: logged_in_username@,
                    })
                    &&& final(store)@.contents == old(store)@.contents.push(resp.data->Some_0@)
                    &&& final(store)@.collections == old(store)@.collections
                    &&& final(store)@.next_content_id == old(store)@.next_content_id + 1
                    &&& final(store)@.next_collection_id == old(store)@.next_collection_id
                },
                Err(e) => {
                    &&& final(store)@ == old(store)@
                    &&& (e == Error::Validation || e == Error::Conflict)
                    &&& (e == Error::Validation <==> !exts_ok(
                        ext_fields_v(request.content_fields@),
                    ))
                    &&& (e == Error::Conflict ==> content_ident_idx(
                        old(store)@.contents,
                        request.content_type@,
                        request.identifier@,
                    ) is Some)
                },
            },
    {
        let content_fields = match convert_fields(&request.content_fields) {
            Ok(fields) => fields,
            Err(err) => {
                return Err(err);
            },
        };
        proof {
            lemma_conv_fields_wf(ext_fields_v(request.content_fields@));
        }
        let creatable = CreatableContentModel {
            name: request.name,
            identifier: request.identifier,
            content_type: request.content_type,
            logged_in_username,
            content_fields,
        };
        match self.content_repository.create_content(store, creatable, now) {
            Ok(content) => Ok(StoreContentResponse { status: true, data: Some(content) }),
            Err(err) => Err(err),
        }
    }

    /// Exact lookup of one content entity by id, scoped by content type.
    pub fn get_content(&self, store: &Store, request: GetContentRequest) -> (r: Result<
        GetContentResponse,
        Error,
    >)
        ensures
            match r {
                Ok(resp) => {
                    &&& resp.status == true
                    &&& resp.data is Some
                    &&& content_idx(
                        store@.contents,
                        request.content_type@,
                        request.content_id,
                    ) is Some
                    &&& resp.data->Some_0@ == store@.contents[content_idx(
                        store@.contents,
                        request.content_type@,
                        request.content_id,
                    )->Some_0]
                },
                Err(e) => e == Error::NotFound && content_idx(
                    store@.contents,
                    request.content_type@,
                    request.content_id,
                ) is None,
            },
    {
        match self.content_repository.find_by_id(
            store,
            &request.content_type,
            request.content_id,
        ) {
            Ok(content) => Ok(GetContentResponse { status: true, data: Some(content) }),
            Err(err) => Err(err),
        }
    }

    /// Whole-record replacement of a content entity's name and field
    /// list; every field descriptor must pass the field type system. The
    /// identifier and creation metadata are kept; the update stamp and
    /// editor advance.
    pub fn update_content(
        &self,
        store: &mut Store,
        request: UpdateContentRequest,
        logged_in_username: String,
        now: u64,
    ) -> (r: Result<UpdateContentResponse, Error>)
        requires
            store_wf(old(store)@),
        ensures
            store_wf(final(store)@),
            match r {
                Ok(resp) => {
                    let s0 = old(store)@.contents;
                    let i = content_idx(s0, request.content_type@, request.content_id)->Some_0;
                    &&& resp.status == true
                    &&& resp.data is Some
                    &&& exts_ok(ext_fields_v(request.content_fields@))
                    &&& content_idx(s0, request.content_type@, request.content_id) is Some
                    &&& resp.data->Some_0@ == (ContentV {
                        id: request.content_id,
                        name: request.name@,
                        identifier: s0[i].identifier,
                        content_type: s0[i].content_type,
                        fields: conv_fields(ext_fields_v(request.content_fields@)),
                        created_at: s0[i].created_at,
                        updated_at: now,
                        created_by: s0[i].created_by,
                        updated_by: logged_in_username@,
                    })
                    &&& final(store)@.contents == s0.update(i, resp.data->Some_0@)
                    &&& final(store)@.collections == old(store)@.collections
                    &&& final(store)@.next_content_id == old(store)@.next_content_id
                    &&& final(store)@.next_collection_id == old(store)@.next_collection_id
                },
                Err(e) => {
                    &&& final(store)@ == old(store)@
                    &&& (e == Error::Validation || e == Error::NotFound)
                    &&& (e == Error::Validation <==> !exts_ok(
                        ext_fields_v(request.content_fields@),
                    ))
                    &&& (e == Error::NotFound ==> content_idx(
                        old(store)@.contents,
                        request.content_type@,
                        request.content_id,
                    ) is None)
                },
            },
    {
        let content_fields = match convert_fields(&request.content_fields) {
            Ok(fields) => fields,
            Err(err) => {
                return Err(err);
            },
        };
        proof {
            lemma_conv_fields_wf(ext_fields_v(request.content_fields@));
        }
        let updatable = UpdatableContentModel {
            id: request.content_id,
            name: request.name,
            content_type: request.content_type,
            logged_in_username,
            content_fields,
        };
        match self.content_repository.update_content(store, updatable, now) {
            Ok(content) => Ok(UpdateContentResponse { status: true, data: Some(content) }),
            Err(err) => Err(err),
        }
    }

    /// Identifier-only rename of a content entity: nothing but the
    /// identifier, the update stamp and the editor change.
    pub fn put_content_identifier(
        &self,
        store: &mut Store,
        request: PutContentIdentifierRequest,
        logged_in_username: String,
        now: u64,
    ) -> (r: Result<PutContentIdentifierResponse, Error>)
        requires
            store_wf(old(store)@),
        ensures
            store_wf(final(store)@),
            match r {
                Ok(resp) => {
                    let s0 = old(store)@.contents;
                    let i = content_idx(s0, request.content_type@, request.content_id)->Some_0;
                    &&& resp.status == true
                    &&& resp.data is Some
                    &&& content_idx(s0, request.content_type@, request.content_id) is Some
                    &&& resp.data->Some_0@ == (ContentV {
                        identifier: request.identifier@,
                        updated_at: now,
                        updated_by: logged_in_username@,
                        ..s0[i]
                    })
                    &&& final(store)@.contents == s0.update(i, resp.data->Some_0@)
                    &&& final(store)@.collections == old(store)@.collections
                    &&& final(store)@.next_content_id == old(store)@.next_content_id
                    &&& final(store)@.next_collection_id == old(store)@.next_collection_id
                },
                Err(e) => {
                    &&& final(store)@ == old(store)@
                    &&& (e == Error::NotFound || e == Error::Conflict)
                    &&& (e == Error::NotFound <==> content_idx(
                        old(store)@.contents,
                        request.content_type@,
                        request.content_id,
                    ) is None)
                    &&& (e == Error::Conflict ==> exists|j: int|
                        #![trigger old(store)@.contents[j]]
                        0 <= j < old(store)@.contents.len() && j != content_idx(
                            old(store)@.contents,
                            request.content_type@,
                            request.content_id,
                        )->Some_0 && old(store)@.contents[j].content_type == request.content_type@
                            && old(store)@.contents[j].identifier == request.identifier@)
                },
            },
    {
        let model = PutContentIdentifierModel {
            id: request.content_id,
            identifier: request.identifier,
            content_type: request.content_type,
            logged_in_username,
        };
        match self.content_repository.update_content_identifier(store, model, now) {
            Ok(content) => Ok(PutContentIdentifierResponse { status: true, data: Some(content) }),
            Err(err) => Err(err),
        }
    }

    /// Exact lookup of one collection by id.
    pub fn get_collection(&self, store: &Store, request: GetCollectionRequest) -> (r: Result<
        GetCollectionResponse,
        Error,
    >)
        ensures
            match r {
                Ok(resp) => {
                    &&& resp.status == true
                    &&& resp.data is Some
                    &&& col_idx(store@.collections, request.collection_id) is Some
                    &&& resp.data->Some_0@ == store@.collections[col_idx(
                        store@.collections,
                        request.collection_id,
                    )->Some_0]
                },
                Err(e) => e == Error::NotFound && col_idx(
                    store@.collections,
                    request.collection_id,
                ) is None,
            },
    {
        match self.collection_repository.find_by_id(store, request.collection_id) {
            Ok(collection) => Ok(GetCollectionResponse { status: true, data: Some(collection) }),
            Err(err) => Err(err),
        }
    }

    /// Creates a collection; `Conflict` exactly when the identifier is
    /// already taken. The acting user is stamped as author and editor.
    pub fn store_collection(
        &self,
        store: &mut Store,
        request: StoreCollectionRequest,
        logged_in_user_email: &str,
        now: u64,
    ) -> (r: Result<StoreCollectionResponse, Error>)
        requires
            store_wf(old(store)@),
            old(store).next_collection_id < u64::MAX,
        ensures
            store_wf(final(store)@),
            match r {
                Ok(resp) => {
                    &&& resp.status == true
                    &&& resp.data is Some
                    &&& col_by_identifier(old(store)@.collections, request.identifier@) is None
                    &&& resp.data->Some_0@ == (CollectionV {
                        id: old(store)@.next_collection_id,
                        name: request.name@,
                        identifier: request.identifier@,
                        created_at: now,
                        updated_at: now,
                        created_by: logged_in_user_email@,
                        updated_by: logged_in_user_email@,
                    })
                    &&& final(store)@.collections == old(store)@.collections.push(
                        resp.data->Some_0@,
                    )
                    &&& final(store)@.contents == old(store)@.contents
                    &&& final(store)@.next_collection_id == old(store)@.next_collection_id + 1
                    &&& final(store)@.next_content_id == old(store)@.next_content_id
                },
                Err(e) => {
                    &&& e == Error::Conflict
                    &&& col_by_identifier(old(store)@.collections, request.identifier@) is Some
                    &&& final(store)@ == old(store)@
                },
            },
    {
        let creatable = CreatableCollection {
            name: request.name,
            identifier: request.identifier,
            logged_in_username: logged_in_user_email.to_owned(),
        };
        match self.collection_repository.create_collection(store, creatable, now) {
            Ok(collection) => Ok(StoreCollectionResponse { status: true, data: Some(collection) }),
            Err(err) => Err(err),
        }
    }

    /// Full replacement of a collection's name and identifier; `NotFound`
    /// when the id is absent, `Conflict` when the new identifier belongs
    /// to a different collection.
    pub fn update_collection(
        &self,
        store: &mut Store,
        request: UpdateCollectionRequest,
        logged_in_user_email: &str,
        now: u64,
    ) -> (r: Result<UpdateCollectionResponse, Error>)
        requires
            store_wf(old(store)@),
        ensures
            store_wf(final(store)@),
            match r {
                Ok(resp) => {
                    let s0 = old(store)@.collections;
                    let i = col_idx(s0, request.id)->Some_0;
                    &&& resp.status == true
                    &&& resp.data is Some
                    &&& col_idx(s0, request.id) is Some
                    &&& resp.data->Some_0@ == (CollectionV {
                        id: request.id,
                        name: request.name@,
                        identifier: request.identifier@,
                        created_at: s0[i].created_at,
                        updated_at: now,
                        created_by: s0[i].created_by,
                        updated_by: logged_in_user_email@,
                    })
                    &&& final(store)@.collections == s0.update(i, resp.data->Some_0@)
                    &&& final(store)@.contents == old(store)@.contents
                    &&& final(store)@.next_collection_id == old(store)@.next_collection_id
                    &&& final(store)@.next_content_id == old(store)@.next_content_id
                },
                Err(e) => {
                    &&& final(store)@ == old(store)@
                    &&& (e == Error::NotFound || e == Error::Conflict)
                    &&& (e == Error::NotFound <==> col_idx(
                        old(store)@.collections,
                        request.id,
                    ) is None)
                    &&& (e == Error::Conflict ==> exists|j: int|
                        0 <= j < old(store)@.collections.len() && j != col_idx(
                            old(store)@.collections,
                            request.id,
                        )->Some_0 && (#[trigger] old(store)@.collections[j].identifier)
                            == request.identifier@)
                },
            },
    {
        let updatable = UpdatableCollection {
            id: request.id,
            name: request.name,
            identifier: request.identifier,
            logged_in_username: logged_in_user_email.to_owned(),
        };
        match self.collection_repository.update_collection(store, updatable, now) {
            Ok(collection) => Ok(
                UpdateCollectionResponse { status: true, data: Some(collection) },
            ),
            Err(err) => Err(err),
        }
    }

    /// Pre-flight existence check for a content identifier under a
    /// content type: advisory only, never the enforcement mechanism.
    pub fn count_of_identifier(
        &self,
        store: &Store,
        collection_type: &String,
        identifier: &String,
    ) -> (r: Result<ModelCount, Error>)
        ensures
            r is Ok,
            r->Ok_0.total == count_content_ident(store@.contents, collection_type@, identifier@),
    {
        Ok(self.content_repository.count_of_identifier(store, collection_type, identifier))
    }

    /// Pre-flight existence check for a collection identifier.
    pub fn count_of_collection(&self, store: &Store, identifier: &String) -> (r: Result<
        ModelCount,
        Error,
    >)
        ensures
            r is Ok,
            r->Ok_0.total == count_col_ident(store@.collections, identifier@),
    {
        Ok(self.collection_repository.count_of_identifier(store, identifier))
    }

    /// Deletes one content entity; the status flag reports whether an
    /// entity was removed, and deleting an absent entity is not an error.
    pub fn delete_content(&self, store: &mut Store, content_id: u64, content_type: &String) -> (r:
        Result<DeleteContentResponse, Error>)
        requires
            store_wf(old(store)@),
        ensures
            store_wf(final(store)@),
            r is Ok,
            final(store)@.collections == old(store)@.collections,
            final(store)@.next_content_id == old(store)@.next_content_id,
            final(store)@.next_collection_id == old(store)@.next_collection_id,
            match content_idx(old(store)@.contents, content_type@, content_id) {
                Some(i) => r->Ok_0.status == true && final(store)@.contents
                    == old(store)@.contents.remove(i),
                None => r->Ok_0.status == false && final(store)@.contents
                    == old(store)@.contents,
            },
    {
        let delete_status = self.content_repository.delete_content(store, content_type, content_id);
        Ok(DeleteContentResponse { status: delete_status })
    }
}

/// The service for the public, unauthenticated content read path and the
/// contact form.
pub struct CmsService {
    pub content_repository: ContentRepository,
}

impl CmsService {
    pub fn new(content_repository: ContentRepository) -> (r: Result<CmsService, Error>)
        ensures
            r is Ok,
    {
        Ok(CmsService { content_repository })
    }

    /// Public lookup of one content entity by identifier, scoped by
    /// content type.
    pub fn get_cms_content(&self, store: &Store, request: GetCmsContentRequest) -> (r: Result<
        GetCmsContentResponse,
        Error,
    >)
        ensures
            match r {
                Ok(resp) => {
                    &&& resp.status == true
                    &&& resp.data is Some
                    &&& content_ident_idx(
                        store@.contents,
                        request.content_type@,
                        request.content_identifier@,
                    ) is Some
                    &&& resp.data->Some_0@ == store@.contents[content_ident_idx(
                        store@.contents,
                        request.content_type@,
                        request.content_identifier@,
                    )->Some_0]
                },
                Err(e) => e == Error::NotFound && content_ident_idx(
                    store@.contents,
                    request.content_type@,
                    request.content_identifier@,
                ) is None,
            },
    {
        match self.content_repository.find_by_identifier(
            store,
            &request.content_type,
            &request.content_identifier,
        ) {
            Ok(content) => Ok(GetCmsContentResponse { status: true, data: Some(content) }),
            Err(err) => Err(err),
        }
    }

    /// Builds the structured payload that the template engine renders
    /// into the contact-us email body; every attribute is carried over
    /// unchanged.
    pub fn contact_form_payload(&self, request: SentContactFormRequest) -> (r:
        SentContactUsEmailRequest)
        ensures
            r.email@ == request.email@,
            r.first_name@ == request.first_name@,
            r.last_name@ == request.last_name@,
            r.message@ == request.message@,
            r.phone@ == request.phone@,
    {
        SentContactUsEmailRequest {
            email: request.email,
            first_name: request.first_name,
            last_name: request.last_name,
            message: request.message,
            phone: request.phone,
        }
    }

    /// Maps the outcome of the outside send into the response: a
    /// successful send yields a positive status, a failed send a generic
    /// external-service error, never a partial response.
    pub fn sent_contact_form(&self, send_succeeded: bool) -> (r: Result<
        SentContactFormResponse,
        Error,
    >)
        ensures
            send_succeeded <==> (r is Ok && r->Ok_0.status == true),
            !send_succeeded <==> r == Err::<SentContactFormResponse, Error>(
                Error::ExternalServiceFailure,
            ),
    {
        if send_succeeded {
            Ok(SentContactFormResponse { status: true })
        } else {
            Err(Error::ExternalServiceFailure)
        }
    }
}

} // verus!
