use avored_cms::Error;
use avored_cms::collection_repository::CollectionRepository;
use avored_cms::content_repository::ContentRepository;
use avored_cms::field::{ExternalField, ExternalFieldData, FieldData};
use avored_cms::model::Store;
use avored_cms::order::{ContentOrder, OrderColumn, OrderDirection, parse_order};
use avored_cms::service::{
    CmsService, ContentPaginateRequest, ContentService, GetCmsContentRequest, GetContentRequest,
    PutContentIdentifierRequest, SentContactFormRequest, StoreCollectionRequest,
    StoreContentRequest, UpdateContentRequest,
};

fn service() -> ContentService {
    ContentService::new(ContentRepository::new(), CollectionRepository::new()).unwrap()
}

fn cms_service() -> CmsService {
    CmsService::new(ContentRepository::new()).unwrap()
}

fn title_field(value: &str) -> ExternalField {
    ExternalField {
        name: "Title".to_string(),
        identifier: "title".to_string(),
        data_type: "TEXT".to_string(),
        field_type: "SINGLE_LINE".to_string(),
        field_content: "SCALAR".to_string(),
        field_data: ExternalFieldData { value: value.to_string(), children: Vec::new() },
    }
}

fn store_request(name: &str, identifier: &str, content_type: &str, value: &str) -> StoreContentRequest {
    StoreContentRequest {
        name: name.to_string(),
        identifier: identifier.to_string(),
        content_type: content_type.to_string(),
        content_fields: vec![title_field(value)],
    }
}

#[test]
fn order_string_parsing_follows_the_allow_list() {
    let id_desc = ContentOrder { column: OrderColumn::Id, direction: OrderDirection::Desc };
    assert_eq!(
        parse_order(&"name:asc".to_string()),
        ContentOrder { column: OrderColumn::Name, direction: OrderDirection::Asc }
    );
    assert_eq!(
        parse_order(&"identifier:desc".to_string()),
        ContentOrder { column: OrderColumn::Identifier, direction: OrderDirection::Desc }
    );
    assert_eq!(
        parse_order(&"id:asc".to_string()),
        ContentOrder { column: OrderColumn::Id, direction: OrderDirection::Asc }
    );
    // No separator, two separators, or an empty string: no override.
    assert_eq!(parse_order(&"".to_string()), id_desc);
    assert_eq!(parse_order(&"name".to_string()), id_desc);
    assert_eq!(parse_order(&"name:asc:extra".to_string()), id_desc);
    // An unrecognized column or direction falls back to the default part.
    assert_eq!(
        parse_order(&"price:asc".to_string()),
        ContentOrder { column: OrderColumn::Id, direction: OrderDirection::Asc }
    );
    assert_eq!(
        parse_order(&"name:sideways".to_string()),
        ContentOrder { column: OrderColumn::Name, direction: OrderDirection::Desc }
    );
}

#[test]
fn end_to_end_blog_post_scenario() {
    let svc = service();
    let mut store = Store::new();

    let created = svc
        .store_collection(
            &mut store,
            StoreCollectionRequest {
                name: "Blog Posts".to_string(),
                identifier: "blog-post".to_string(),
            },
            "admin@example.com",
            1,
        )
        .unwrap();
    assert!(created.status);
    assert_eq!(created.data.unwrap().identifier, "blog-post");

    let stored = svc
        .store_content(
            &mut store,
            store_request("Hello World", "hello-world", "blog-post", "Hello"),
            "admin@example.com".to_string(),
            2,
        )
        .unwrap();
    assert!(stored.status);
    let content = stored.data.unwrap();
    assert_eq!(content.identifier, "hello-world");
    assert_eq!(content.created_by, "admin@example.com");

    let cms = cms_service();
    let fetched = cms
        .get_cms_content(
            &store,
            GetCmsContentRequest {
                content_type: "blog-post".to_string(),
                content_identifier: "hello-world".to_string(),
            },
        )
        .unwrap();
    assert!(fetched.status);
    let entity = fetched.data.unwrap();
    assert_eq!(entity.content_fields.len(), 1);
    assert_eq!(entity.content_fields[0].identifier, "title");
    match &entity.content_fields[0].field_data {
        FieldData::Scalar(v) => assert_eq!(v, "Hello"),
        FieldData::Group(_) => panic!("expected the title to be a scalar"),
    }
}

#[test]
fn preflight_count_before_and_after_create() {
    let svc = service();
    let mut store = Store::new();
    let ct = "blog-post".to_string();
    let ident = "hello-world".to_string();
    assert_eq!(svc.count_of_identifier(&store, &ct, &ident).unwrap().total, 0);
    svc.store_content(
        &mut store,
        store_request("Hello World", "hello-world", "blog-post", "Hello"),
        "admin@example.com".to_string(),
        1,
    )
    .unwrap();
    assert_eq!(svc.count_of_identifier(&store, &ct, &ident).unwrap().total, 1);
}

#[test]
fn store_content_rejects_bad_fields_without_storing_anything() {
    let svc = service();
    let mut store = Store::new();
    let mut request = store_request("Hello", "hello", "blog-post", "Hello");
    request.content_fields[0].data_type = "GARBAGE".to_string();
    let r = svc.store_content(&mut store, request, "admin@example.com".to_string(), 1);
    assert_eq!(r.err(), Some(Error::Validation));
    assert_eq!(
        svc.content_paginate(
            &store,
            ContentPaginateRequest {
                content_type: "blog-post".to_string(),
                page: None,
                order: None,
            },
        )
        .unwrap()
        .data
        .unwrap()
        .pagination
        .total,
        0
    );
}

#[test]
fn store_content_surfaces_conflicts() {
    let svc = service();
    let mut store = Store::new();
    svc.store_content(
        &mut store,
        store_request("Hello", "hello", "blog-post", "one"),
        "admin@example.com".to_string(),
        1,
    )
    .unwrap();
    let r = svc.store_content(
        &mut store,
        store_request("Hello 2", "hello", "blog-post", "two"),
        "admin@example.com".to_string(),
        2,
    );
    assert_eq!(r.err(), Some(Error::Conflict));
}

#[test]
fn collection_conflict_and_collection_count() {
    let svc = service();
    let mut store = Store::new();
    svc.store_collection(
        &mut store,
        StoreCollectionRequest { name: "A".to_string(), identifier: "a".to_string() },
        "admin@example.com",
        1,
    )
    .unwrap();
    let r = svc.store_collection(
        &mut store,
        StoreCollectionRequest { name: "A again".to_string(), identifier: "a".to_string() },
        "admin@example.com",
        2,
    );
    assert_eq!(r.err(), Some(Error::Conflict));
    assert_eq!(svc.count_of_collection(&store, &"a".to_string()).unwrap().total, 1);
    let all = svc.collection_all(&store).unwrap();
    assert!(all.status);
    assert_eq!(all.data.len(), 1);
}

#[test]
fn paginate_response_carries_total_and_ordered_window() {
    let svc = service();
    let mut store = Store::new();
    for (name, ident) in [("cherry", "c"), ("apple", "a"), ("banana", "b")] {
        svc.store_content(
            &mut store,
            store_request(name, ident, "blog-post", "x"),
            "admin@example.com".to_string(),
            1,
        )
        .unwrap();
    }
    let resp = svc
        .content_paginate(
            &store,
            ContentPaginateRequest {
                content_type: "blog-post".to_string(),
                page: Some(0),
                order: Some("name:asc".to_string()),
            },
        )
        .unwrap();
    assert!(resp.status);
    let data = resp.data.unwrap();
    assert_eq!(data.pagination.total, 3);
    let names: Vec<String> = data.data.iter().map(|c| c.name.clone()).collect();
    assert_eq!(names, vec!["apple", "banana", "cherry"]);

    let default_resp = svc
        .content_paginate(
            &store,
            ContentPaginateRequest {
                content_type: "blog-post".to_string(),
                page: None,
                order: Some("".to_string()),
            },
        )
        .unwrap();
    let ids: Vec<u64> = default_resp.data.unwrap().data.iter().map(|c| c.id).collect();
    assert_eq!(ids, vec![3, 2, 1]);
}

#[test]
fn get_update_rename_and_delete_via_the_service() {
    let svc = service();
    let mut store = Store::new();
    let stored = svc
        .store_content(
            &mut store,
            store_request("Hello", "hello", "blog-post", "one"),
            "admin@example.com".to_string(),
            1,
        )
        .unwrap();
    let id = stored.data.unwrap().id;

    let got = svc
        .get_content(
            &store,
            GetContentRequest { content_type: "blog-post".to_string(), content_id: id },
        )
        .unwrap();
    assert_eq!(got.data.unwrap().name, "Hello");

    let updated = svc
        .update_content(
            &mut store,
            UpdateContentRequest {
                content_id: id,
                name: "Hello 2".to_string(),
                content_type: "blog-post".to_string(),
                content_fields: vec![title_field("two")],
            },
            "editor@example.com".to_string(),
            5,
        )
        .unwrap();
    let entity = updated.data.unwrap();
    assert_eq!(entity.name, "Hello 2");
    assert_eq!(entity.identifier, "hello");
    assert_eq!(entity.updated_at, 5);

    let renamed = svc
        .put_content_identifier(
            &mut store,
            PutContentIdentifierRequest {
                content_id: id,
                identifier: "hello-renamed".to_string(),
                content_type: "blog-post".to_string(),
            },
            "editor@example.com".to_string(),
            6,
        )
        .unwrap();
    let entity = renamed.data.unwrap();
    assert_eq!(entity.identifier, "hello-renamed");
    assert_eq!(entity.name, "Hello 2");
    assert_eq!(entity.created_at, 1);
    assert_eq!(entity.updated_at, 6);

    let deleted = svc.delete_content(&mut store, id, &"blog-post".to_string()).unwrap();
    assert!(deleted.status);
    let gone = svc.get_content(
        &store,
        GetContentRequest { content_type: "blog-post".to_string(), content_id: id },
    );
    assert_eq!(gone.err(), Some(Error::NotFound));
    let again = svc.delete_content(&mut store, id, &"blog-post".to_string()).unwrap();
    assert!(!again.status);
}

#[test]
fn contact_form_payload_and_outcome_mapping() {
    let cms = cms_service();
    let payload = cms.contact_form_payload(SentContactFormRequest {
        email: "visitor@example.com".to_string(),
        first_name: "Ada".to_string(),
        last_name: "Lovelace".to_string(),
        message: "Hi".to_string(),
        phone: "123".to_string(),
    });
    assert_eq!(payload.email, "visitor@example.com");
    assert_eq!(payload.first_name, "Ada");
    assert_eq!(payload.last_name, "Lovelace");
    assert_eq!(payload.message, "Hi");
    assert_eq!(payload.phone, "123");

    assert!(cms.sent_contact_form(true).unwrap().status);
    assert_eq!(cms.sent_contact_form(false).err(), Some(Error::ExternalServiceFailure));
}
