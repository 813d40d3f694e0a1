use avored_cms::Error;
use avored_cms::collection_repository::CollectionRepository;
use avored_cms::content_repository::ContentRepository;
use avored_cms::field::FieldData;
use avored_cms::model::{
    CreatableCollection, CreatableContentModel, PutContentIdentifierModel, Store,
    UpdatableCollection, UpdatableContentModel,
};
use avored_cms::order::{ContentOrder, OrderColumn, OrderDirection, parse_order};

fn creatable_collection(name: &str, identifier: &str) -> CreatableCollection {
    CreatableCollection {
        name: name.to_string(),
        identifier: identifier.to_string(),
        logged_in_username: "admin@example.com".to_string(),
    }
}

fn creatable_content(name: &str, identifier: &str, content_type: &str) -> CreatableContentModel {
    CreatableContentModel {
        name: name.to_string(),
        identifier: identifier.to_string(),
        content_type: content_type.to_string(),
        logged_in_username: "admin@example.com".to_string(),
        content_fields: Vec::new(),
    }
}

#[test]
fn collection_create_assigns_ids_and_stamps_the_caller() {
    let repo = CollectionRepository::new();
    let mut store = Store::new();
    let c = repo.create_collection(&mut store, creatable_collection("Blog Posts", "blog-post"), 7).unwrap();
    assert_eq!(c.id, 1);
    assert_eq!(c.name, "Blog Posts");
    assert_eq!(c.identifier, "blog-post");
    assert_eq!(c.created_at, 7);
    assert_eq!(c.updated_at, 7);
    assert_eq!(c.created_by, "admin@example.com");
    let d = repo.create_collection(&mut store, creatable_collection("Pages", "page"), 8).unwrap();
    assert_eq!(d.id, 2);
}

#[test]
fn second_collection_with_same_identifier_conflicts() {
    let repo = CollectionRepository::new();
    let mut store = Store::new();
    repo.create_collection(&mut store, creatable_collection("Blog Posts", "blog-post"), 1).unwrap();
    let r = repo.create_collection(&mut store, creatable_collection("Other", "blog-post"), 2);
    assert_eq!(r.err(), Some(Error::Conflict));
    assert_eq!(repo.all_collection(&store).len(), 1);
}

#[test]
fn collection_find_update_and_count() {
    let repo = CollectionRepository::new();
    let mut store = Store::new();
    let a = repo.create_collection(&mut store, creatable_collection("A", "a"), 1).unwrap();
    repo.create_collection(&mut store, creatable_collection("B", "b"), 2).unwrap();
    let found = repo.find_by_id(&store, a.id).unwrap();
    assert_eq!(found.identifier, "a");
    assert_eq!(repo.find_by_id(&store, 99).err(), Some(Error::NotFound));

    assert_eq!(repo.count_of_identifier(&store, &"a".to_string()).total, 1);
    assert_eq!(repo.count_of_identifier(&store, &"zzz".to_string()).total, 0);

    let updated = repo
        .update_collection(
            &mut store,
            UpdatableCollection {
                id: a.id,
                name: "A2".to_string(),
                identifier: "a2".to_string(),
                logged_in_username: "editor@example.com".to_string(),
            },
            9,
        )
        .unwrap();
    assert_eq!(updated.name, "A2");
    assert_eq!(updated.identifier, "a2");
    assert_eq!(updated.created_at, 1);
    assert_eq!(updated.updated_at, 9);
    assert_eq!(updated.updated_by, "editor@example.com");

    let clash = repo.update_collection(
        &mut store,
        UpdatableCollection {
            id: a.id,
            name: "A3".to_string(),
            identifier: "b".to_string(),
            logged_in_username: "editor@example.com".to_string(),
        },
        10,
    );
    assert_eq!(clash.err(), Some(Error::Conflict));

    let missing = repo.update_collection(
        &mut store,
        UpdatableCollection {
            id: 42,
            name: "X".to_string(),
            identifier: "x".to_string(),
            logged_in_username: "editor@example.com".to_string(),
        },
        11,
    );
    assert_eq!(missing.err(), Some(Error::NotFound));
}

#[test]
fn updating_a_collection_to_its_own_identifier_is_not_a_conflict() {
    let repo = CollectionRepository::new();
    let mut store = Store::new();
    let a = repo.create_collection(&mut store, creatable_collection("A", "a"), 1).unwrap();
    let kept = repo
        .update_collection(
            &mut store,
            UpdatableCollection {
                id: a.id,
                name: "A renamed".to_string(),
                identifier: "a".to_string(),
                logged_in_username: "editor@example.com".to_string(),
            },
            4,
        )
        .unwrap();
    assert_eq!(kept.name, "A renamed");
    assert_eq!(kept.identifier, "a");
    assert_eq!(kept.created_at, 1);
    assert_eq!(kept.updated_at, 4);
}

#[test]
fn all_collection_lists_in_id_ascending_order() {
    let repo = CollectionRepository::new();
    let mut store = Store::new();
    repo.create_collection(&mut store, creatable_collection("A", "a"), 1).unwrap();
    repo.create_collection(&mut store, creatable_collection("B", "b"), 2).unwrap();
    repo.create_collection(&mut store, creatable_collection("C", "c"), 3).unwrap();
    let all = repo.all_collection(&store);
    let ids: Vec<u64> = all.iter().map(|c| c.id).collect();
    assert_eq!(ids, vec![1, 2, 3]);
}

#[test]
fn content_create_conflicts_only_within_its_content_type() {
    let repo = ContentRepository::new();
    let mut store = Store::new();
    repo.create_content(&mut store, creatable_content("Hello", "hello-world", "blog-post"), 1)
        .unwrap();
    let same_pair = repo.create_content(
        &mut store,
        creatable_content("Hello again", "hello-world", "blog-post"),
        2,
    );
    assert_eq!(same_pair.err(), Some(Error::Conflict));
    let other_type = repo.create_content(
        &mut store,
        creatable_content("Hello page", "hello-world", "page"),
        3,
    );
    assert!(other_type.is_ok());
}

#[test]
fn content_find_is_scoped_by_content_type() {
    let repo = ContentRepository::new();
    let mut store = Store::new();
    let c = repo
        .create_content(&mut store, creatable_content("Hello", "hello-world", "blog-post"), 1)
        .unwrap();
    assert!(repo.find_by_id(&store, &"blog-post".to_string(), c.id).is_ok());
    assert_eq!(
        repo.find_by_id(&store, &"page".to_string(), c.id).err(),
        Some(Error::NotFound)
    );
    assert!(repo
        .find_by_identifier(&store, &"blog-post".to_string(), &"hello-world".to_string())
        .is_ok());
    assert_eq!(
        repo.find_by_identifier(&store, &"page".to_string(), &"hello-world".to_string()).err(),
        Some(Error::NotFound)
    );
}

#[test]
fn delete_is_idempotent_in_style() {
    let repo = ContentRepository::new();
    let mut store = Store::new();
    let c = repo
        .create_content(&mut store, creatable_content("Hello", "hello-world", "blog-post"), 1)
        .unwrap();
    assert_eq!(repo.delete_content(&mut store, &"blog-post".to_string(), 999), false);
    assert_eq!(repo.delete_content(&mut store, &"blog-post".to_string(), c.id), true);
    assert_eq!(
        repo.find_by_id(&store, &"blog-post".to_string(), c.id).err(),
        Some(Error::NotFound)
    );
    assert_eq!(repo.delete_content(&mut store, &"blog-post".to_string(), c.id), false);
}

#[test]
fn update_content_replaces_the_record_but_keeps_the_identifier() {
    let repo = ContentRepository::new();
    let mut store = Store::new();
    let c = repo
        .create_content(&mut store, creatable_content("Hello", "hello-world", "blog-post"), 1)
        .unwrap();
    let u = repo
        .update_content(
            &mut store,
            UpdatableContentModel {
                id: c.id,
                name: "Hello 2".to_string(),
                content_type: "blog-post".to_string(),
                logged_in_username: "editor@example.com".to_string(),
                content_fields: Vec::new(),
            },
            5,
        )
        .unwrap();
    assert_eq!(u.name, "Hello 2");
    assert_eq!(u.identifier, "hello-world");
    assert_eq!(u.created_at, 1);
    assert_eq!(u.updated_at, 5);
    assert_eq!(u.updated_by, "editor@example.com");

    let missing = repo.update_content(
        &mut store,
        UpdatableContentModel {
            id: 77,
            name: "X".to_string(),
            content_type: "blog-post".to_string(),
            logged_in_username: "editor@example.com".to_string(),
            content_fields: Vec::new(),
        },
        6,
    );
    assert_eq!(missing.err(), Some(Error::NotFound));
}

#[test]
fn rename_touches_only_the_identifier_and_update_stamp() {
    let repo = ContentRepository::new();
    let mut store = Store::new();
    let mut creatable = creatable_content("Hello", "hello-world", "blog-post");
    creatable.content_fields = vec![avored_cms::field::ContentField {
        name: "Title".to_string(),
        identifier: "title".to_string(),
        data_type: avored_cms::field::DataType::Text,
        field_type: avored_cms::field::FieldType::SingleLine,
        field_content: avored_cms::field::FieldContent::Scalar,
        field_data: FieldData::Scalar("Hello".to_string()),
    }];
    let c = repo.create_content(&mut store, creatable, 1).unwrap();
    let renamed = repo
        .update_content_identifier(
            &mut store,
            PutContentIdentifierModel {
                id: c.id,
                identifier: "hello-again".to_string(),
                content_type: "blog-post".to_string(),
                logged_in_username: "editor@example.com".to_string(),
            },
            9,
        )
        .unwrap();
    assert_eq!(renamed.identifier, "hello-again");
    assert_eq!(renamed.name, "Hello");
    assert_eq!(renamed.created_at, 1);
    assert_eq!(renamed.created_by, "admin@example.com");
    assert_eq!(renamed.updated_at, 9);
    assert_eq!(renamed.updated_by, "editor@example.com");
    assert_eq!(renamed.content_fields.len(), 1);
    match &renamed.content_fields[0].field_data {
        FieldData::Scalar(v) => assert_eq!(v, "Hello"),
        FieldData::Group(_) => panic!("expected the scalar field to survive the rename"),
    }
}

#[test]
fn rename_conflicts_within_the_content_type() {
    let repo = ContentRepository::new();
    let mut store = Store::new();
    let c = repo
        .create_content(&mut store, creatable_content("A", "a", "blog-post"), 1)
        .unwrap();
    repo.create_content(&mut store, creatable_content("B", "b", "blog-post"), 2).unwrap();
    let clash = repo.update_content_identifier(
        &mut store,
        PutContentIdentifierModel {
            id: c.id,
            identifier: "b".to_string(),
            content_type: "blog-post".to_string(),
            logged_in_username: "editor@example.com".to_string(),
        },
        3,
    );
    assert_eq!(clash.err(), Some(Error::Conflict));
    let missing = repo.update_content_identifier(
        &mut store,
        PutContentIdentifierModel {
            id: 50,
            identifier: "c".to_string(),
            content_type: "blog-post".to_string(),
            logged_in_username: "editor@example.com".to_string(),
        },
        4,
    );
    assert_eq!(missing.err(), Some(Error::NotFound));
}

#[test]
fn counts_are_scoped() {
    let repo = ContentRepository::new();
    let mut store = Store::new();
    repo.create_content(&mut store, creatable_content("A", "a", "blog-post"), 1).unwrap();
    repo.create_content(&mut store, creatable_content("B", "b", "blog-post"), 2).unwrap();
    repo.create_content(&mut store, creatable_content("C", "a", "page"), 3).unwrap();
    assert_eq!(repo.get_total_count(&store, &"blog-post".to_string()).total, 2);
    assert_eq!(repo.get_total_count(&store, &"page".to_string()).total, 1);
    assert_eq!(
        repo.count_of_identifier(&store, &"blog-post".to_string(), &"a".to_string()).total,
        1
    );
    assert_eq!(
        repo.count_of_identifier(&store, &"page".to_string(), &"b".to_string()).total,
        0
    );
}

#[test]
fn paginate_orders_by_name_ascending_and_windows() {
    let repo = ContentRepository::new();
    let mut store = Store::new();
    repo.create_content(&mut store, creatable_content("cherry", "c", "blog-post"), 1).unwrap();
    repo.create_content(&mut store, creatable_content("apple", "a", "blog-post"), 2).unwrap();
    repo.create_content(&mut store, creatable_content("banana", "b", "blog-post"), 3).unwrap();
    repo.create_content(&mut store, creatable_content("zzz", "z", "page"), 4).unwrap();

    let asc = ContentOrder { column: OrderColumn::Name, direction: OrderDirection::Asc };
    let page = repo.paginate(&store, &"blog-post".to_string(), 0, asc);
    let names: Vec<String> = page.iter().map(|c| c.name.clone()).collect();
    assert_eq!(names, vec!["apple", "banana", "cherry"]);

    let windowed = repo.paginate(&store, &"blog-post".to_string(), 1, asc);
    let names: Vec<String> = windowed.iter().map(|c| c.name.clone()).collect();
    assert_eq!(names, vec!["banana", "cherry"]);

    let past_the_end = repo.paginate(&store, &"blog-post".to_string(), 50, asc);
    assert_eq!(past_the_end.len(), 0);
}

#[test]
fn paginate_defaults_to_id_descending() {
    let repo = ContentRepository::new();
    let mut store = Store::new();
    repo.create_content(&mut store, creatable_content("first", "a", "blog-post"), 1).unwrap();
    repo.create_content(&mut store, creatable_content("second", "b", "blog-post"), 2).unwrap();
    repo.create_content(&mut store, creatable_content("third", "c", "blog-post"), 3).unwrap();
    let order = parse_order(&"".to_string());
    assert_eq!(order, ContentOrder { column: OrderColumn::Id, direction: OrderDirection::Desc });
    let page = repo.paginate(&store, &"blog-post".to_string(), 0, order);
    let ids: Vec<u64> = page.iter().map(|c| c.id).collect();
    assert_eq!(ids, vec![3, 2, 1]);
}

#[test]
fn paginate_returns_at_most_one_page() {
    let repo = ContentRepository::new();
    let mut store = Store::new();
    for i in 0..13u32 {
        let ident = format!("item-{}", i);
        let name = format!("n{}", i);
        repo.create_content(&mut store, creatable_content(&name, &ident, "blog-post"), 1)
            .unwrap();
    }
    let order = ContentOrder { column: OrderColumn::Id, direction: OrderDirection::Asc };
    let first = repo.paginate(&store, &"blog-post".to_string(), 0, order);
    assert_eq!(first.len(), 10);
    assert_eq!(first[0].id, 1);
    assert_eq!(first[9].id, 10);
    let second = repo.paginate(&store, &"blog-post".to_string(), 10, order);
    assert_eq!(second.len(), 3);
    assert_eq!(second[0].id, 11);
}
