use querry::error::AppError;
use querry::codes::ProtocolTypes;
use querry::records::CollectionData;
use querry::store::collections::{
    create_collection, delete_collection, get_all_collections, get_single_collection,
    insert_collection, search_collections, update_collection_item,
};
use querry::store::requests::{create_request, get_collection_requests};
use querry::store::Store;

fn icon_pack() -> Vec<String> {
    vec!["1F600.svg".to_string(), "1F4C1.svg".to_string(), "1F680.svg".to_string()]
}

fn setup_test_db() -> Result<Store, AppError> {
    Ok(Store::new())
}

#[test]
fn test_create_collection() {
    let mut db = setup_test_db().expect("Cant setup db.");
    let collection = create_collection("Test collections".to_string(), &icon_pack(), &mut db)
        .expect("Cant get collections");

    assert!(collection.requests_count == 0);
    let existing_collection = get_all_collections(&db).expect("cant get collections");

    println!(
        "{} - {} - {} - {}",
        collection.name,
        collection.id,
        collection.icon,
        existing_collection.len()
    );
    assert!(existing_collection.len() == 1);

    create_request(ProtocolTypes::Http, &collection.id, &mut db).unwrap();
    let single_collection =
        get_single_collection(&collection.id, &db).expect("cant get collections");
    assert!(single_collection.requests_count == 1);
}

#[test]
fn collections_test_create_collection() {
    let mut db = setup_test_db().expect("Cant setup db.");
    let _collection = create_collection("Test collection".to_string(), &icon_pack(), &mut db)
        .expect("Cant get collections");
    let existing_collection = get_all_collections(&db).expect("cant get collections");
    assert!(existing_collection.len() == 1)
}

#[test]
fn test_delete_collection() {
    let mut db = setup_test_db().expect("Cant setup db.");
    let collection = create_collection("Test collection".to_string(), &icon_pack(), &mut db)
        .expect("Cant get collections");

    delete_collection(&collection.id, &mut db).expect("Can't delete");

    let existing_collection = get_all_collections(&db).expect("cant get collections");
    assert!(existing_collection.len() == 0)
}

#[test]
fn collections_test_delete_collection() {
    let mut db = setup_test_db().expect("Cant setup db.");
    let collection = create_collection("Test collection".to_string(), &icon_pack(), &mut db)
        .expect("Cant get collections");

    delete_collection(&collection.id, &mut db).expect("Can't delete");

    let existing_collection = get_all_collections(&db).expect("cant get collections");
    assert!(existing_collection.len() == 0)
}

#[test]
fn test_single_collection() {
    let mut db = setup_test_db().expect("Cant setup db.");
    let collection = create_collection("Test collection".to_string(), &icon_pack(), &mut db)
        .expect("Cant get collections");

    let single_collection =
        get_single_collection(&collection.id, &db).expect("cant get collections");
    assert!(single_collection.id == collection.id);
    assert!(single_collection.name == collection.name);
    assert!(!single_collection.icon.is_empty());
}

#[test]
fn collections_test_single_collection() {
    let mut db = setup_test_db().expect("Cant setup db.");
    let collection = create_collection("Test collection".to_string(), &icon_pack(), &mut db)
        .expect("Cant get collections");

    let single_collection =
        get_single_collection(&collection.id.clone(), &db).expect("cant get collections");
    assert!(single_collection.id == collection.id)
}

#[test]
fn test_update_collection() {
    let mut db = setup_test_db().expect("Cant setup db.");
    let collection = create_collection("Test collection".to_string(), &icon_pack(), &mut db)
        .expect("Cant get collections");

    let single_collection = update_collection_item(
        &collection.id,
        "hey",
        "icon.png",
        collection.requests_count,
        &mut db,
    )
    .expect("cant get collections");

    assert!(single_collection.id == collection.id);
    assert!(single_collection.name == "hey".to_string());
    assert!(single_collection.icon == "icon.png".to_string());
}

#[test]
fn test_search_collections() {
    let mut db = setup_test_db().expect("Cant setup db.");

    let collection = create_collection("Test collection".to_string(), &icon_pack(), &mut db)
        .expect("Cant get collections");

    let collections = search_collections(&db, "tion").expect("cant get collections");

    assert!(collections.len() > 0);
    assert!(collections[0].id == collection.id);
    assert!(collections[0].name == collection.name);
    assert!(collections[0].icon == collection.icon);
}

#[test]
fn test_search_collections_2() {
    let mut db = setup_test_db().expect("Cant setup db.");
    let collection = create_collection("Test collection".to_string(), &icon_pack(), &mut db)
        .expect("Cant get collections");

    let collections = search_collections(&db, "TIO").expect("cant get collections");

    assert!(collections.len() > 0);
    assert!(collections[0].id == collection.id);
    assert!(collections[0].name == collection.name);
    assert!(collections[0].icon == collection.icon);
}

#[test]
fn test_search_collections_3() {
    let mut db = setup_test_db().expect("Cant setup db.");
    let collection = create_collection("Test collection".to_string(), &icon_pack(), &mut db)
        .expect("Cant get collections");

    let collections = search_collections(&db, "TES").expect("cant get collections");

    assert!(collections.len() > 0);
    assert!(collections[0].id == collection.id);
    assert!(collections[0].name == collection.name);
    assert!(collections[0].icon == collection.icon);
}

#[test]
fn test_search_collections_4() {
    let mut db = setup_test_db().expect("Cant setup db.");
    let _collection = create_collection("Test collection".to_string(), &icon_pack(), &mut db)
        .expect("Cant get collections");

    let collections = search_collections(&db, "lal").expect("cant get collections");

    assert!(collections.len() == 0);
}

fn same_collection(a: &CollectionData, b: &CollectionData) -> bool {
    a.id == b.id && a.name == b.name && a.icon == b.icon && a.requests_count == b.requests_count
}

#[test]
fn created_collection_is_read_back() {
    let mut db = Store::new();
    let created = create_collection("Inbox".to_string(), &icon_pack(), &mut db).unwrap();
    let read = get_single_collection(&created.id, &db).unwrap();
    assert!(same_collection(&created, &read));
    assert_eq!(read.name, "Inbox");
    assert_eq!(read.requests_count, 0);
}

#[test]
fn created_collection_has_a_uuid_and_an_icon_of_the_pack() {
    let mut db = Store::new();
    let pack = icon_pack();
    let created = create_collection("Inbox".to_string(), &pack, &mut db).unwrap();
    assert_eq!(created.id.len(), 36);
    let bytes = created.id.as_bytes();
    for (i, b) in bytes.iter().enumerate() {
        if i == 8 || i == 13 || i == 18 || i == 23 {
            assert_eq!(*b, b'-');
        } else {
            assert!(b.is_ascii_digit() || (b'a'..=b'f').contains(b));
        }
    }
    assert!(pack.contains(&created.icon));
}

#[test]
fn two_created_collections_get_two_ids() {
    let mut db = Store::new();
    let a = create_collection("A".to_string(), &icon_pack(), &mut db).unwrap();
    let b = create_collection("B".to_string(), &icon_pack(), &mut db).unwrap();
    assert_ne!(a.id, b.id);
}

#[test]
fn empty_icon_pack_gives_the_default_icon() {
    let mut db = Store::new();
    let created = create_collection("Inbox".to_string(), &Vec::new(), &mut db).unwrap();
    assert_eq!(created.icon, "1F4A6.svg");
}

#[test]
fn collections_are_listed_newest_first() {
    let mut db = Store::new();
    let a = create_collection("first".to_string(), &icon_pack(), &mut db).unwrap();
    let b = create_collection("second".to_string(), &icon_pack(), &mut db).unwrap();
    let c = create_collection("third".to_string(), &icon_pack(), &mut db).unwrap();
    let all = get_all_collections(&db).unwrap();
    assert_eq!(all.len(), 3);
    assert_eq!(all[0].id, c.id);
    assert_eq!(all[1].id, b.id);
    assert_eq!(all[2].id, a.id);
}

#[test]
fn insert_collection_refuses_an_id_in_use() {
    let mut db = Store::new();
    let first = insert_collection(
        "id-1".to_string(),
        "One".to_string(),
        "a.svg".to_string(),
        &mut db,
    )
    .unwrap();
    assert_eq!(first.id, "id-1");
    assert_eq!(first.name, "One");
    assert_eq!(first.icon, "a.svg");
    assert_eq!(first.requests_count, 0);
    let second = insert_collection(
        "id-1".to_string(),
        "Two".to_string(),
        "b.svg".to_string(),
        &mut db,
    );
    assert_eq!(second.unwrap_err(), AppError::StorageError);
    let all = get_all_collections(&db).unwrap();
    assert_eq!(all.len(), 1);
    assert_eq!(all[0].name, "One");
}

#[test]
fn get_missing_collection_is_not_found() {
    let db = Store::new();
    assert_eq!(get_single_collection("nope", &db).unwrap_err(), AppError::NotFound);
}

#[test]
fn update_missing_collection_is_not_found() {
    let mut db = Store::new();
    insert_collection("id-1".to_string(), "One".to_string(), "a.svg".to_string(), &mut db)
        .unwrap();
    let r = update_collection_item("id-2", "x", "y", 3, &mut db);
    assert_eq!(r.unwrap_err(), AppError::NotFound);
    let kept = get_single_collection("id-1", &db).unwrap();
    assert_eq!(kept.name, "One");
    assert_eq!(kept.icon, "a.svg");
    assert_eq!(kept.requests_count, 0);
}

#[test]
fn update_replaces_the_three_fields_and_keeps_the_place() {
    let mut db = Store::new();
    insert_collection("id-1".to_string(), "One".to_string(), "a.svg".to_string(), &mut db)
        .unwrap();
    insert_collection("id-2".to_string(), "Two".to_string(), "b.svg".to_string(), &mut db)
        .unwrap();
    let updated = update_collection_item("id-1", "Uno", "z.svg", 7, &mut db).unwrap();
    assert_eq!(updated.id, "id-1");
    assert_eq!(updated.name, "Uno");
    assert_eq!(updated.icon, "z.svg");
    assert_eq!(updated.requests_count, 7);
    let all = get_all_collections(&db).unwrap();
    assert_eq!(all.len(), 2);
    assert_eq!(all[0].id, "id-2");
    assert_eq!(all[0].name, "Two");
    assert_eq!(all[1].id, "id-1");
    assert_eq!(all[1].name, "Uno");
    assert_eq!(all[1].requests_count, 7);
}

#[test]
fn delete_of_a_missing_collection_succeeds_and_changes_nothing() {
    let mut db = Store::new();
    insert_collection("id-1".to_string(), "One".to_string(), "a.svg".to_string(), &mut db)
        .unwrap();
    assert!(delete_collection("id-9", &mut db).is_ok());
    assert_eq!(get_all_collections(&db).unwrap().len(), 1);
    assert!(delete_collection("id-1", &mut db).is_ok());
    assert!(delete_collection("id-1", &mut db).is_ok());
    assert_eq!(get_all_collections(&db).unwrap().len(), 0);
}

#[test]
fn delete_cascades_to_the_requests_of_the_collection() {
    let mut db = Store::new();
    let keep = create_collection("Keep".to_string(), &icon_pack(), &mut db).unwrap();
    let gone = create_collection("Gone".to_string(), &icon_pack(), &mut db).unwrap();
    for _ in 0..4 {
        create_request(ProtocolTypes::Http, &gone.id, &mut db).unwrap();
    }
    let kept = create_request(ProtocolTypes::Grpc, &keep.id, &mut db).unwrap();
    delete_collection(&gone.id, &mut db).unwrap();
    assert_eq!(get_collection_requests(&db, &gone.id).unwrap().len(), 0);
    assert_eq!(get_single_collection(&gone.id, &db).unwrap_err(), AppError::NotFound);
    let left = get_collection_requests(&db, &keep.id).unwrap();
    assert_eq!(left.len(), 1);
    assert_eq!(left[0].id, kept.id);
    assert_eq!(db.all_requests().len(), 1);
    assert_eq!(get_single_collection(&keep.id, &db).unwrap().requests_count, 1);
}

#[test]
fn search_ignores_the_case_of_the_term() {
    let mut db = Store::new();
    let made = create_collection("Test collection".to_string(), &icon_pack(), &mut db).unwrap();
    create_collection("Other".to_string(), &icon_pack(), &mut db).unwrap();
    for term in ["TES", "tes", "Tes"] {
        let found = search_collections(&db, term).unwrap();
        assert_eq!(found.len(), 1);
        assert!(same_collection(&found[0], &made));
    }
}

#[test]
fn search_with_the_empty_term_lists_everything() {
    let mut db = Store::new();
    create_collection("A".to_string(), &icon_pack(), &mut db).unwrap();
    create_collection("B".to_string(), &icon_pack(), &mut db).unwrap();
    let found = search_collections(&db, "").unwrap();
    assert_eq!(found.len(), 2);
    assert_eq!(found[0].name, "B");
    assert_eq!(found[1].name, "A");
}

#[test]
fn search_keeps_the_order_of_the_list() {
    let mut db = Store::new();
    create_collection("alpha one".to_string(), &icon_pack(), &mut db).unwrap();
    create_collection("beta".to_string(), &icon_pack(), &mut db).unwrap();
    create_collection("Alpha two".to_string(), &icon_pack(), &mut db).unwrap();
    let found = search_collections(&db, "ALPHA").unwrap();
    assert_eq!(found.len(), 2);
    assert_eq!(found[0].name, "Alpha two");
    assert_eq!(found[1].name, "alpha one");
}

#[test]
fn search_term_longer_than_the_name_finds_nothing() {
    let mut db = Store::new();
    create_collection("abc".to_string(), &icon_pack(), &mut db).unwrap();
    assert_eq!(search_collections(&db, "abcd").unwrap().len(), 0);
    assert_eq!(search_collections(&db, "abc").unwrap().len(), 1);
    assert_eq!(search_collections(&db, "bc").unwrap().len(), 1);
}
