use querry::codes::{HTTPMethods, ProtocolTypes};
use querry::error::AppError;
use querry::messaging::{AppEvent, EventBus};
use querry::records::{CollectionData, RequestData};
use querry::store::collections::{
    create_collection, get_all_collections, get_single_collection, insert_collection,
};
use querry::store::requests::{
    create_request, get_collection_requests, get_single_request, insert_request,
    update_request_item,
};
use querry::store::Store;
use querry::view_model::actions::{
    check_startup_page, load_collections, process_create_collection, process_create_requests,
    process_delete_request, process_get_collections, process_get_requests, process_page_change,
    process_remove_collection, process_request_selection, process_update_collection,
    process_update_request,
};
use querry::view_model::events::{
    apply_event, change_viewed_url, on_collection_deleted, on_method_changed, on_request_renamed,
    on_request_viewed, rename_viewed_request, update_request_method,
};
use querry::view_model::{
    collection_item, collection_items, place_of, request_item, request_items, AppState,
    RequestItem, PAGE_COLLECTIONS, PAGE_EMPTY,
};

fn icons() -> Vec<String> {
    vec!["1F600.svg".to_string()]
}

fn seeded() -> (Store, AppState) {
    let mut store = Store::new();
    insert_collection("c1".to_string(), "One".to_string(), "a.svg".to_string(), &mut store)
        .unwrap();
    insert_collection("c2".to_string(), "Two".to_string(), "b.svg".to_string(), &mut store)
        .unwrap();
    insert_request("r1".to_string(), ProtocolTypes::Http, "c1", &mut store).unwrap();
    insert_request("r2".to_string(), ProtocolTypes::Websocket, "c1", &mut store).unwrap();
    insert_request("r3".to_string(), ProtocolTypes::Http, "c2", &mut store).unwrap();
    let mut state = AppState::new();
    load_collections(&store, &mut state).unwrap();
    process_get_requests(&store, &mut state, "c1").unwrap();
    (store, state)
}

#[test]
fn new_state_shows_the_empty_page() {
    let state = AppState::new();
    assert_eq!(state.page, 1);
    assert_eq!(state.page, PAGE_EMPTY);
    assert!(state.collection_items.is_empty());
    assert!(state.active_collection_requests.is_empty());
    assert!(state.selected_requests.is_empty());
    assert!(state.viewed.is_none());
    assert_eq!(state.active_collection_id, "");
}

#[test]
fn startup_page_depends_on_collections() {
    let mut store = Store::new();
    let mut state = AppState::new();
    state.page = 9;
    check_startup_page(&store, &mut state).unwrap();
    assert_eq!(state.page, 1);
    create_collection("x".to_string(), &icons(), &mut store).unwrap();
    check_startup_page(&store, &mut state).unwrap();
    assert_eq!(state.page, 2);
    assert_eq!(state.page, PAGE_COLLECTIONS);
}

#[test]
fn page_change_sets_the_page_only() {
    let (_, mut state) = seeded();
    process_page_change(&mut state, 5).unwrap();
    assert_eq!(state.page, 5);
    process_page_change(&mut state, -3).unwrap();
    assert_eq!(state.page, -3);
    assert_eq!(state.collection_items.len(), 2);
    assert_eq!(state.active_collection_requests.len(), 2);
}

#[test]
fn collection_item_resolves_the_icon_path() {
    let row = CollectionData {
        id: "c".to_string(),
        name: "N".to_string(),
        icon: "1F4A6.svg".to_string(),
        requests_count: 4,
    };
    let item = collection_item(&row);
    assert_eq!(item.id, "c");
    assert_eq!(item.name, "N");
    assert_eq!(item.icon, "ui/icons_pack/1F4A6.svg");
    assert_eq!(item.icon_name, "1F4A6.svg");
    assert_eq!(item.request_count, 4);
    let copy = item.clone();
    assert_eq!(copy.icon, item.icon);
    assert_eq!(copy.request_count, 4);
}

#[test]
fn request_item_fills_defaults_and_icon() {
    let row = RequestData {
        id: "r".to_string(),
        name: "N".to_string(),
        url: None,
        protocol: "HTTP".to_string(),
        collection_id: "c".to_string(),
        http_method: None,
    };
    let item = request_item(&row);
    assert_eq!(item.id, "r");
    assert_eq!(item.name, "N");
    assert_eq!(item.url, "");
    assert_eq!(item.protocol, "HTTP");
    assert_eq!(item.http_method, "GET");
    assert_eq!(item.icon, "resources/icons/get.png");

    let item = RequestItem::new(
        "N".to_string(),
        "r".to_string(),
        Some("https://x".to_string()),
        "HTTP".to_string(),
        Some("DEL".to_string()),
    );
    assert_eq!(item.url, "https://x");
    assert_eq!(item.http_method, "DEL");
    assert_eq!(item.icon, "resources/icons/delete.png");
    let copy = item.clone();
    assert_eq!(copy.id, "r");
    assert_eq!(copy.icon, "resources/icons/delete.png");
}

#[test]
fn items_keep_the_order_of_rows() {
    let (store, _) = seeded();
    let rows = get_all_collections(&store).unwrap();
    let items = collection_items(&rows);
    assert_eq!(items.len(), 2);
    assert_eq!(items[0].id, "c2");
    assert_eq!(items[1].id, "c1");
    assert_eq!(items[1].request_count, 2);
    let rows = get_collection_requests(&store, "c1").unwrap();
    let items = request_items(&rows);
    assert_eq!(items.len(), 2);
    assert_eq!(items[0].id, "r2");
    assert_eq!(items[0].protocol, "WS");
    assert_eq!(items[1].id, "r1");
}

#[test]
fn place_of_rejects_indices_out_of_range() {
    assert_eq!(place_of(0, 3), Some(0));
    assert_eq!(place_of(2, 3), Some(2));
    assert_eq!(place_of(3, 3), None);
    assert_eq!(place_of(-1, 3), None);
    assert_eq!(place_of(i32::MIN, 3), None);
    assert_eq!(place_of(i32::MAX, 3), None);
    assert_eq!(place_of(0, 0), None);
}

#[test]
fn load_and_get_collections_list_the_store() {
    let (mut store, mut state) = seeded();
    create_collection("Three".to_string(), &icons(), &mut store).unwrap();
    assert_eq!(state.collection_items.len(), 2);
    process_get_collections(&store, &mut state).unwrap();
    assert_eq!(state.collection_items.len(), 3);
    assert_eq!(state.collection_items[0].name, "Three");
    assert_eq!(state.collection_items[1].name, "Two");
    assert_eq!(state.collection_items[2].name, "One");
    assert_eq!(state.collection_items[2].request_count, 2);
}

#[test]
fn create_collection_action_puts_the_item_first() {
    let (mut store, mut state) = seeded();
    let made = process_create_collection(&mut store, &mut state, &icons()).unwrap();
    assert_eq!(made.name, "New Collection");
    assert_eq!(made.icon, "1F600.svg");
    assert_eq!(made.requests_count, 0);
    assert_eq!(state.collection_items.len(), 3);
    assert_eq!(state.collection_items[0].id, made.id);
    assert_eq!(state.collection_items[0].name, "New Collection");
    assert_eq!(state.collection_items[0].icon, "ui/icons_pack/1F600.svg");
    assert_eq!(state.collection_items[1].id, "c2");
    assert_eq!(get_all_collections(&store).unwrap()[0].id, made.id);
}

#[test]
fn update_collection_action_keeps_the_counter() {
    let (mut store, mut state) = seeded();
    let updated =
        process_update_collection(&mut store, &mut state, "c1", "Uno", "z.svg", 1).unwrap();
    assert_eq!(updated.name, "Uno");
    assert_eq!(updated.icon, "z.svg");
    assert_eq!(updated.requests_count, 2);
    assert_eq!(state.collection_items[1].name, "Uno");
    assert_eq!(state.collection_items[1].icon, "ui/icons_pack/z.svg");
    assert_eq!(state.collection_items[1].icon_name, "z.svg");
    assert_eq!(state.collection_items[1].request_count, 2);
    assert_eq!(state.collection_items[0].name, "Two");
    assert_eq!(get_single_collection("c1", &store).unwrap().requests_count, 2);
}

#[test]
fn update_collection_action_with_a_bad_index_updates_the_store_only() {
    let (mut store, mut state) = seeded();
    process_update_collection(&mut store, &mut state, "c1", "Uno", "z.svg", 7).unwrap();
    assert_eq!(get_single_collection("c1", &store).unwrap().name, "Uno");
    assert_eq!(state.collection_items[1].name, "One");
    process_update_collection(&mut store, &mut state, "c1", "Eins", "z.svg", -1).unwrap();
    assert_eq!(state.collection_items[0].name, "Two");
    assert_eq!(state.collection_items[1].name, "One");
}

#[test]
fn update_collection_action_on_a_missing_collection() {
    let (mut store, mut state) = seeded();
    let r = process_update_collection(&mut store, &mut state, "zz", "Uno", "z.svg", 0);
    assert_eq!(r.unwrap_err(), AppError::NotFound);
    assert_eq!(state.collection_items[0].name, "Two");
}

#[test]
fn remove_collection_action() {
    let (mut store, mut state) = seeded();
    process_remove_collection(&mut store, &mut state, "c1", 1).unwrap();
    assert_eq!(state.collection_items.len(), 1);
    assert_eq!(state.collection_items[0].id, "c2");
    assert_eq!(get_single_collection("c1", &store).unwrap_err(), AppError::NotFound);
    assert_eq!(get_collection_requests(&store, "c1").unwrap().len(), 0);
    assert_eq!(store.all_requests().len(), 1);
    process_remove_collection(&mut store, &mut state, "c2", 4).unwrap();
    assert_eq!(state.collection_items.len(), 1);
    assert_eq!(get_all_collections(&store).unwrap().len(), 0);
}

#[test]
fn get_requests_action_lists_one_collection() {
    let (store, mut state) = seeded();
    assert_eq!(state.active_collection_id, "c1");
    assert_eq!(state.active_collection_requests.len(), 2);
    assert_eq!(state.active_collection_requests[0].id, "r2");
    process_get_requests(&store, &mut state, "c2").unwrap();
    assert_eq!(state.active_collection_id, "c2");
    assert_eq!(state.active_collection_requests.len(), 1);
    assert_eq!(state.active_collection_requests[0].id, "r3");
    process_get_requests(&store, &mut state, "none").unwrap();
    assert_eq!(state.active_collection_requests.len(), 0);
}

#[test]
fn create_request_action_counts_in_the_item() {
    let (mut store, mut state) = seeded();
    let made = process_create_requests(&mut store, &mut state, "c1", 1).unwrap();
    assert_eq!(made.protocol, "HTTP");
    assert_eq!(made.http_method, Some("GET".to_string()));
    assert_eq!(state.active_collection_requests.len(), 3);
    assert_eq!(state.active_collection_requests[0].id, made.id);
    assert_eq!(state.active_collection_requests[0].http_method, "GET");
    assert_eq!(state.active_collection_requests[0].icon, "resources/icons/get.png");
    assert_eq!(state.collection_items[1].request_count, 3);
    assert_eq!(state.collection_items[0].request_count, 1);
    assert_eq!(get_single_collection("c1", &store).unwrap().requests_count, 3);
}

#[test]
fn create_request_action_under_a_missing_collection() {
    let (mut store, mut state) = seeded();
    let r = process_create_requests(&mut store, &mut state, "zz", 0);
    assert_eq!(r.unwrap_err(), AppError::NotFound);
    assert_eq!(state.active_collection_requests.len(), 2);
    assert_eq!(state.collection_items[0].request_count, 1);
}

#[test]
fn item_counter_stops_at_the_end_of_its_range() {
    let (mut store, mut state) = seeded();
    state.collection_items[0].request_count = i32::MAX;
    process_create_requests(&mut store, &mut state, "c2", 0).unwrap();
    assert_eq!(state.collection_items[0].request_count, i32::MAX);
    state.collection_items[0].request_count = i32::MIN;
    process_delete_request(&mut store, &mut state, "r3", 9, 0).unwrap();
    assert_eq!(state.collection_items[0].request_count, i32::MIN);
}

#[test]
fn update_request_action_writes_all_four_fields() {
    let (mut store, mut state) = seeded();
    let updated = process_update_request(
        &mut store,
        &mut state,
        "r1",
        "Renamed",
        "HTTP",
        "PUT",
        "https://bbc.co.uk",
        1,
    )
    .unwrap();
    assert_eq!(updated.name, "Renamed");
    assert_eq!(updated.http_method, Some("PUT".to_string()));
    assert_eq!(updated.url, Some("https://bbc.co.uk".to_string()));
    let item = &state.active_collection_requests[1];
    assert_eq!(item.id, "r1");
    assert_eq!(item.name, "Renamed");
    assert_eq!(item.http_method, "PUT");
    assert_eq!(item.url, "https://bbc.co.uk");
    assert_eq!(item.icon, "resources/icons/put.png");
    assert_eq!(state.active_collection_requests[0].id, "r2");
}

#[test]
fn update_request_action_rejects_undeclared_codes() {
    let (mut store, mut state) = seeded();
    let r = process_update_request(&mut store, &mut state, "r1", "x", "HTTP", "PATCH", "", 1);
    assert_eq!(r.unwrap_err(), AppError::ValidationError);
    let r = process_update_request(&mut store, &mut state, "r1", "x", "", "GET", "", 1);
    assert_eq!(r.unwrap_err(), AppError::ValidationError);
    let r = process_update_request(&mut store, &mut state, "zz", "x", "HTTP", "GET", "", 1);
    assert_eq!(r.unwrap_err(), AppError::NotFound);
    assert_eq!(get_single_request("r1", &store).unwrap().name, "New Request");
    assert_eq!(state.active_collection_requests[1].name, "New Request");
}

#[test]
fn delete_request_action() {
    let (mut store, mut state) = seeded();
    process_delete_request(&mut store, &mut state, "r2", 0, 1).unwrap();
    assert_eq!(state.active_collection_requests.len(), 1);
    assert_eq!(state.active_collection_requests[0].id, "r1");
    assert_eq!(state.collection_items[1].request_count, 1);
    assert_eq!(get_single_collection("c1", &store).unwrap().requests_count, 1);
    let r = process_delete_request(&mut store, &mut state, "r2", 0, 1);
    assert_eq!(r.unwrap_err(), AppError::NotFound);
    assert_eq!(state.active_collection_requests.len(), 1);
    assert_eq!(state.collection_items[1].request_count, 1);
}

#[test]
fn selection_action_picks_a_request_with_its_collection_icon() {
    let (_, mut state) = seeded();
    process_request_selection(&mut state, 1, 1).unwrap();
    assert_eq!(state.selected_requests.len(), 1);
    assert_eq!(state.selected_requests[0].item.id, "r1");
    assert_eq!(state.selected_requests[0].collection_icon, "ui/icons_pack/a.svg");
    process_request_selection(&mut state, 0, 0).unwrap();
    assert_eq!(state.selected_requests.len(), 2);
    assert_eq!(state.selected_requests[1].item.id, "r2");
    assert_eq!(state.selected_requests[1].collection_icon, "ui/icons_pack/b.svg");
    process_request_selection(&mut state, 2, 0).unwrap();
    process_request_selection(&mut state, 0, 2).unwrap();
    process_request_selection(&mut state, -1, 0).unwrap();
    assert_eq!(state.selected_requests.len(), 2);
}

#[test]
fn collection_deleted_event_removes_item_and_rows() {
    let (mut store, mut state) = seeded();
    on_collection_deleted(&mut store, &mut state, &"c1".to_string());
    assert_eq!(state.collection_items.len(), 1);
    assert_eq!(state.collection_items[0].id, "c2");
    assert!(get_single_collection("c1", &store).is_err());
    assert_eq!(store.all_requests().len(), 1);
}

#[test]
fn collection_deleted_event_for_an_unlisted_collection_does_nothing() {
    let (mut store, mut state) = seeded();
    state.collection_items.remove(1);
    on_collection_deleted(&mut store, &mut state, &"c1".to_string());
    assert_eq!(state.collection_items.len(), 1);
    assert!(get_single_collection("c1", &store).is_ok());
    assert_eq!(store.all_requests().len(), 3);
}

#[test]
fn rename_event_patches_the_listed_request() {
    let (_, mut state) = seeded();
    on_request_renamed(&mut state, &"Hello".to_string(), &"r1".to_string(), &"c1".to_string());
    assert_eq!(state.active_collection_requests[1].name, "Hello");
    assert_eq!(state.active_collection_requests[1].http_method, "GET");
    assert_eq!(state.active_collection_requests[0].name, "New Request");
    on_request_renamed(&mut state, &"Other".to_string(), &"r1".to_string(), &"c2".to_string());
    assert_eq!(state.active_collection_requests[1].name, "Hello");
    on_request_renamed(&mut state, &"Other".to_string(), &"r9".to_string(), &"c1".to_string());
    assert_eq!(state.active_collection_requests[0].name, "New Request");
    assert_eq!(state.active_collection_requests[1].name, "Hello");
}

#[test]
fn method_event_patches_method_and_icon() {
    let (_, mut state) = seeded();
    on_method_changed(&mut state, HTTPMethods::Delete, &"r1".to_string(), &"c1".to_string());
    assert_eq!(state.active_collection_requests[1].http_method, "DEL");
    assert_eq!(state.active_collection_requests[1].icon, "resources/icons/delete.png");
    assert_eq!(state.active_collection_requests[1].name, "New Request");
    assert_eq!(state.active_collection_requests[0].http_method, "GET");
    on_method_changed(&mut state, HTTPMethods::Post, &"r1".to_string(), &"c2".to_string());
    assert_eq!(state.active_collection_requests[1].http_method, "DEL");
}

#[test]
fn view_event_fills_the_request_view() {
    let (mut store, mut state) = seeded();
    update_request_item("r3", None, None, Some(HTTPMethods::Put), Some("u".to_string()), &mut store)
        .unwrap();
    on_request_viewed(&store, &mut state, &"r3".to_string()).unwrap();
    let v = state.viewed.as_ref().unwrap();
    assert_eq!(v.collection_name, "Two");
    assert_eq!(v.collection_id, "c2");
    assert_eq!(v.request_id, "r3");
    assert_eq!(v.request_name, "New Request");
    assert_eq!(v.http_method, "PUT");
    assert_eq!(v.url, "u");
    let r = on_request_viewed(&store, &mut state, &"zz".to_string());
    assert_eq!(r.unwrap_err(), AppError::NotFound);
    assert_eq!(state.viewed.as_ref().unwrap().request_id, "r3");
}

#[test]
fn apply_event_dispatches_each_variant() {
    let (mut store, mut state) = seeded();
    apply_event(&mut store, &mut state, &AppEvent::ViewRequestItem("r1".to_string())).unwrap();
    assert_eq!(state.viewed.as_ref().unwrap().collection_name, "One");
    apply_event(
        &mut store,
        &mut state,
        &AppEvent::RenameRequestItem("N".to_string(), "r2".to_string(), "c1".to_string()),
    )
    .unwrap();
    assert_eq!(state.active_collection_requests[0].name, "N");
    apply_event(
        &mut store,
        &mut state,
        &AppEvent::UpdateHttpMethod(HTTPMethods::Post, "r2".to_string(), "c1".to_string()),
    )
    .unwrap();
    assert_eq!(state.active_collection_requests[0].http_method, "POST");
    assert_eq!(state.active_collection_requests[0].icon, "resources/icons/post.png");
    apply_event(&mut store, &mut state, &AppEvent::CollectionDeleted("c2".to_string())).unwrap();
    assert_eq!(state.collection_items.len(), 1);
    assert!(get_single_collection("c2", &store).is_err());
    let r = apply_event(&mut store, &mut state, &AppEvent::ViewRequestItem("r3".to_string()));
    assert_eq!(r.unwrap_err(), AppError::NotFound);
}

#[test]
fn edits_in_the_request_view_return_the_event_to_publish() {
    let (mut store, mut state) = seeded();
    assert_eq!(
        update_request_method(&mut store, &mut state, HTTPMethods::Put).unwrap_err(),
        AppError::NotFound
    );
    assert_eq!(rename_viewed_request(&mut store, &mut state, "x").unwrap_err(), AppError::NotFound);
    assert_eq!(change_viewed_url(&mut store, &mut state, "x").unwrap_err(), AppError::NotFound);
    on_request_viewed(&store, &mut state, &"r1".to_string()).unwrap();

    match update_request_method(&mut store, &mut state, HTTPMethods::Put).unwrap() {
        AppEvent::UpdateHttpMethod(m, rid, cid) => {
            assert_eq!(m, HTTPMethods::Put);
            assert_eq!(rid, "r1");
            assert_eq!(cid, "c1");
        }
        other => panic!("unexpected {:?}", other),
    }
    assert_eq!(state.viewed.as_ref().unwrap().http_method, "PUT");
    assert_eq!(get_single_request("r1", &store).unwrap().http_method, Some("PUT".to_string()));

    match rename_viewed_request(&mut store, &mut state, "Hello Request").unwrap() {
        AppEvent::RenameRequestItem(name, rid, cid) => {
            assert_eq!(name, "Hello Request");
            assert_eq!(rid, "r1");
            assert_eq!(cid, "c1");
        }
        other => panic!("unexpected {:?}", other),
    }
    assert_eq!(state.viewed.as_ref().unwrap().request_name, "Hello Request");
    let row = get_single_request("r1", &store).unwrap();
    assert_eq!(row.name, "Hello Request");
    assert_eq!(row.http_method, Some("PUT".to_string()));

    change_viewed_url(&mut store, &mut state, "https://bbc.co.uk").unwrap();
    assert_eq!(state.viewed.as_ref().unwrap().url, "https://bbc.co.uk");
    let row = get_single_request("r1", &store).unwrap();
    assert_eq!(row.url, Some("https://bbc.co.uk".to_string()));
    assert_eq!(row.name, "Hello Request");
    assert_eq!(state.viewed.as_ref().unwrap().collection_name, "One");
}

#[test]
fn edit_of_a_request_that_is_gone_is_not_found() {
    let (mut store, mut state) = seeded();
    on_request_viewed(&store, &mut state, &"r1".to_string()).unwrap();
    querry::store::requests::delete_request("r1", &mut store).unwrap();
    assert_eq!(rename_viewed_request(&mut store, &mut state, "x").unwrap_err(), AppError::NotFound);
    assert_eq!(state.viewed.as_ref().unwrap().request_name, "New Request");
}

#[test]
fn one_component_edits_and_another_catches_up_over_the_bus() {
    let (mut store, mut editor) = seeded();
    let mut list = AppState::new();
    load_collections(&store, &mut list).unwrap();
    process_get_requests(&store, &mut list, "c1").unwrap();
    let (bus, mut subscription) = EventBus::new(16);

    on_request_viewed(&store, &mut editor, &"r2".to_string()).unwrap();
    let event = rename_viewed_request(&mut store, &mut editor, "Renamed").unwrap();
    bus.publish(event).unwrap();

    assert_eq!(list.active_collection_requests[0].name, "New Request");
    let received = subscription.try_next().unwrap().unwrap();
    apply_event(&mut store, &mut list, &received).unwrap();
    assert_eq!(list.active_collection_requests[0].id, "r2");
    assert_eq!(list.active_collection_requests[0].name, "Renamed");
    assert!(subscription.try_next().unwrap().is_none());
    let _ = create_request(ProtocolTypes::Http, "c1", &mut store).unwrap();
}

#[test]
fn first_actions_on_an_empty_store_succeed() {
    let mut store = Store::new();
    let mut state = AppState::new();
    let made = process_create_collection(&mut store, &mut state, &Vec::new()).unwrap();
    assert_eq!(made.icon, "1F4A6.svg");
    assert_eq!(state.collection_items.len(), 1);
    let request = process_create_requests(&mut store, &mut state, &made.id, 0).unwrap();
    assert_eq!(request.collection_id, made.id);
    assert_eq!(state.collection_items[0].request_count, 1);
    assert_eq!(get_single_collection(&made.id, &store).unwrap().requests_count, 1);
    assert!(get_single_request(&request.id, &store).is_ok());
}
