use querry::codes::HTTPMethods;
use querry::error::AppError;
use querry::messaging::{delivery, publish_result, AppEvent, EventBus, Missing, DEFAULT_CAPACITY};

fn deleted_id(event: &AppEvent) -> Option<&str> {
    match event {
        AppEvent::CollectionDeleted(id) => Some(id.as_str()),
        _ => None,
    }
}

#[test]
fn event_fan_out() {
    let (bus, mut first) = EventBus::new(DEFAULT_CAPACITY);
    let mut second = bus.subscribe();
    let reached = bus.publish(AppEvent::CollectionDeleted("x".to_string())).unwrap();
    assert_eq!(reached, 2);
    let mut late = bus.subscribe();

    let a = first.try_next().unwrap().expect("an event for the first subscriber");
    assert_eq!(deleted_id(&a), Some("x"));
    assert!(first.try_next().unwrap().is_none());

    let b = second.try_next().unwrap().expect("an event for the second subscriber");
    assert_eq!(deleted_id(&b), Some("x"));
    assert!(second.try_next().unwrap().is_none());

    assert!(late.try_next().unwrap().is_none());
}

#[test]
fn events_arrive_in_publish_order() {
    let (bus, mut sub) = EventBus::new(8);
    bus.publish(AppEvent::ViewRequestItem("1".to_string())).unwrap();
    bus.publish(AppEvent::RenameRequestItem("n".to_string(), "2".to_string(), "c".to_string()))
        .unwrap();
    bus.publish(AppEvent::UpdateHttpMethod(HTTPMethods::Put, "3".to_string(), "c".to_string()))
        .unwrap();
    match sub.try_next().unwrap() {
        Some(AppEvent::ViewRequestItem(id)) => assert_eq!(id, "1"),
        other => panic!("unexpected {:?}", other),
    }
    match sub.try_next().unwrap() {
        Some(AppEvent::RenameRequestItem(name, id, cid)) => {
            assert_eq!(name, "n");
            assert_eq!(id, "2");
            assert_eq!(cid, "c");
        }
        other => panic!("unexpected {:?}", other),
    }
    match sub.try_next().unwrap() {
        Some(AppEvent::UpdateHttpMethod(method, id, cid)) => {
            assert_eq!(method, HTTPMethods::Put);
            assert_eq!(id, "3");
            assert_eq!(cid, "c");
        }
        other => panic!("unexpected {:?}", other),
    }
    assert!(sub.try_next().unwrap().is_none());
}

#[test]
fn publish_without_subscribers_is_channel_closed() {
    let (bus, first) = EventBus::new(4);
    drop(first);
    let r = bus.publish(AppEvent::CollectionDeleted("x".to_string()));
    assert_eq!(r.unwrap_err(), AppError::ChannelClosed);
    let mut sub = bus.subscribe();
    assert_eq!(bus.publish(AppEvent::CollectionDeleted("y".to_string())).unwrap(), 1);
    assert_eq!(deleted_id(&sub.try_next().unwrap().unwrap()), Some("y"));
}

#[test]
fn subscriber_without_publisher_is_channel_closed() {
    let (bus, mut sub) = EventBus::new(4);
    bus.publish(AppEvent::CollectionDeleted("x".to_string())).unwrap();
    drop(bus);
    assert_eq!(deleted_id(&sub.try_next().unwrap().unwrap()), Some("x"));
    assert_eq!(sub.try_next().unwrap_err(), AppError::ChannelClosed);
}

#[test]
fn slow_subscriber_misses_the_oldest_events() {
    let (bus, mut sub) = EventBus::new(2);
    for id in ["1", "2", "3"] {
        bus.publish(AppEvent::CollectionDeleted(id.to_string())).unwrap();
    }
    assert!(sub.try_next().unwrap().is_none());
    assert_eq!(deleted_id(&sub.try_next().unwrap().unwrap()), Some("2"));
    assert_eq!(deleted_id(&sub.try_next().unwrap().unwrap()), Some("3"));
    assert!(sub.try_next().unwrap().is_none());
}

#[test]
fn publish_result_maps_a_refusal_to_channel_closed() {
    assert_eq!(publish_result(Ok(3)), Ok(3));
    assert_eq!(
        publish_result(Err(AppEvent::ViewRequestItem("x".to_string()))),
        Err(AppError::ChannelClosed)
    );
}

#[test]
fn delivery_maps_each_answer() {
    match delivery(Ok(AppEvent::ViewRequestItem("x".to_string()))) {
        Ok(Some(AppEvent::ViewRequestItem(id))) => assert_eq!(id, "x"),
        other => panic!("unexpected {:?}", other),
    }
    assert!(matches!(delivery(Err(Missing::Empty)), Ok(None)));
    assert!(matches!(delivery(Err(Missing::Lagged(5))), Ok(None)));
    assert!(matches!(delivery(Err(Missing::Closed)), Err(AppError::ChannelClosed)));
}

#[test]
fn cloned_event_is_equal_field_by_field() {
    let e = AppEvent::RenameRequestItem("a".to_string(), "b".to_string(), "c".to_string());
    match e.clone() {
        AppEvent::RenameRequestItem(a, b, c) => {
            assert_eq!(a, "a");
            assert_eq!(b, "b");
            assert_eq!(c, "c");
        }
        other => panic!("unexpected {:?}", other),
    }
    match AppEvent::UpdateHttpMethod(HTTPMethods::Delete, "r".to_string(), "c".to_string()).clone()
    {
        AppEvent::UpdateHttpMethod(m, r, c) => {
            assert_eq!(m, HTTPMethods::Delete);
            assert_eq!(r, "r");
            assert_eq!(c, "c");
        }
        other => panic!("unexpected {:?}", other),
    }
}

#[test]
fn bus_keeps_the_capacity_it_was_opened_with() {
    let (bus, _first) = EventBus::new(3);
    assert_eq!(bus.capacity(), 3);
    let (bus, _first) = EventBus::new(DEFAULT_CAPACITY);
    assert_eq!(bus.capacity(), 100);
}

#[test]
fn receiver_given_up_by_a_subscription_is_on_the_bus() {
    let (bus, first) = EventBus::new(4);
    let second = bus.subscribe();
    let mut raw_first = first.into_receiver();
    let mut raw_second = second.into_receiver();
    assert!(raw_first.same_channel(&raw_second));
    bus.publish(AppEvent::CollectionDeleted("x".to_string())).unwrap();
    assert_eq!(deleted_id(&raw_first.try_recv().unwrap()), Some("x"));
    assert_eq!(deleted_id(&raw_second.try_recv().unwrap()), Some("x"));
    let (_other, third) = EventBus::new(4);
    assert!(!third.into_receiver().same_channel(&raw_first));
}
