use place_canvas::applier::commit;
use place_canvas::canvas::Canvas;
use place_canvas::hub::Hub;
use place_canvas::point::{Color, Point};

#[test]
fn a_new_hub_has_nobody() {
    let hub = Hub::new();
    assert!(!hub.is_subscribed(0));
    assert_eq!(hub.publish(&Point::new(0, 0, 0, 0, 0)), Vec::<u64>::new());
}

#[test]
fn subscriptions_are_numbered_in_order() {
    let mut hub = Hub::new();
    assert_eq!(hub.subscribe(), Some(0));
    assert_eq!(hub.subscribe(), Some(1));
    assert_eq!(hub.subscribe(), Some(2));
    assert!(hub.is_subscribed(1));
    assert!(!hub.is_subscribed(3));
}

#[test]
fn a_number_is_never_given_twice() {
    let mut hub = Hub::new();
    let first = hub.subscribe().unwrap();
    assert!(hub.unsubscribe(first));
    let second = hub.subscribe().unwrap();
    assert_ne!(first, second);
    assert!(!hub.is_subscribed(first));
    assert!(hub.is_subscribed(second));
}

#[test]
fn publish_names_each_subscriber_once() {
    let mut hub = Hub::new();
    let a = hub.subscribe().unwrap();
    let b = hub.subscribe().unwrap();
    let c = hub.subscribe().unwrap();
    assert_eq!(hub.publish(&Point::new(1, 1, 1, 1, 1)), vec![a, b, c]);
    assert!(hub.unsubscribe(b));
    assert_eq!(hub.publish(&Point::new(1, 1, 1, 1, 1)), vec![a, c]);
}

#[test]
fn unsubscribing_twice_does_nothing_the_second_time() {
    let mut hub = Hub::new();
    let a = hub.subscribe().unwrap();
    let b = hub.subscribe().unwrap();
    assert!(hub.unsubscribe(a));
    assert!(!hub.unsubscribe(a));
    assert!(!hub.unsubscribe(77));
    assert_eq!(hub.publish(&Point::new(0, 0, 0, 0, 0)), vec![b]);
}

#[test]
fn a_late_subscriber_is_not_named_for_an_earlier_write() {
    let mut hub = Hub::new();
    let early = hub.subscribe().unwrap();
    let first = hub.publish(&Point::new(0, 0, 1, 2, 3));
    let late = hub.subscribe().unwrap();
    assert_eq!(first, vec![early]);
    assert!(!first.contains(&late));
    let second = hub.publish(&Point::new(0, 0, 4, 5, 6));
    assert_eq!(second.iter().filter(|id| **id == early).count(), 1);
    assert_eq!(second.iter().filter(|id| **id == late).count(), 1);
}

#[test]
fn a_committed_write_goes_to_every_subscriber() {
    let mut canvas = Canvas::new(4, 4).unwrap();
    let mut hub = Hub::new();
    let a = hub.subscribe().unwrap();
    let b = hub.subscribe().unwrap();
    let recipients = commit(&mut canvas, &hub, &Point::new(1, 1, 255, 0, 0));
    assert_eq!(recipients, vec![a, b]);
    assert_eq!(canvas.get(1, 1), Some(Color { r: 255, g: 0, b: 0 }));
}

#[test]
fn a_write_outside_the_canvas_is_not_broadcast() {
    let mut canvas = Canvas::new(4, 4).unwrap();
    let mut hub = Hub::new();
    hub.subscribe().unwrap();
    hub.subscribe().unwrap();
    let recipients = commit(&mut canvas, &hub, &Point::new(10, 1, 255, 0, 0));
    assert_eq!(recipients, Vec::<u64>::new());
    for x in 0..4 {
        for y in 0..4 {
            assert_eq!(canvas.get(x, y), Some(Color::white()));
        }
    }
}
