use acme_svc::bus::EventBusPublisher;
use acme_svc::event::DomainEvent;
use acme_svc::service::EventPublisher;
use acme_svc::todo::TodoId;

#[test]
fn published_events_reach_subscribers_in_order() {
    let (tx, mut rx) = tokio::sync::broadcast::channel(4);
    let mut publisher = EventBusPublisher::new(tx);
    publisher.publish(DomainEvent::TodoCreated { id: TodoId(1) });
    publisher.publish(DomainEvent::TodosPurged { count: 2 });
    assert_eq!(rx.try_recv().unwrap(), DomainEvent::TodoCreated { id: TodoId(1) });
    assert_eq!(rx.try_recv().unwrap(), DomainEvent::TodosPurged { count: 2 });
    assert!(rx.try_recv().is_err());
}

#[test]
fn publishing_without_subscribers_is_not_an_error() {
    let (tx, rx) = tokio::sync::broadcast::channel(4);
    drop(rx);
    let mut publisher = EventBusPublisher::new(tx);
    publisher.publish(DomainEvent::TodoCompleted { id: TodoId(2) });
}
