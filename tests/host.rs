use graph_panel::bridge::Delivery;
use graph_panel::bus::{CommandBus, Subscription};
use graph_panel::engine::{relayout_config, EngineAction, NodeDescriptor};
use graph_panel::host::GraphHost;
use graph_panel::messages::{GraphSettingsMessage, Msg};

#[test]
fn publish_without_subscriber_is_dropped() {
    let bus = CommandBus::new();
    assert_eq!(bus.publish(GraphSettingsMessage::Relayout), None);
    let mut host = GraphHost::new();
    assert_eq!(host.publish(GraphSettingsMessage::AddNode), Delivery::Dropped);
    assert_eq!(host.subscriber(), None);
}

#[test]
fn publish_after_subscribe_is_delivered() {
    let mut host = GraphHost::new();
    assert_eq!(host.publish(GraphSettingsMessage::AddNode), Delivery::Dropped);
    let (id, actions) = host.open_panel().unwrap();
    assert_eq!(id, 0);
    assert_eq!(actions.len(), 5);
    assert_eq!(host.subscriber(), Some(0));
    assert_eq!(
        host.publish(GraphSettingsMessage::AddNode),
        Delivery::Handled(vec![EngineAction::AddNode(NodeDescriptor { id: 3, selectable: true })])
    );
    assert_eq!(host.panel(0).unwrap().node_count(), 3);
}

#[test]
fn later_subscriber_replaces_earlier() {
    let mut bus = CommandBus::new();
    let t0 = bus.subscribe(10).unwrap();
    let t1 = bus.subscribe(11).unwrap();
    assert_ne!(t0, t1);
    assert_eq!(bus.publish(GraphSettingsMessage::AddNode), Some(11));
    assert!(!bus.unsubscribe(t0));
    assert_eq!(bus.current(), Some(Subscription { token: t1, subscriber: 11 }));
    assert!(bus.unsubscribe(t1));
    assert_eq!(bus.publish(GraphSettingsMessage::AddNode), None);
}

#[test]
fn closed_panel_gets_nothing() {
    let mut host = GraphHost::new();
    let (id, _) = host.open_panel().unwrap();
    assert!(host.close_panel(id));
    assert!(!host.close_panel(id));
    assert_eq!(host.subscriber(), None);
    assert_eq!(host.publish(GraphSettingsMessage::Relayout), Delivery::Dropped);
    assert_eq!(host.notify(id, Msg::SelectNode(String::from("1"))), Delivery::Dropped);
    assert!(host.panel(id).is_none());
}

#[test]
fn scenario_seed_add_relayout_through_host() {
    let mut host = GraphHost::new();
    let (id, _) = host.open_panel().unwrap();
    host.publish(GraphSettingsMessage::AddNode);
    assert_eq!(host.panel(id).unwrap().node_count(), 3);
    assert_eq!(
        host.publish(GraphSettingsMessage::Relayout),
        Delivery::Handled(vec![EngineAction::RunLayout(1, relayout_config())])
    );
    assert_eq!(
        host.publish(GraphSettingsMessage::Relayout),
        Delivery::Handled(vec![
            EngineAction::StopLayout(1),
            EngineAction::RunLayout(2, relayout_config())
        ])
    );
    assert_eq!(
        host.notify(id, Msg::SelectNode(String::from("3"))),
        Delivery::Handled(vec![])
    );
    assert!(host.panel(id).unwrap().is_selected(&String::from("3")));
}

#[test]
fn second_panel_takes_over_the_bus() {
    let mut host = GraphHost::new();
    let (a, _) = host.open_panel().unwrap();
    let (b, _) = host.open_panel().unwrap();
    assert_eq!((a, b), (0, 1));
    host.publish(GraphSettingsMessage::AddNode);
    assert_eq!(host.panel(a).unwrap().node_count(), 2);
    assert_eq!(host.panel(b).unwrap().node_count(), 3);
    assert!(host.close_panel(a));
    assert_eq!(host.subscriber(), Some(b));
}
