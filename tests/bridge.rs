use graph_panel::bridge::{BridgeError, Delivery, GraphViewEventLink};
use graph_panel::engine::{EngineAction, NodeDescriptor};
use graph_panel::messages::{GraphSettingsMessage, Msg};
use graph_panel::panel::GraphView;

#[test]
fn register_then_send_reaches_panel() {
    let mut link = GraphViewEventLink::new();
    assert_eq!(link.next_instance(), 0);
    let (p, _) = GraphView::create(0, 0);
    assert_eq!(link.register(p), Ok(()));
    assert!(link.is_live(0));
    let d = link.send(0, Msg::SettingMessage(GraphSettingsMessage::AddNode));
    assert_eq!(
        d,
        Delivery::Handled(vec![EngineAction::AddNode(NodeDescriptor { id: 3, selectable: true })])
    );
    assert_eq!(link.panel(0).unwrap().node_count(), 3);
}

#[test]
fn send_after_unregister_is_dropped() {
    let mut link = GraphViewEventLink::new();
    let (p, _) = GraphView::create(0, 0);
    link.register(p).unwrap();
    let gone = link.unregister(0).unwrap();
    assert_eq!(gone.instance(), 0);
    assert!(!link.is_live(0));
    assert_eq!(link.send(0, Msg::SelectNode(String::from("1"))), Delivery::Dropped);
    assert_eq!(
        link.send(0, Msg::SettingMessage(GraphSettingsMessage::Relayout)),
        Delivery::Dropped
    );
    assert!(link.panel(0).is_none());
    assert!(link.unregister(0).is_none());
    assert_eq!(link.next_instance(), 1);
}

#[test]
fn send_to_unknown_id_is_dropped() {
    let mut link = GraphViewEventLink::new();
    assert_eq!(link.send(7, Msg::UnselectNode(String::from("2"))), Delivery::Dropped);
}

#[test]
fn duplicate_registration_is_refused() {
    let mut link = GraphViewEventLink::new();
    link.register(GraphView::create(0, 0).0).unwrap();
    assert_eq!(
        link.register(GraphView::create(0, 1).0),
        Err(BridgeError::DuplicateRegistration)
    );
    assert_eq!(link.panel(0).unwrap().token(), 0);
}

#[test]
fn retired_id_is_refused() {
    let mut link = GraphViewEventLink::new();
    link.register(GraphView::create(0, 0).0).unwrap();
    link.unregister(0);
    assert_eq!(link.register(GraphView::create(0, 1).0), Err(BridgeError::RetiredInstance));
    assert!(!link.is_live(0));
}

#[test]
fn id_not_yet_handed_out_is_refused() {
    let mut link = GraphViewEventLink::new();
    assert_eq!(link.register(GraphView::create(5, 0).0), Err(BridgeError::UnknownInstance));
    assert_eq!(link.next_instance(), 0);
}

#[test]
fn two_panels_are_kept_apart() {
    let mut link = GraphViewEventLink::new();
    link.register(GraphView::create(0, 0).0).unwrap();
    link.register(GraphView::create(1, 1).0).unwrap();
    link.send(1, Msg::SettingMessage(GraphSettingsMessage::AddNode));
    assert_eq!(link.panel(0).unwrap().node_count(), 2);
    assert_eq!(link.panel(1).unwrap().node_count(), 3);
}
