use graph_panel::engine::{
    relayout_config, EdgeDescriptor, EngineAction, LayoutConfig, LayoutKind, NodeDescriptor,
    SelectionMode, Selector,
};
use graph_panel::graph::Graph;
use graph_panel::messages::{GraphSettingsMessage, Msg};
use graph_panel::panel::GraphView;

fn node(id: u64) -> EngineAction {
    EngineAction::AddNode(NodeDescriptor { id, selectable: true })
}

#[test]
fn create_seeds_two_nodes_and_an_edge() {
    let (p, actions) = GraphView::create(4, 9);
    assert_eq!(p.instance(), 4);
    assert_eq!(p.token(), 9);
    assert_eq!(p.node_count(), 2);
    assert_eq!(p.current_layout(), None);
    assert_eq!(
        actions,
        vec![
            node(1),
            node(2),
            EngineAction::AddEdge(EdgeDescriptor { source: 1, target: 2 }),
            EngineAction::SetSelectionMode(SelectionMode::Additive),
            EngineAction::Selectify(Selector::AllNodes),
        ]
    );
}

#[test]
fn relayout_config_is_fixed() {
    assert_eq!(
        relayout_config(),
        LayoutConfig {
            kind: LayoutKind::Cose,
            animate: true,
            randomize: false,
            max_simulation_time_ms: 1500,
            animation_duration_ms: 1000,
            fit: true,
            animation_threshold: 10,
        }
    );
}

#[test]
fn scenario_add_node_then_relayout() {
    let (mut p, _) = GraphView::create(0, 0);
    let a = p.apply_settings_message(GraphSettingsMessage::AddNode).unwrap();
    assert_eq!(a, vec![node(3)]);
    assert_eq!(p.node_count(), 3);
    let r = p.apply_settings_message(GraphSettingsMessage::Relayout).unwrap();
    assert_eq!(r, vec![EngineAction::RunLayout(1, relayout_config())]);
    assert_eq!(p.current_layout(), Some(1));
    assert_eq!(p.node_count(), 3);
}

#[test]
fn add_nodes_count_up_by_one_with_fresh_ids() {
    let (mut p, _) = GraphView::create(0, 0);
    let mut seen: Vec<u64> = vec![1, 2];
    for k in 0..5u64 {
        let before = p.node_count();
        let a = p.add_node().unwrap();
        assert_eq!(p.node_count(), before + 1);
        assert_eq!(a, vec![node(3 + k)]);
        let id = match a[0] {
            EngineAction::AddNode(d) => d.id,
            _ => unreachable!(),
        };
        assert!(!seen.contains(&id));
        seen.push(id);
    }
    assert_eq!(p.node_count(), 7);
}

#[test]
fn second_relayout_stops_the_first() {
    let (mut p, _) = GraphView::create(0, 0);
    let first = p.randomize_layout().unwrap();
    let h1 = match first.last() {
        Some(EngineAction::RunLayout(h, _)) => *h,
        _ => unreachable!(),
    };
    let second = p.randomize_layout().unwrap();
    assert_eq!(second.len(), 2);
    assert_eq!(second[0], EngineAction::StopLayout(h1));
    match second[1] {
        EngineAction::RunLayout(h2, c) => {
            assert_ne!(h2, h1);
            assert_eq!(c, relayout_config());
            assert_eq!(p.current_layout(), Some(h2));
        },
        _ => unreachable!(),
    }
}

#[test]
fn additive_selection_keeps_earlier_nodes() {
    let (mut p, _) = GraphView::create(0, 0);
    let a = String::from("1");
    let b = String::from("2");
    assert_eq!(p.handle_message(Msg::SelectNode(a.clone())).unwrap(), vec![]);
    p.handle_message(Msg::SelectNode(b.clone())).unwrap();
    assert!(p.is_selected(&a));
    assert!(p.is_selected(&b));
    p.handle_message(Msg::UnselectNode(a.clone())).unwrap();
    assert!(!p.is_selected(&a));
    assert!(p.is_selected(&b));
}

#[test]
fn selecting_twice_then_unselecting_once_clears() {
    let (mut p, _) = GraphView::create(0, 0);
    let a = String::from("3");
    p.select_node(a.clone());
    p.select_node(a.clone());
    p.unselect_node(a.clone());
    assert!(!p.is_selected(&a));
    p.unselect_node(String::from("9"));
    assert!(!p.is_selected(&String::from("9")));
}

#[test]
fn selection_events_leave_graph_alone() {
    let (mut p, _) = GraphView::create(0, 0);
    p.handle_message(Msg::SelectNode(String::from("1"))).unwrap();
    assert_eq!(p.node_count(), 2);
    assert_eq!(p.current_layout(), None);
}

#[test]
fn empty_graph_description() {
    let g = Graph::new();
    assert!(g.nodes.is_empty());
    assert!(g.links.is_empty());
}
