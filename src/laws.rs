use vstd::prelude::*;
use crate::bridge::{is_live, send_spec, unregister_spec};
use crate::bus::{publish_target, subscribe_spec};
use crate::engine::{relayout_config_spec, EngineAction, NodeDescriptor};
use crate::host::{publish_spec, HostModel};
use crate::messages::{GraphSettingsMessage, Msg};
use crate::panel::{
    apply_spec, current_layout, handle_spec, initial_model, node_ids, relayout_spec, PanelModel,
};

verus! {

/// The panel after a run of settings commands, and every engine action asked
/// for on the way. A command that fails leaves the panel as it was.
pub open spec fn run_spec(m: PanelModel, cmds: Seq<GraphSettingsMessage>) -> (PanelModel, Seq<EngineAction>)
    decreases cmds.len(),
{
    if cmds.len() == 0 {
        (m, seq![])
    } else {
        let (m1, a1) = match apply_spec(m, cmds[0]) {
            Ok((m1, a1)) => (m1, a1),
            Err(_) => (m, seq![]),
        };
        let (m2, a2) = run_spec(m1, cmds.drop_first());
        (m2, a1 + a2)
    }
}

/// A run of `AddNode` commands adds exactly one node per command; the i-th
/// command adds node `nodes + i + 1`, so the new ids are pairwise distinct and
/// none of them named a node before.
pub proof fn lemma_add_nodes_fresh(m: PanelModel, cmds: Seq<GraphSettingsMessage>)
    requires
        forall|i: int| 0 <= i < cmds.len() ==> cmds[i] == GraphSettingsMessage::AddNode,
        m.nodes + cmds.len() <= u64::MAX,
    ensures
        run_spec(m, cmds).0 == (PanelModel { nodes: (m.nodes + cmds.len()) as u64, ..m }),
        run_spec(m, cmds).1.len() == cmds.len(),
        forall|i: int|
            0 <= i < cmds.len() ==> #[trigger] run_spec(m, cmds).1[i] == EngineAction::AddNode(
                NodeDescriptor { id: (m.nodes + i + 1) as u64, selectable: true },
            ),
        forall|i: int|
            0 <= i < cmds.len() ==> (#[trigger] run_spec(m, cmds).1[i] matches EngineAction::AddNode(d)
                && !node_ids(m).contains(d.id) && node_ids(run_spec(m, cmds).0).contains(d.id)),
        forall|i: int, j: int|
            0 <= i < j < cmds.len() ==> run_spec(m, cmds).1[i] != run_spec(m, cmds).1[j],
    decreases cmds.len(),
{
    if cmds.len() > 0 {
        let (m1, a1) = apply_spec(m, cmds[0])->Ok_0;
        let rest = cmds.drop_first();
        lemma_add_nodes_fresh(m1, rest);
        let all = run_spec(m, cmds).1;
        assert forall|i: int| 0 <= i < cmds.len() implies #[trigger] all[i] == EngineAction::AddNode(
            NodeDescriptor { id: (m.nodes + i + 1) as u64, selectable: true },
        ) by {
            if i > 0 {
                assert(all[i] == run_spec(m1, rest).1[i - 1]);
            }
        }
        assert forall|i: int, j: int| 0 <= i < j < cmds.len() implies all[i] != all[j] by {
            assert(all[i] == EngineAction::AddNode(
                NodeDescriptor { id: (m.nodes + i + 1) as u64, selectable: true },
            ));
            assert(all[j] == EngineAction::AddNode(
                NodeDescriptor { id: (m.nodes + j + 1) as u64, selectable: true },
            ));
        }
    }
}

/// Along a run of `AddNode` commands the node count goes up by exactly one at
/// each command.
pub proof fn lemma_add_nodes_one_at_a_time(m: PanelModel, cmds: Seq<GraphSettingsMessage>)
    requires
        forall|i: int| 0 <= i < cmds.len() ==> cmds[i] == GraphSettingsMessage::AddNode,
        m.nodes + cmds.len() <= u64::MAX,
    ensures
        forall|k: int|
            0 <= k <= cmds.len() ==> #[trigger] run_spec(m, cmds.take(k)).0.nodes == m.nodes + k,
{
    assert forall|k: int| 0 <= k <= cmds.len() implies #[trigger] run_spec(m, cmds.take(k)).0.nodes
        == m.nodes + k by {
        lemma_add_nodes_fresh(m, cmds.take(k));
    }
}

/// Two relayouts in a row: the second stops exactly the layout the first ran,
/// under a new handle, so at most one layout of the panel runs at a time.
pub proof fn lemma_relayout_twice(m: PanelModel)
    requires
        m.layouts + 2 <= u64::MAX,
    ensures
        ({
            let (m1, a1) = relayout_spec(m)->Ok_0;
            let (m2, a2) = relayout_spec(m1)->Ok_0;
            &&& current_layout(m1) matches Some(h1)
            &&& a1.last() == EngineAction::RunLayout(h1, relayout_config_spec())
            &&& current_layout(m2) matches Some(h2)
            &&& h2 != h1
            &&& a2 == seq![
                EngineAction::StopLayout(h1),
                EngineAction::RunLayout(h2, relayout_config_spec()),
            ]
        }),
{
    let (m1, a1) = relayout_spec(m)->Ok_0;
    let (m2, a2) = relayout_spec(m1)->Ok_0;
    assert(a2 =~= seq![
        EngineAction::StopLayout(m1.layouts),
        EngineAction::RunLayout(m2.layouts, relayout_config_spec()),
    ]);
}

/// Every relayout stops the layout that is running, if any, before it runs the
/// next one.
pub proof fn lemma_relayout_stops_current(m: PanelModel)
    requires
        m.layouts < u64::MAX,
    ensures
        ({
            let (m1, a) = relayout_spec(m)->Ok_0;
            &&& current_layout(m) matches Some(h) ==> a == seq![
                EngineAction::StopLayout(h),
                EngineAction::RunLayout(m1.layouts, relayout_config_spec()),
            ]
            &&& current_layout(m) is None ==> a == seq![
                EngineAction::RunLayout(m1.layouts, relayout_config_spec()),
            ]
            &&& current_layout(m1) == Some(m1.layouts)
            &&& current_layout(m) != current_layout(m1)
        }),
{
    let (m1, a) = relayout_spec(m)->Ok_0;
    if m.layouts != 0 {
        assert(a =~= seq![
            EngineAction::StopLayout(m.layouts),
            EngineAction::RunLayout(m1.layouts, relayout_config_spec()),
        ]);
    }
}

/// Once a panel is unregistered, any message for it is dropped and changes
/// nothing.
pub proof fn lemma_late_callback_dropped(slots: Seq<Option<PanelModel>>, id: u64, msg: Msg)
    ensures
        !is_live(unregister_spec(slots, id), id),
        send_spec(unregister_spec(slots, id), id, msg) == unregister_spec(slots, id),
{
}

/// A command published while no panel is subscribed is dropped and changes
/// nothing; once a panel subscribes and is registered, published commands reach
/// it.
pub proof fn lemma_publish_reaches_subscriber(h: HostModel, cmd: GraphSettingsMessage)
    requires
        h.bus.current is None,
        h.panels.len() < u64::MAX,
    ensures
        publish_spec(h, cmd) == h,
        subscribe_spec(h.bus, h.panels.len() as u64) matches Some((b, token)) ==> ({
            let id = h.panels.len() as u64;
            let h2 = HostModel { bus: b, panels: h.panels.push(Some(initial_model(id, token))) };
            &&& publish_target(h2.bus) == Some(id)
            &&& is_live(h2.panels, id)
            &&& publish_spec(h2, cmd) == (HostModel {
                panels: h2.panels.update(
                    id as int,
                    Some(
                        match apply_spec(initial_model(id, token), cmd) {
                            Ok((m, _)) => m,
                            Err(_) => initial_model(id, token),
                        },
                    ),
                ),
                ..h2
            })
        }),
{
    if let Some((b, token)) = subscribe_spec(h.bus, h.panels.len() as u64) {
        let id = h.panels.len() as u64;
        let h2 = HostModel { bus: b, panels: h.panels.push(Some(initial_model(id, token))) };
        assert(h2.panels[id as int] == Some(initial_model(id, token)));
        match apply_spec(initial_model(id, token), cmd) {
            Ok((m, _)) => {},
            Err(_) => {
                assert(h2.panels.update(id as int, Some(initial_model(id, token))) =~= h2.panels);
            },
        }
    }
}

/// Additive selection: selecting `a` then `b` leaves both selected, and
/// unselecting `a` afterwards leaves `b` selected.
pub proof fn lemma_additive_selection(m: PanelModel, a: String, b: String)
    requires
        a@ != b@,
    ensures
        ({
            let m1 = handle_spec(m, Msg::SelectNode(a))->Ok_0.0;
            let m2 = handle_spec(m1, Msg::SelectNode(b))->Ok_0.0;
            let m3 = handle_spec(m2, Msg::UnselectNode(a))->Ok_0.0;
            &&& m2.selected.contains(a@)
            &&& m2.selected.contains(b@)
            &&& m3.selected.contains(b@)
            &&& !m3.selected.contains(a@)
        }),
{
}

} // verus!
