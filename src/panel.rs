use vstd::prelude::*;
use crate::engine::{
    relayout_config, relayout_config_spec, EdgeDescriptor, EngineAction, NodeDescriptor,
    SelectionMode, Selector,
};
use crate::messages::{GraphSettingsMessage, Msg};

verus! {

/// Why the panel could not carry out a command. The panel is left unchanged.
#[derive(Clone, Copy, Debug, PartialEq, Eq, Structural)]
pub enum PanelError {
    /// Every node id has been handed out.
    NodeIdsExhausted,
    /// Every layout handle has been handed out.
    LayoutHandlesExhausted,
}

/// The abstract state of a graph panel.
pub struct PanelModel {
    /// The id under which the panel is registered with the event bridge.
    pub instance: u64,
    /// The command bus subscription the panel holds.
    pub token: u64,
    /// Number of nodes in the graph; the nodes are `1..=nodes`.
    pub nodes: u64,
    /// Number of layouts started; the current one, if any, has handle `layouts`.
    pub layouts: u64,
    /// Ids of the nodes the engine reported as selected.
    pub selected: Set<Seq<char>>,
}

/// The graph panel: what it knows of the engine's graph, its running layout and
/// the selection.
pub struct GraphView {
    instance: u64,
    token: u64,
    nodes: u64,
    layouts: u64,
    selected: Vec<String>,
}

/// The ids of the nodes of a panel in state `m`.
pub open spec fn node_ids(m: PanelModel) -> Set<u64> {
    Set::new(|id: u64| 1 <= id <= m.nodes)
}

/// The handle of the layout currently running in state `m`, if any.
pub open spec fn current_layout(m: PanelModel) -> Option<u64> {
    if m.layouts == 0 {
        None
    } else {
        Some(m.layouts)
    }
}

/// The panel right after construction: nodes 1 and 2, no layout, nothing selected.
pub open spec fn initial_model(instance: u64, token: u64) -> PanelModel {
    PanelModel { instance, token, nodes: 2, layouts: 0, selected: Set::empty() }
}

/// What construction asks of the engine: the seed graph 1 — 2, additive
/// selection, and all nodes selectable.
pub open spec fn initial_actions() -> Seq<EngineAction> {
    seq![
        EngineAction::AddNode(NodeDescriptor { id: 1, selectable: true }),
        EngineAction::AddNode(NodeDescriptor { id: 2, selectable: true }),
        EngineAction::AddEdge(EdgeDescriptor { source: 1, target: 2 }),
        EngineAction::SetSelectionMode(SelectionMode::Additive),
        EngineAction::Selectify(Selector::AllNodes),
    ]
}

/// Adding a node: the counter grows by one and names the new node.
pub open spec fn add_node_spec(m: PanelModel) -> Result<(PanelModel, Seq<EngineAction>), PanelError> {
    if m.nodes == u64::MAX {
        Err(PanelError::NodeIdsExhausted)
    } else {
        let id = (m.nodes + 1) as u64;
        Ok((
            PanelModel { nodes: id, ..m },
            seq![EngineAction::AddNode(NodeDescriptor { id, selectable: true })],
        ))
    }
}

/// Relayout: stop the current layout, if any, then run a fresh one under a new
/// handle.
pub open spec fn relayout_spec(m: PanelModel) -> Result<(PanelModel, Seq<EngineAction>), PanelError> {
    if m.layouts == u64::MAX {
        Err(PanelError::LayoutHandlesExhausted)
    } else {
        let h = (m.layouts + 1) as u64;
        let run = seq![EngineAction::RunLayout(h, relayout_config_spec())];
        Ok((
            PanelModel { layouts: h, ..m },
            if m.layouts == 0 {
                run
            } else {
                seq![EngineAction::StopLayout(m.layouts)] + run
            },
        ))
    }
}

pub open spec fn apply_spec(m: PanelModel, cmd: GraphSettingsMessage) -> Result<
    (PanelModel, Seq<EngineAction>),
    PanelError,
> {
    match cmd {
        GraphSettingsMessage::Relayout => relayout_spec(m),
        GraphSettingsMessage::AddNode => add_node_spec(m),
    }
}

/// Selection events only update the panel's record of the selection; settings
/// commands go to `apply_spec`.
pub open spec fn handle_spec(m: PanelModel, msg: Msg) -> Result<(PanelModel, Seq<EngineAction>), PanelError> {
    match msg {
        Msg::SettingMessage(cmd) => apply_spec(m, cmd),
        Msg::SelectNode(id) => Ok((PanelModel { selected: m.selected.insert(id@), ..m }, seq![])),
        Msg::UnselectNode(id) => Ok((PanelModel { selected: m.selected.remove(id@), ..m }, seq![])),
    }
}

/// The texts held in a sequence of strings.
pub open spec fn selected_set(v: Seq<String>) -> Set<Seq<char>> {
    Set::new(|t: Seq<char>| exists|i: int| 0 <= i < v.len() && v[i]@ == t)
}

impl View for GraphView {
    type V = PanelModel;

    closed spec fn view(&self) -> PanelModel {
        PanelModel {
            instance: self.instance,
            token: self.token,
            nodes: self.nodes,
            layouts: self.layouts,
            selected: selected_set(self.selected@),
        }
    }
}

impl GraphView {
    /// The selection record holds each id once.
    pub closed spec fn wf(&self) -> bool {
        forall|i: int, j: int|
            0 <= i < j < self.selected@.len() ==> self.selected@[i]@ != self.selected@[j]@
    }

    /// Builds a panel registered as `instance` and subscribed under `token`, and
    /// the engine actions that seed its graph.
    pub fn create(instance: u64, token: u64) -> (r: (GraphView, Vec<EngineAction>))
        ensures
            r.0.wf(),
            r.0@ == initial_model(instance, token),
            r.1@ == initial_actions(),
    {
        let p = GraphView { instance, token, nodes: 2, layouts: 0, selected: Vec::new() };
        let mut actions: Vec<EngineAction> = Vec::new();
        actions.push(EngineAction::AddNode(NodeDescriptor { id: 1, selectable: true }));
        actions.push(EngineAction::AddNode(NodeDescriptor { id: 2, selectable: true }));
        actions.push(EngineAction::AddEdge(EdgeDescriptor { source: 1, target: 2 }));
        actions.push(EngineAction::SetSelectionMode(SelectionMode::Additive));
        actions.push(EngineAction::Selectify(Selector::AllNodes));
        proof {
            assert(p@.selected =~= Set::<Seq<char>>::empty());
            assert(actions@ =~= initial_actions());
        }
        (p, actions)
    }

    /// Adds one node, named by the incremented node counter.
    pub fn add_node(&mut self) -> (r: Result<Vec<EngineAction>, PanelError>)
        requires
            old(self).wf(),
        ensures
            final(self).wf(),
            match add_node_spec(old(self)@) {
                Ok((m, a)) => r matches Ok(acts) && acts@ == a && final(self)@ == m,
                Err(e) => r == Err::<Vec<EngineAction>, PanelError>(e) && final(self)@ == old(self)@,
            },
    {
        if self.nodes == u64::MAX {
            return Err(PanelError::NodeIdsExhausted);
        }
        self.nodes = self.nodes + 1;
        let mut actions: Vec<EngineAction> = Vec::new();
        actions.push(EngineAction::AddNode(NodeDescriptor { id: self.nodes, selectable: true }));
        proof {
            assert(actions@ =~= seq![EngineAction::AddNode(NodeDescriptor { id: self.nodes, selectable: true })]);
        }
        Ok(actions)
    }

    /// Stops the current layout, if any, and runs a new one under a fresh handle.
    pub fn randomize_layout(&mut self) -> (r: Result<Vec<EngineAction>, PanelError>)
        requires
            old(self).wf(),
        ensures
            final(self).wf(),
            match relayout_spec(old(self)@) {
                Ok((m, a)) => r matches Ok(acts) && acts@ == a && final(self)@ == m,
                Err(e) => r == Err::<Vec<EngineAction>, PanelError>(e) && final(self)@ == old(self)@,
            },
    {
        if self.layouts == u64::MAX {
            return Err(PanelError::LayoutHandlesExhausted);
        }
        let mut actions: Vec<EngineAction> = Vec::new();
        if self.layouts != 0 {
            actions.push(EngineAction::StopLayout(self.layouts));
        }
        self.layouts = self.layouts + 1;
        actions.push(EngineAction::RunLayout(self.layouts, relayout_config()));
        proof {
            let run = seq![EngineAction::RunLayout(self.layouts, relayout_config_spec())];
            if old(self).layouts == 0 {
                assert(actions@ =~= run);
            } else {
                assert(actions@ =~= seq![EngineAction::StopLayout(old(self).layouts)] + run);
            }
        }
        Ok(actions)
    }

    /// Carries out a settings command.
    pub fn apply_settings_message(&mut self, setting_msg: GraphSettingsMessage) -> (r: Result<
        Vec<EngineAction>,
        PanelError,
    >)
        requires
            old(self).wf(),
        ensures
            final(self).wf(),
            match apply_spec(old(self)@, setting_msg) {
                Ok((m, a)) => r matches Ok(acts) && acts@ == a && final(self)@ == m,
                Err(e) => r == Err::<Vec<EngineAction>, PanelError>(e) && final(self)@ == old(self)@,
            },
    {
        match setting_msg {
            GraphSettingsMessage::Relayout => self.randomize_layout(),
            GraphSettingsMessage::AddNode => self.add_node(),
        }
    }

    /// The position of `id` in the selection record, if it is there.
    fn find_selected(&self, id: &String) -> (r: Option<usize>)
        ensures
            match r {
                Some(k) => k < self.selected@.len() && self.selected@[k as int]@ == id@,
                None => forall|i: int| 0 <= i < self.selected@.len() ==> self.selected@[i]@ != id@,
            },
    {
        let mut k: usize = 0;
        while k < self.selected.len()
            invariant
                k <= self.selected@.len(),
                forall|i: int| 0 <= i < k ==> self.selected@[i]@ != id@,
            decreases self.selected@.len() - k,
        {
            if self.selected[k] == *id {
                return Some(k);
            }
            k = k + 1;
        }
        None
    }

    /// Records that the engine selected node `id`.
    pub fn select_node(&mut self, id: String)
        requires
            old(self).wf(),
        ensures
            final(self).wf(),
            final(self)@ == (PanelModel { selected: old(self)@.selected.insert(id@), ..old(self)@ }),
    {
        match self.find_selected(&id) {
            Some(_) => {
                proof {
                    assert(self@.selected =~= old(self)@.selected.insert(id@));
                }
            },
            None => {
                let ghost idv = id@;
                self.selected.push(id);
                proof {
                    let v = self.selected@;
                    assert(v[v.len() - 1]@ == idv);
                    assert forall|t: Seq<char>| #[trigger] selected_set(v).contains(t) == old(self)@.selected.insert(idv).contains(t) by {
                        if selected_set(v).contains(t) {
                            let i = choose|i: int| 0 <= i < v.len() && v[i]@ == t;
                            if i < v.len() - 1 {
                                assert(old(self).selected@[i]@ == t);
                            }
                        }
                        if old(self)@.selected.contains(t) {
                            let i = choose|i: int| 0 <= i < old(self).selected@.len() && old(self).selected@[i]@ == t;
                            assert(v[i]@ == t);
                        }
                    }
                    assert(self@.selected =~= old(self)@.selected.insert(idv));
                }
            },
        }
    }

    /// Records that the engine unselected node `id`.
    pub fn unselect_node(&mut self, id: String)
        requires
            old(self).wf(),
        ensures
            final(self).wf(),
            final(self)@ == (PanelModel { selected: old(self)@.selected.remove(id@), ..old(self)@ }),
    {
        match self.find_selected(&id) {
            None => {
                proof {
                    assert(self@.selected =~= old(self)@.selected.remove(id@));
                }
            },
            Some(k) => {
                let ghost o = self.selected@;
                self.selected.remove(k);
                proof {
                    let v = self.selected@;
                    assert(v =~= o.remove(k as int));
                    assert forall|t: Seq<char>| #[trigger] selected_set(v).contains(t) == old(self)@.selected.remove(id@).contains(t) by {
                        if selected_set(v).contains(t) {
                            let i = choose|i: int| 0 <= i < v.len() && v[i]@ == t;
                            if i < k {
                                assert(o[i]@ == t);
                            } else {
                                assert(o[i + 1]@ == t);
                            }
                        }
                        if old(self)@.selected.remove(id@).contains(t) {
                            let i = choose|i: int| 0 <= i < o.len() && o[i]@ == t;
                            if i < k {
                                assert(v[i]@ == t);
                            } else {
                                assert(i != k);
                                assert(v[i - 1]@ == t);
                            }
                        }
                    }
                    assert(self@.selected =~= old(self)@.selected.remove(id@));
                }
            },
        }
    }

    /// Handles one message: a settings command, or a selection event from the
    /// engine.
    pub fn handle_message(&mut self, msg: Msg) -> (r: Result<Vec<EngineAction>, PanelError>)
        requires
            old(self).wf(),
        ensures
            final(self).wf(),
            match handle_spec(old(self)@, msg) {
                Ok((m, a)) => r matches Ok(acts) && acts@ == a && final(self)@ == m,
                Err(e) => r == Err::<Vec<EngineAction>, PanelError>(e) && final(self)@ == old(self)@,
            },
    {
        match msg {
            Msg::SettingMessage(setting_msg) => self.apply_settings_message(setting_msg),
            Msg::SelectNode(node) => {
                self.select_node(node);
                let actions: Vec<EngineAction> = Vec::new();
                proof {
                    assert(actions@ =~= Seq::<EngineAction>::empty());
                }
                Ok(actions)
            },
            Msg::UnselectNode(node) => {
                self.unselect_node(node);
                let actions: Vec<EngineAction> = Vec::new();
                proof {
                    assert(actions@ =~= Seq::<EngineAction>::empty());
                }
                Ok(actions)
            },
        }
    }

    /// Whether the engine last reported node `id` as selected.
    pub fn is_selected(&self, id: &String) -> (r: bool)
        ensures
            r == self@.selected.contains(id@),
    {
        match self.find_selected(id) {
            Some(_) => true,
            None => false,
        }
    }

    pub fn instance(&self) -> (r: u64)
        ensures
            r == self@.instance,
    {
        self.instance
    }

    pub fn token(&self) -> (r: u64)
        ensures
            r == self@.token,
    {
        self.token
    }

    pub fn node_count(&self) -> (r: u64)
        ensures
            r == self@.nodes,
    {
        self.nodes
    }

    pub fn current_layout(&self) -> (r: Option<u64>)
        ensures
            r == current_layout(self@),
    {
        if self.layouts == 0 {
            None
        } else {
            Some(self.layouts)
        }
    }
}

} // verus!
