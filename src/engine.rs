use vstd::prelude::*;

verus! {

/// A node to hand to the engine. Its engine id is the decimal text of `id`.
#[derive(Clone, Copy, Debug, PartialEq, Eq, Structural)]
pub struct NodeDescriptor {
    pub id: u64,
    pub selectable: bool,
}

/// An edge to hand to the engine. Its engine id is `"<source>-<target>"`.
#[derive(Clone, Copy, Debug, PartialEq, Eq, Structural)]
pub struct EdgeDescriptor {
    pub source: u64,
    pub target: u64,
}

/// How selecting an element composes with the current selection.
#[derive(Clone, Copy, Debug, PartialEq, Eq, Structural)]
pub enum SelectionMode {
    /// Selecting an element keeps the elements selected before.
    Additive,
    /// Selecting an element clears the previous selection.
    Single,
}

/// A set of elements that an engine operation applies to.
#[derive(Clone, Copy, Debug, PartialEq, Eq, Structural)]
pub enum Selector {
    AllNodes,
    AllEdges,
}

/// The layout algorithms the panel asks the engine for.
#[derive(Clone, Copy, Debug, PartialEq, Eq, Structural)]
pub enum LayoutKind {
    /// The engine's force-directed layout ("cose").
    Cose,
}

/// The options of one layout run.
#[derive(Clone, Copy, Debug, PartialEq, Eq, Structural)]
pub struct LayoutConfig {
    pub kind: LayoutKind,
    pub animate: bool,
    pub randomize: bool,
    pub max_simulation_time_ms: u32,
    pub animation_duration_ms: u32,
    pub fit: bool,
    pub animation_threshold: u32,
}

/// One operation to perform on the rendering engine.
///
/// Consecutive `AddNode` / `AddEdge` actions may be handed to the engine in a
/// single `add` call.
#[derive(Clone, Copy, Debug, PartialEq, Eq, Structural)]
pub enum EngineAction {
    AddNode(NodeDescriptor),
    AddEdge(EdgeDescriptor),
    SetSelectionMode(SelectionMode),
    Selectify(Selector),
    Unselectify(Selector),
    /// Build a layout from the config, run it, and remember it under the handle.
    RunLayout(u64, LayoutConfig),
    /// Stop the layout remembered under the handle (a no-op if it has stopped).
    StopLayout(u64),
}

pub open spec fn relayout_config_spec() -> LayoutConfig {
    LayoutConfig {
        kind: LayoutKind::Cose,
        animate: true,
        randomize: false,
        max_simulation_time_ms: 1500,
        animation_duration_ms: 1000,
        fit: true,
        animation_threshold: 10,
    }
}

/// The fixed configuration of a relayout: animated, not randomized, bounded
/// simulation time, fit to view when done.
pub fn relayout_config() -> (r: LayoutConfig)
    ensures
        r == relayout_config_spec(),
{
    LayoutConfig {
        kind: LayoutKind::Cose,
        animate: true,
        randomize: false,
        max_simulation_time_ms: 1500,
        animation_duration_ms: 1000,
        fit: true,
        animation_threshold: 10,
    }
}

} // verus!
