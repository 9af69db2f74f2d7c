use vstd::prelude::*;

verus! {

/// A command issued by a settings control to the graph panel.
#[derive(Clone, Copy, Debug, PartialEq, Eq, Structural)]
pub enum GraphSettingsMessage {
    /// Request to rerun the layout on the current graph
    Relayout,
    /// Request to add a node to the graph
    AddNode,
}

/// A message handled by the graph panel.
#[derive(Clone, Debug, PartialEq, Eq)]
pub enum Msg {
    /// Request to change the settings of the graph
    SettingMessage(GraphSettingsMessage),
    /// A node has been selected
    SelectNode(String),
    /// A node has been unselected
    UnselectNode(String),
}

} // verus!
