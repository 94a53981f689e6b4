use vstd::prelude::*;

pub mod callbacks;
pub mod data_type;
pub mod inputs;
pub mod layout;
pub mod template;
pub mod ui_data;
pub mod value_type;

verus! {

/// What the node graph asks of the application after a node changed.
#[derive(Clone, Debug)]
pub enum NodeGraphResponse {
    /// The input `name` of the node with the given id, built from the given
    /// template, changed its value.
    InputValueChanged(u64, template::NodeTemplate, String),
    /// The shader preprocessor directives may have changed.
    CheckPreprocessorDirectives,
}

/// The messages of the node graph widget; nodes are named by their ids.
#[derive(Clone, Debug)]
pub enum NodeGraphMessage {
    SetActiveNode(u64),
    ClearActiveNode,
    InputValueChanged(u64, String),
    CheckPreprocessorDirectives,
    ReconstructRenderResources,
}

/// What a node's input widget answers after it was drawn: a changed value
/// tells the graph which input of which node changed; otherwise nothing.
pub fn value_widget_responses(
    value_changed: bool,
    node_id: u64,
    template: template::NodeTemplate,
    param_name: &str,
) -> (r: Vec<NodeGraphResponse>)
    ensures
        value_changed ==> (r@.len() == 1 && (r@[0] matches NodeGraphResponse::InputValueChanged(
            id,
            t,
            name,
        ) && id == node_id && t == template && name@ == param_name@)),
        !value_changed ==> r@.len() == 0,
{
    if value_changed {
        vec![NodeGraphResponse::InputValueChanged(node_id, template, param_name.to_string())]
    } else {
        Vec::new()
    }
}

} // verus!
