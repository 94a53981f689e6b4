use vstd::prelude::*;

use super::callbacks::{
    spec_light_changes, spec_primitive_changes, spec_texture_changes, LightCallbacks, NameLists,
    PrimitiveCallbacks, ProceduralTextureCallbacks, no_names,
};
use super::value_type::{apply_visibility, spec_visibility_applied, NodeInput, VisibilityChanges};
use super::NodeGraphResponse;

verus! {

/// The kinds of node that the graph offers in its "new node" finder.
#[derive(Clone, Copy, Debug, PartialEq, Eq, Structural)]
pub enum NodeTemplate {
    Axis,
    Camera,
    Light,
    Grade,
    Material,
    Primitive,
    ProceduralTexture,
    RayMarcher,
    Scene,
    Texture,
}

/// The data the graph keeps with each node: the template it was built from.
#[derive(Clone, Copy, Debug, PartialEq, Eq, Structural)]
pub struct NodeData {
    pub template: NodeTemplate,
}

impl NodeTemplate {
    pub open spec fn spec_node_finder_label(self) -> Seq<char> {
        match self {
            NodeTemplate::Axis => "axis"@,
            NodeTemplate::Camera => "camera"@,
            NodeTemplate::Light => "light"@,
            NodeTemplate::Grade => "grade"@,
            NodeTemplate::Material => "material"@,
            NodeTemplate::Primitive => "primitive"@,
            NodeTemplate::ProceduralTexture => "procedural texture"@,
            NodeTemplate::RayMarcher => "ray marcher"@,
            NodeTemplate::Scene => "scene"@,
            NodeTemplate::Texture => "texture"@,
        }
    }

    /// The label of the template in the node finder.
    pub fn node_finder_label(&self) -> (r: &'static str)
        ensures
            r@ == self.spec_node_finder_label(),
    {
        match self {
            NodeTemplate::Axis => "axis",
            NodeTemplate::Camera => "camera",
            NodeTemplate::Light => "light",
            NodeTemplate::Grade => "grade",
            NodeTemplate::Material => "material",
            NodeTemplate::Primitive => "primitive",
            NodeTemplate::ProceduralTexture => "procedural texture",
            NodeTemplate::RayMarcher => "ray marcher",
            NodeTemplate::Scene => "scene",
            NodeTemplate::Texture => "texture",
        }
    }

    /// The label of a node built from the template: its finder label.
    pub fn node_graph_label(&self) -> (r: String)
        ensures
            r@ == self.spec_node_finder_label(),
    {
        self.node_finder_label().to_string()
    }

    /// The data kept with a node built from the template.
    pub fn user_data(&self) -> (r: NodeData)
        ensures
            r.template == *self,
    {
        NodeData { template: *self }
    }

    /// The inputs whose visibility changes when the input `input_name` of
    /// a node built from this template changes: light, primitive and
    /// procedural texture nodes have rules, the other templates none.
    pub open spec fn spec_input_changes(
        self,
        inputs: Seq<NodeInput>,
        input_name: Seq<char>,
    ) -> NameLists {
        match self {
            NodeTemplate::Light => spec_light_changes(inputs, input_name),
            NodeTemplate::Primitive => spec_primitive_changes(inputs, input_name),
            NodeTemplate::ProceduralTexture => spec_texture_changes(inputs, input_name),
            _ => no_names(),
        }
    }

    /// Shows and hides the inputs of a node built from this template after
    /// its input `input_name` changed.
    pub fn input_value_changed(&self, inputs: &mut Vec<NodeInput>, input_name: &str) -> (r: Vec<
        NodeGraphResponse,
    >)
        ensures
            r@.len() == 0,
            spec_visibility_applied(
                old(inputs)@,
                final(inputs)@,
                self.spec_input_changes(old(inputs)@, input_name@).0,
                self.spec_input_changes(old(inputs)@, input_name@).1,
            ),
    {
        match self {
            NodeTemplate::Light => LightCallbacks.input_value_changed(inputs, input_name),
            NodeTemplate::Primitive => PrimitiveCallbacks.input_value_changed(inputs, input_name),
            NodeTemplate::ProceduralTexture => ProceduralTextureCallbacks.input_value_changed(
                inputs,
                input_name,
            ),
            _ => {
                apply_visibility(inputs, &VisibilityChanges::none());
                Vec::new()
            },
        }
    }

    /// No template answers a disconnection.
    pub fn input_disconnected(&self) -> (r: Vec<NodeGraphResponse>)
        ensures
            r@.len() == 0,
    {
        Vec::new()
    }

    /// No template answers a connection.
    pub fn input_connected(&self) -> (r: Vec<NodeGraphResponse>)
        ensures
            r@.len() == 0,
    {
        Vec::new()
    }
}

/// Every node template, in the order of their declaration.
pub open spec fn spec_all_templates() -> Seq<NodeTemplate> {
    seq![
        NodeTemplate::Axis,
        NodeTemplate::Camera,
        NodeTemplate::Light,
        NodeTemplate::Grade,
        NodeTemplate::Material,
        NodeTemplate::Primitive,
        NodeTemplate::ProceduralTexture,
        NodeTemplate::RayMarcher,
        NodeTemplate::Scene,
        NodeTemplate::Texture,
    ]
}

/// The list of templates the node finder offers.
pub struct AllNodeTemplates;

impl AllNodeTemplates {
    /// Every node template, in the order of their declaration.
    pub fn all_kinds(&self) -> (r: Vec<NodeTemplate>)
        ensures
            r@ == spec_all_templates(),
    {
        let r = vec![
            NodeTemplate::Axis,
            NodeTemplate::Camera,
            NodeTemplate::Light,
            NodeTemplate::Grade,
            NodeTemplate::Material,
            NodeTemplate::Primitive,
            NodeTemplate::ProceduralTexture,
            NodeTemplate::RayMarcher,
            NodeTemplate::Scene,
            NodeTemplate::Texture,
        ];
        assert(r@ =~= spec_all_templates());
        r
    }
}

} // verus!
