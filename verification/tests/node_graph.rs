use damascus_ui::node_graph::callbacks::{
    input_name_of, LightCallbacks, MaterialCallbacks, PrimitiveCallbacks,
    ProceduralTextureCallbacks,
};
use damascus_ui::node_graph::data_type::NodeDataType;
use damascus_ui::node_graph::inputs::{Connection, Filepath, Integer, Material};
use damascus_ui::node_graph::layout::InputParamKind;
use damascus_ui::node_graph::template::{AllNodeTemplates, NodeTemplate};
use damascus_ui::node_graph::ui_data::UIData;
use damascus_ui::node_graph::value_type::{
    apply_visibility, find_input, InputValue, InvalidCast, NodeInput, NodeValueKind,
    VisibilityChanges,
};
use damascus_ui::node_graph::{value_widget_responses, NodeGraphResponse};

/// The inputs of a new node of `template`: combo boxes hold `combo`,
/// booleans are off.
fn node_inputs(template: NodeTemplate, combo: &str) -> Vec<NodeInput> {
    template
        .inputs()
        .into_iter()
        .map(|layout| {
            let value = match layout.kind {
                NodeValueKind::ComboBox => InputValue::ComboBox(combo.to_string()),
                NodeValueKind::Bool => InputValue::Bool(false),
                NodeValueKind::BVec3 => InputValue::BVec3(false, false, false),
                NodeValueKind::Filepath => InputValue::Filepath(String::new()),
                NodeValueKind::Integer => InputValue::Integer(0),
                NodeValueKind::UnsignedInteger => InputValue::UnsignedInteger(0),
                NodeValueKind::UVec2 => InputValue::UVec2(0, 0),
                NodeValueKind::UVec3 => InputValue::UVec3(0, 0, 0),
                kind => InputValue::Other(kind),
            };
            let mut ui_data = UIData::default().with_tooltip(layout.tooltip);
            if layout.hidden {
                ui_data = ui_data.with_hidden();
            }
            NodeInput { name: layout.name.to_string(), value, ui_data }
        })
        .collect()
}

fn visible(inputs: &[NodeInput], name: &str) -> bool {
    let i = inputs.iter().position(|input| input.name == name).unwrap();
    !*inputs[i].ui_data.hidden()
}

fn set_combo(inputs: &mut [NodeInput], name: &str, value: &str) {
    let i = inputs.iter().position(|input| input.name == name).unwrap();
    inputs[i].value = InputValue::ComboBox(value.to_string());
}

fn set_bool(inputs: &mut [NodeInput], name: &str, value: bool) {
    let i = inputs.iter().position(|input| input.name == name).unwrap();
    inputs[i].value = InputValue::Bool(value);
}

#[test]
fn ui_data_tooltip_and_visibility() {
    let data = UIData::default();
    assert!(data.tooltip().is_none());
    assert!(!*data.hidden());
    let data = data.with_tooltip("The radius.");
    assert_eq!(data.tooltip().as_deref(), Some("The radius."));
    let mut data = data.with_tooltip("");
    assert!(data.tooltip().is_none());
    data.make_hidden();
    assert!(*data.hidden());
    data.show();
    assert!(!*data.hidden());
    assert!(*UIData::new().with_hidden().hidden());
}

#[test]
fn light_type_shows_its_inputs() {
    let mut inputs = node_inputs(NodeTemplate::Light, "Point");
    let responses = LightCallbacks.input_value_changed(&mut inputs, "light_type");
    assert!(responses.is_empty());
    assert!(visible(&inputs, "position"));
    assert!(!visible(&inputs, "direction"));
    assert!(!visible(&inputs, "iterations"));

    set_combo(&mut inputs, "light_type", "Directional");
    LightCallbacks.input_value_changed(&mut inputs, "light_type");
    assert!(visible(&inputs, "direction"));
    assert!(!visible(&inputs, "position"));

    set_combo(&mut inputs, "light_type", "AmbientOcclusion");
    NodeTemplate::Light.input_value_changed(&mut inputs, "light_type");
    assert!(visible(&inputs, "iterations"));
    assert!(!visible(&inputs, "direction"));

    set_combo(&mut inputs, "light_type", "Sky");
    LightCallbacks.input_value_changed(&mut inputs, "light_type");
    assert!(!visible(&inputs, "iterations"));
    assert!(!visible(&inputs, "direction"));
    assert!(!visible(&inputs, "position"));
    // Inputs that no rule names keep their visibility.
    assert!(visible(&inputs, "intensity"));
}

#[test]
fn light_callback_ignores_other_inputs() {
    let mut inputs = node_inputs(NodeTemplate::Light, "Point");
    LightCallbacks.input_value_changed(&mut inputs, "intensity");
    assert!(!visible(&inputs, "position"));
    assert!(visible(&inputs, "iterations"));
}

#[test]
fn shape_change_shows_exactly_its_dimensions() {
    let mut inputs = node_inputs(NodeTemplate::Primitive, "Torus");
    PrimitiveCallbacks.input_value_changed(&mut inputs, "shape");
    for name in PrimitiveCallbacks::shape_parameter_names() {
        let expected = name == "ring_radius" || name == "tube_radius";
        assert_eq!(visible(&inputs, name), expected, "{name}");
    }
    set_combo(&mut inputs, "shape", "Mandelbox");
    NodeTemplate::Primitive.input_value_changed(&mut inputs, "shape");
    for name in PrimitiveCallbacks::shape_parameter_names() {
        let expected = ["scale", "iterations", "min_square_radius", "folding_limit"].contains(&name);
        assert_eq!(visible(&inputs, name), expected, "{name}");
    }
    // Running the callback again changes nothing.
    let before: Vec<bool> = inputs.iter().map(|i| *i.ui_data.hidden()).collect();
    PrimitiveCallbacks.input_value_changed(&mut inputs, "shape");
    let after: Vec<bool> = inputs.iter().map(|i| *i.ui_data.hidden()).collect();
    assert_eq!(before, after);
}

#[test]
fn new_primitive_shows_sphere_dimensions() {
    let inputs = node_inputs(NodeTemplate::Primitive, "Sphere");
    for name in PrimitiveCallbacks::shape_parameter_names() {
        assert_eq!(visible(&inputs, name), name == "radius", "{name}");
    }
    assert_eq!(PrimitiveCallbacks::shape_names("Sphere"), vec!["radius"]);
    assert_eq!(PrimitiveCallbacks::shape_names("Cone"), vec!["angle", "height"]);
    assert!(PrimitiveCallbacks::shape_names("Blob").is_empty());
}

#[test]
fn primitive_switches_and_repetition() {
    let mut inputs = node_inputs(NodeTemplate::Primitive, "Finite");
    PrimitiveCallbacks.input_value_changed(&mut inputs, "repetition");
    assert!(visible(&inputs, "negative_repetitions"));
    assert!(visible(&inputs, "positive_repetitions"));
    assert!(visible(&inputs, "spacing"));
    set_combo(&mut inputs, "repetition", "Infinite");
    PrimitiveCallbacks.input_value_changed(&mut inputs, "repetition");
    assert!(!visible(&inputs, "negative_repetitions"));
    assert!(visible(&inputs, "spacing"));

    set_bool(&mut inputs, "hollow", true);
    PrimitiveCallbacks.input_value_changed(&mut inputs, "hollow");
    assert!(visible(&inputs, "wall_thickness"));
    set_bool(&mut inputs, "elongate", true);
    PrimitiveCallbacks.input_value_changed(&mut inputs, "elongate");
    assert!(visible(&inputs, "elongation"));
    set_bool(&mut inputs, "bounding_volume", true);
    PrimitiveCallbacks.input_value_changed(&mut inputs, "bounding_volume");
    assert!(!visible(&inputs, "blend_type"));
    assert!(!visible(&inputs, "blend_strength"));
    set_bool(&mut inputs, "bounding_volume", false);
    PrimitiveCallbacks.input_value_changed(&mut inputs, "bounding_volume");
    assert!(visible(&inputs, "blend_type"));
}

#[test]
fn texture_type_and_trap_colour() {
    let mut inputs = node_inputs(NodeTemplate::ProceduralTexture, "Grade");
    ProceduralTextureCallbacks.input_value_changed(&mut inputs, "texture_type");
    for name in ["black_point", "white_point", "lift", "gain", "gamma", "invert", "use_trap_colour"] {
        assert!(visible(&inputs, name), "{name}");
    }
    for name in ["scale", "octaves", "lacunarity", "hue_rotation_angles"] {
        assert!(!visible(&inputs, name), "{name}");
    }
    set_combo(&mut inputs, "texture_type", "FBMNoise");
    ProceduralTextureCallbacks.input_value_changed(&mut inputs, "texture_type");
    assert!(visible(&inputs, "scale"));
    assert!(visible(&inputs, "octaves"));

    assert!(!ProceduralTextureCallbacks::use_trap_colour(&inputs));
    set_bool(&mut inputs, "use_trap_colour", true);
    assert!(ProceduralTextureCallbacks::use_trap_colour(&inputs));
    ProceduralTextureCallbacks.input_value_changed(&mut inputs, "use_trap_colour");
    assert!(visible(&inputs, "hue_rotation_angles"));
    set_bool(&mut inputs, "use_trap_colour", false);
    ProceduralTextureCallbacks.input_value_changed(&mut inputs, "use_trap_colour");
    assert!(!visible(&inputs, "hue_rotation_angles"));

    set_combo(&mut inputs, "texture_type", "None");
    ProceduralTextureCallbacks.input_value_changed(&mut inputs, "texture_type");
    assert!(visible(&inputs, "use_trap_colour"));
    assert!(!visible(&inputs, "scale"));
    assert!(!visible(&inputs, "gamma"));
}

#[test]
fn visibility_changes_touch_only_first_toggleable_input() {
    let mut inputs = vec![
        NodeInput {
            name: "a".to_string(),
            value: InputValue::Other(NodeValueKind::Float),
            ui_data: UIData::default(),
        },
        NodeInput {
            name: "a".to_string(),
            value: InputValue::Other(NodeValueKind::Float),
            ui_data: UIData::default(),
        },
        NodeInput {
            name: "b".to_string(),
            value: InputValue::Other(NodeValueKind::Material),
            ui_data: UIData::default(),
        },
    ];
    assert_eq!(find_input(&inputs, "a"), Some(0));
    assert_eq!(find_input(&inputs, "z"), None);
    let changes = VisibilityChanges { to_hide: vec!["a", "b"], to_show: vec![] };
    apply_visibility(&mut inputs, &changes);
    assert!(*inputs[0].ui_data.hidden());
    assert!(!*inputs[1].ui_data.hidden());
    // A material input never changes visibility.
    assert!(!*inputs[2].ui_data.hidden());
    // Showing wins over hiding.
    let changes = VisibilityChanges { to_hide: vec!["a"], to_show: vec!["a"] };
    apply_visibility(&mut inputs, &changes);
    assert!(!*inputs[0].ui_data.hidden());
    assert!(NodeValueKind::Vec3.toggles_visibility());
    assert!(!NodeValueKind::Scene.toggles_visibility());
}

#[test]
fn material_texture_inputs_ask_for_directives() {
    let node_inputs = vec![
        ("diffuse_colour".to_string(), 1u64),
        ("diffuse_colour_texture".to_string(), 2u64),
    ];
    assert_eq!(input_name_of(&node_inputs, 2), "diffuse_colour_texture");
    assert_eq!(input_name_of(&node_inputs, 9), "");
    let responses = MaterialCallbacks.input_connected(&node_inputs, 2);
    assert_eq!(responses.len(), 1);
    assert!(matches!(responses[0], NodeGraphResponse::CheckPreprocessorDirectives));
    assert!(MaterialCallbacks.input_connected(&node_inputs, 1).is_empty());
    assert_eq!(MaterialCallbacks.input_disconnected(&node_inputs, 2).len(), 1);
    assert!(MaterialCallbacks.input_disconnected(&node_inputs, 7).is_empty());
}

#[test]
fn templates_labels_and_layout() {
    let all = AllNodeTemplates.all_kinds();
    assert_eq!(all.len(), 10);
    assert_eq!(all[0], NodeTemplate::Axis);
    assert_eq!(NodeTemplate::ProceduralTexture.node_finder_label(), "procedural texture");
    assert_eq!(NodeTemplate::RayMarcher.node_graph_label(), "ray marcher");
    assert_eq!(NodeTemplate::Scene.user_data().template, NodeTemplate::Scene);
    assert!(NodeTemplate::Axis.input_connected().is_empty());
    assert!(NodeTemplate::Axis.input_disconnected().is_empty());

    let axis = NodeTemplate::Axis.inputs();
    let names: Vec<&str> = axis.iter().map(|l| l.name).collect();
    assert_eq!(names, vec!["axis", "translate", "rotate", "uniform_scale"]);
    assert_eq!(axis[0].kind, NodeValueKind::Mat4);
    assert_eq!(axis[0].param_kind, InputParamKind::ConnectionOrConstant);
    assert_eq!(axis[0].tooltip, "The parent axis.");
    assert_eq!(
        axis[3].tooltip,
        "The uniform scale of this axis.\n\nWe use uniform scale because the signed distance\nfields cannot have their individual axes scaled."
    );
    assert_eq!(NodeTemplate::Axis.outputs(), vec![("out", NodeValueKind::Mat4)]);
    assert_eq!(NodeTemplate::Texture.outputs(), vec![("out", NodeValueKind::RenderPass)]);
    assert_eq!(NodeTemplate::Primitive.inputs().len(), 45);
    assert_eq!(NodeTemplate::Scene.inputs()[0].param_kind, InputParamKind::ConnectionOnly);
    assert!(NodeTemplate::Light.inputs().iter().any(|l| l.name == "direction" && l.hidden));
}

#[test]
fn data_type_names_and_colours() {
    assert_eq!(NodeDataType::Mat4.name(), "4x4 matrix");
    assert_eq!(NodeDataType::ProceduralTexture.name(), "procedural texture");
    assert_eq!(NodeDataType::Mat4.data_type_color(), (18, 184, 196));
    assert_eq!(NodeDataType::Float.data_type_color(), (255, 255, 255));
    assert_eq!(NodeDataType::Scene.data_type_color(), (153, 0, 77));
}

#[test]
fn inputs_hold_their_values() {
    let integer = Integer::new(7);
    assert_eq!(*integer.value(), 7);
    assert_eq!(integer.range(), &(-10..=10));
    let integer = integer.with_range(0..=3).with_ui_data(UIData::default().with_tooltip("n"));
    assert_eq!(integer.range(), &(0..=3));
    assert_eq!(integer.ui_data().tooltip().as_deref(), Some("n"));
    assert_eq!(*Integer::default().value(), 0);

    let mut path = Filepath::new(Some("assets/a.png"));
    assert_eq!(path.value(), "assets/a.png");
    path.edit("b.png".to_string());
    assert_eq!(path.value(), "b.png");
    assert_eq!(Filepath::new(None).value(), "");
    assert_eq!(Filepath::default().value(), "");

    let mut material = Material::new();
    assert!(!material.connected());
    material.connect();
    assert!(material.connected());
    material.toggle_connected();
    assert!(!material.connected());
    material.toggle_connected();
    assert!(material.connected());
    material.disconnect();
    assert!(!material.connected());
}

#[test]
fn no_two_inputs_of_a_node_share_a_name() {
    for template in AllNodeTemplates.all_kinds() {
        let names: Vec<&str> = template.inputs().iter().map(|l| l.name).collect();
        for (i, a) in names.iter().enumerate() {
            assert!(!names[i + 1..].contains(a), "{a}");
        }
    }
}

#[test]
fn light_callback_twice_is_once() {
    let mut inputs = node_inputs(NodeTemplate::Light, "Directional");
    LightCallbacks.input_value_changed(&mut inputs, "light_type");
    let once: Vec<bool> = inputs.iter().map(|i| *i.ui_data.hidden()).collect();
    LightCallbacks.input_value_changed(&mut inputs, "light_type");
    let twice: Vec<bool> = inputs.iter().map(|i| *i.ui_data.hidden()).collect();
    assert_eq!(once, twice);
}

#[test]
fn every_callback_name_is_an_input_of_its_node() {
    let primitive = NodeTemplate::Primitive.inputs();
    let mut names = PrimitiveCallbacks::shape_parameter_names();
    names.extend([
        "negative_repetitions",
        "positive_repetitions",
        "spacing",
        "wall_thickness",
        "elongation",
        "blend_type",
        "blend_strength",
    ]);
    for name in names {
        assert!(
            primitive.iter().any(|l| l.name == name && l.kind.toggles_visibility()),
            "{name}"
        );
    }
    let light = NodeTemplate::Light.inputs();
    for name in ["direction", "iterations", "position"] {
        assert!(light.iter().any(|l| l.name == name && l.kind.toggles_visibility()));
    }
}

#[test]
fn changed_widget_reports_its_input() {
    let responses = value_widget_responses(true, 42, NodeTemplate::Light, "intensity");
    assert_eq!(responses.len(), 1);
    assert!(matches!(
        &responses[0],
        NodeGraphResponse::InputValueChanged(42, NodeTemplate::Light, name) if name == "intensity"
    ));
    assert!(value_widget_responses(false, 42, NodeTemplate::Light, "intensity").is_empty());
}

#[test]
fn new_primitive_shows_its_fourteen_visible_inputs() {
    let visible: Vec<&str> = NodeTemplate::Primitive
        .inputs()
        .iter()
        .filter(|l| !l.hidden)
        .map(|l| l.name)
        .collect();
    assert_eq!(
        visible,
        vec![
            "siblings",
            "children",
            "material",
            "shape",
            "radius",
            "world_matrix",
            "edge_radius",
            "repetition",
            "bounding_volume",
            "blend_type",
            "blend_strength",
            "mirror",
            "hollow",
            "elongate",
        ]
    );
    assert_eq!(NodeTemplate::Primitive.outputs(), vec![("out", NodeValueKind::Primitive)]);
}

#[test]
fn inputs_take_their_values_as_their_kinds_say() {
    for template in AllNodeTemplates.all_kinds() {
        for layout in template.inputs() {
            let expected = match layout.kind {
                NodeValueKind::Mat4 => InputParamKind::ConnectionOrConstant,
                NodeValueKind::Camera
                | NodeValueKind::Light
                | NodeValueKind::Material
                | NodeValueKind::Primitive
                | NodeValueKind::ProceduralTexture
                | NodeValueKind::Scene
                | NodeValueKind::RenderPass => InputParamKind::ConnectionOnly,
                _ => InputParamKind::ConstantOnly,
            };
            assert_eq!(layout.param_kind, expected, "{}", layout.name);
        }
    }
}

#[test]
fn input_values_downcast_to_their_own_kind_only() {
    assert_eq!(InputValue::Bool(true).try_to_bool(), Ok(true));
    assert_eq!(InputValue::BVec3(true, false, true).try_to_bvec3(), Ok((true, false, true)));
    assert_eq!(InputValue::Integer(-4).try_to_int(), Ok(-4));
    assert_eq!(InputValue::UnsignedInteger(7).try_to_uint(), Ok(7));
    assert_eq!(InputValue::UVec2(1, 2).try_to_uvec2(), Ok((1, 2)));
    assert_eq!(InputValue::UVec3(1, 2, 3).try_to_uvec3(), Ok((1, 2, 3)));
    assert_eq!(
        InputValue::ComboBox("Sphere".to_string()).try_to_enum_name(),
        Ok("Sphere".to_string())
    );
    assert_eq!(
        InputValue::Filepath("a/b.png".to_string()).try_to_filepath(),
        Ok("a/b.png".to_string())
    );
    assert_eq!(
        InputValue::Integer(3).try_to_bool(),
        Err(InvalidCast { from: NodeValueKind::Integer, to: NodeValueKind::Bool })
    );
    assert_eq!(
        InputValue::Other(NodeValueKind::Float).try_to_uint(),
        Err(InvalidCast { from: NodeValueKind::Float, to: NodeValueKind::UnsignedInteger })
    );
    assert_eq!(
        InputValue::Bool(false).try_to_filepath(),
        Err(InvalidCast { from: NodeValueKind::Bool, to: NodeValueKind::Filepath })
    );
    assert_eq!(
        InputValue::UVec2(0, 0).try_to_enum_name(),
        Err(InvalidCast { from: NodeValueKind::UVec2, to: NodeValueKind::ComboBox })
    );
}
