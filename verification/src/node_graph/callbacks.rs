use vstd::prelude::*;

use super::value_type::{
    apply_visibility, lemma_find_input_is_first, lookup_input, names_of, spec_find_input,
    spec_hidden_after, spec_is_first_named, spec_visibility_applied, InputValue, NodeInput,
    VisibilityChanges,
};
use super::NodeGraphResponse;
use crate::text::str_eq;

verus! {

/// Names to hide and names to show, in the order the callbacks list them.
pub type NameLists = (Seq<Seq<char>>, Seq<Seq<char>>);

pub open spec fn no_names() -> NameLists {
    (Seq::empty(), Seq::empty())
}

/// The value of the first input called `name`, if there is one.
pub open spec fn spec_input_value(inputs: Seq<NodeInput>, name: Seq<char>) -> Option<InputValue> {
    match spec_find_input(inputs, name) {
        Some(i) => Some(inputs[i].value),
        None => None,
    }
}

/// The value of the first input called `name`, if there is one.
pub fn input_value<'a>(inputs: &'a Vec<NodeInput>, name: &str) -> (r: Option<&'a InputValue>)
    ensures
        match r {
            Some(v) => spec_input_value(inputs@, name@) == Some(*v),
            None => spec_input_value(inputs@, name@) is None,
        },
{
    match lookup_input(inputs, name) {
        Some(i) => Some(&inputs[i].value),
        None => None,
    }
}

fn changes_of(to_hide: Vec<&'static str>, to_show: Vec<&'static str>) -> (r: VisibilityChanges)
    ensures
        r.hide_names() == names_of(to_hide@),
        r.show_names() == names_of(to_show@),
{
    VisibilityChanges { to_hide, to_show }
}

// ---------------------------------------------------------------------------
// Light nodes

/// Which inputs of a light node are shown for the chosen light type: the
/// direction for a directional light, the position for a point light, the
/// iterations for ambient occlusion, none of them for any other light.
pub open spec fn spec_light_type_names(light_type: Seq<char>) -> NameLists {
    if light_type == "Directional"@ {
        (seq!["iterations"@, "position"@], seq!["direction"@])
    } else if light_type == "Point"@ {
        (seq!["direction"@, "iterations"@], seq!["position"@])
    } else if light_type == "AmbientOcclusion"@ {
        (seq!["direction"@, "position"@], seq!["iterations"@])
    } else {
        (seq!["direction"@, "iterations"@, "position"@], Seq::empty())
    }
}

/// The visibility changes of a light node after its input `input_name`
/// changed: only a change of the combo box `light_type` has any.
pub open spec fn spec_light_changes(inputs: Seq<NodeInput>, input_name: Seq<char>) -> NameLists {
    if input_name != "light_type"@ {
        no_names()
    } else {
        match spec_input_value(inputs, input_name) {
            Some(InputValue::ComboBox(light_type)) => spec_light_type_names(light_type@),
            _ => no_names(),
        }
    }
}

/// The callbacks of light nodes.
#[derive(Clone, Copy, Debug)]
pub struct LightCallbacks;

impl LightCallbacks {
    pub fn light_type_changes(light_type: &str) -> (r: VisibilityChanges)
        ensures
            (r.hide_names(), r.show_names()) == spec_light_type_names(light_type@),
    {
        let r = if str_eq(light_type, "Directional") {
            changes_of(vec!["iterations", "position"], vec!["direction"])
        } else if str_eq(light_type, "Point") {
            changes_of(vec!["direction", "iterations"], vec!["position"])
        } else if str_eq(light_type, "AmbientOcclusion") {
            changes_of(vec!["direction", "position"], vec!["iterations"])
        } else {
            changes_of(vec!["direction", "iterations", "position"], Vec::new())
        };
        assert((r.hide_names(), r.show_names()) =~~= spec_light_type_names(light_type@));
        r
    }

    /// Shows and hides the inputs of a light node after its input
    /// `input_name` changed; asks nothing of the graph.
    pub fn input_value_changed(&self, inputs: &mut Vec<NodeInput>, input_name: &str) -> (r: Vec<
        NodeGraphResponse,
    >)
        ensures
            r@.len() == 0,
            spec_visibility_applied(
                old(inputs)@,
                final(inputs)@,
                spec_light_changes(old(inputs)@, input_name@).0,
                spec_light_changes(old(inputs)@, input_name@).1,
            ),
    {
        let changes = if !str_eq(input_name, "light_type") {
            VisibilityChanges::none()
        } else {
            match input_value(inputs, input_name) {
                Some(InputValue::ComboBox(light_type)) => Self::light_type_changes(
                    light_type.as_str(),
                ),
                _ => VisibilityChanges::none(),
            }
        };
        apply_visibility(inputs, &changes);
        Vec::new()
    }
}

} // verus!

verus! {

// ---------------------------------------------------------------------------
// Procedural texture nodes

/// Adds the hue rotation angles to the shown names when the trap colour is
/// used, and to the hidden names when it is not.
pub open spec fn spec_with_trap_colour(lists: NameLists, use_trap_colour: bool) -> NameLists {
    if use_trap_colour {
        (lists.0, lists.1.push("hue_rotation_angles"@))
    } else {
        (lists.0.push("hue_rotation_angles"@), lists.1)
    }
}

pub open spec fn spec_grade_names() -> Seq<Seq<char>> {
    seq!["black_point"@, "white_point"@, "lift"@, "gain"@, "gamma"@, "invert"@, "use_trap_colour"@]
}

pub open spec fn spec_noise_only_names() -> Seq<Seq<char>> {
    seq![
        "octaves"@,
        "lacunarity"@,
        "amplitude_gain"@,
        "low_frequency_scale"@,
        "high_frequency_scale"@,
        "low_frequency_translation"@,
        "high_frequency_translation"@,
    ]
}

pub open spec fn spec_noise_names() -> Seq<Seq<char>> {
    seq![
        "scale"@,
        "black_point"@,
        "white_point"@,
        "lift"@,
        "gain"@,
        "octaves"@,
        "lacunarity"@,
        "amplitude_gain"@,
        "gamma"@,
        "low_frequency_scale"@,
        "high_frequency_scale"@,
        "low_frequency_translation"@,
        "high_frequency_translation"@,
        "invert"@,
        "use_trap_colour"@,
    ]
}

pub open spec fn spec_all_texture_names() -> Seq<Seq<char>> {
    seq![
        "scale"@,
        "black_point"@,
        "white_point"@,
        "lift"@,
        "gain"@,
        "octaves"@,
        "lacunarity"@,
        "amplitude_gain"@,
        "gamma"@,
        "low_frequency_scale"@,
        "high_frequency_scale"@,
        "low_frequency_translation"@,
        "high_frequency_translation"@,
        "invert"@,
    ]
}

/// Which inputs of a procedural texture node are shown for the chosen
/// texture type: the grading inputs for a grade, with the scale for a
/// checkerboard, every input for the noises, only the trap colour switch
/// for any other type. The hue rotation angles follow the trap colour.
pub open spec fn spec_texture_type_names(texture_type: Seq<char>, use_trap_colour: bool) -> NameLists {
    if texture_type == "Grade"@ {
        let l = spec_with_trap_colour((Seq::empty(), spec_grade_names()), use_trap_colour);
        (l.0 + seq!["scale"@] + spec_noise_only_names(), l.1)
    } else if texture_type == "Checkerboard"@ {
        let l = spec_with_trap_colour(
            (Seq::empty(), seq!["scale"@] + spec_grade_names()),
            use_trap_colour,
        );
        (l.0 + spec_noise_only_names(), l.1)
    } else if texture_type == "FBMNoise"@ || texture_type == "TurbulenceNoise"@ {
        spec_with_trap_colour((Seq::empty(), spec_noise_names()), use_trap_colour)
    } else {
        spec_with_trap_colour((spec_all_texture_names(), seq!["use_trap_colour"@]), use_trap_colour)
    }
}

/// Whether the node's input `use_trap_colour` is a set boolean.
pub open spec fn spec_uses_trap_colour(inputs: Seq<NodeInput>) -> bool {
    match spec_input_value(inputs, "use_trap_colour"@) {
        Some(InputValue::Bool(b)) => b,
        _ => false,
    }
}

/// The visibility changes of a procedural texture node after its input
/// `input_name` changed: only the combo box `texture_type` and the boolean
/// `use_trap_colour` have any.
pub open spec fn spec_texture_changes(inputs: Seq<NodeInput>, input_name: Seq<char>) -> NameLists {
    if input_name == "texture_type"@ {
        match spec_input_value(inputs, input_name) {
            Some(InputValue::ComboBox(texture_type)) => spec_texture_type_names(
                texture_type@,
                spec_uses_trap_colour(inputs),
            ),
            _ => no_names(),
        }
    } else if input_name == "use_trap_colour"@ {
        match spec_input_value(inputs, input_name) {
            Some(InputValue::Bool(b)) => spec_with_trap_colour(no_names(), b),
            _ => no_names(),
        }
    } else {
        no_names()
    }
}

/// The callbacks of procedural texture nodes.
#[derive(Clone, Copy, Debug)]
pub struct ProceduralTextureCallbacks;

impl ProceduralTextureCallbacks {
    /// Whether the node's input `use_trap_colour` is a set boolean.
    pub fn use_trap_colour(inputs: &Vec<NodeInput>) -> (r: bool)
        ensures
            r == spec_uses_trap_colour(inputs@),
    {
        match input_value(inputs, "use_trap_colour") {
            Some(InputValue::Bool(b)) => *b,
            _ => false,
        }
    }

    fn push_trap_colour(changes: &mut VisibilityChanges, use_trap_colour: bool)
        ensures
            (final(changes).hide_names(), final(changes).show_names()) == spec_with_trap_colour(
                (old(changes).hide_names(), old(changes).show_names()),
                use_trap_colour,
            ),
    {
        if use_trap_colour {
            changes.to_show.push("hue_rotation_angles");
        } else {
            changes.to_hide.push("hue_rotation_angles");
        }
        assert(final(changes).hide_names() =~= spec_with_trap_colour(
            (old(changes).hide_names(), old(changes).show_names()),
            use_trap_colour,
        ).0);
        assert(final(changes).show_names() =~= spec_with_trap_colour(
            (old(changes).hide_names(), old(changes).show_names()),
            use_trap_colour,
        ).1);
    }

    pub fn texture_type_changes(texture_type: &str, use_trap_colour: bool) -> (r: VisibilityChanges)
        ensures
            (r.hide_names(), r.show_names()) == spec_texture_type_names(
                texture_type@,
                use_trap_colour,
            ),
    {
        if str_eq(texture_type, "Grade") {
            let mut c = changes_of(
                Vec::new(),
                vec!["black_point", "white_point", "lift", "gain", "gamma", "invert", "use_trap_colour"],
            );
            assert(c.show_names() =~= spec_grade_names());
            Self::push_trap_colour(&mut c, use_trap_colour);
            let ghost h = c.hide_names();
            c.to_hide.push("scale");
            c.to_hide.push("octaves");
            c.to_hide.push("lacunarity");
            c.to_hide.push("amplitude_gain");
            c.to_hide.push("low_frequency_scale");
            c.to_hide.push("high_frequency_scale");
            c.to_hide.push("low_frequency_translation");
            c.to_hide.push("high_frequency_translation");
            assert(c.hide_names() =~= h + seq!["scale"@] + spec_noise_only_names());
            c
        } else if str_eq(texture_type, "Checkerboard") {
            let mut c = changes_of(
                Vec::new(),
                vec![
                    "scale",
                    "black_point",
                    "white_point",
                    "lift",
                    "gain",
                    "gamma",
                    "invert",
                    "use_trap_colour",
                ],
            );
            assert(c.show_names() =~= seq!["scale"@] + spec_grade_names());
            Self::push_trap_colour(&mut c, use_trap_colour);
            let ghost h = c.hide_names();
            c.to_hide.push("octaves");
            c.to_hide.push("lacunarity");
            c.to_hide.push("amplitude_gain");
            c.to_hide.push("low_frequency_scale");
            c.to_hide.push("high_frequency_scale");
            c.to_hide.push("low_frequency_translation");
            c.to_hide.push("high_frequency_translation");
            assert(c.hide_names() =~= h + spec_noise_only_names());
            c
        } else if str_eq(texture_type, "FBMNoise") || str_eq(texture_type, "TurbulenceNoise") {
            let mut c = changes_of(
                Vec::new(),
                vec![
                    "scale",
                    "black_point",
                    "white_point",
                    "lift",
                    "gain",
                    "octaves",
                    "lacunarity",
                    "amplitude_gain",
                    "gamma",
                    "low_frequency_scale",
                    "high_frequency_scale",
                    "low_frequency_translation",
                    "high_frequency_translation",
                    "invert",
                    "use_trap_colour",
                ],
            );
            assert(c.show_names() =~= spec_noise_names());
            assert(c.hide_names() =~= Seq::<Seq<char>>::empty());
            Self::push_trap_colour(&mut c, use_trap_colour);
            c
        } else {
            let mut c = changes_of(
                vec![
                    "scale",
                    "black_point",
                    "white_point",
                    "lift",
                    "gain",
                    "octaves",
                    "lacunarity",
                    "amplitude_gain",
                    "gamma",
                    "low_frequency_scale",
                    "high_frequency_scale",
                    "low_frequency_translation",
                    "high_frequency_translation",
                    "invert",
                ],
                vec!["use_trap_colour"],
            );
            assert(c.hide_names() =~= spec_all_texture_names());
            assert(c.show_names() =~= seq!["use_trap_colour"@]);
            Self::push_trap_colour(&mut c, use_trap_colour);
            c
        }
    }

    /// Shows and hides the inputs of a procedural texture node after its
    /// input `input_name` changed; asks nothing of the graph.
    pub fn input_value_changed(&self, inputs: &mut Vec<NodeInput>, input_name: &str) -> (r: Vec<
        NodeGraphResponse,
    >)
        ensures
            r@.len() == 0,
            spec_visibility_applied(
                old(inputs)@,
                final(inputs)@,
                spec_texture_changes(old(inputs)@, input_name@).0,
                spec_texture_changes(old(inputs)@, input_name@).1,
            ),
    {
        let changes = if str_eq(input_name, "texture_type") {
            match input_value(inputs, input_name) {
                Some(InputValue::ComboBox(texture_type)) => Self::texture_type_changes(
                    texture_type.as_str(),
                    Self::use_trap_colour(inputs),
                ),
                _ => VisibilityChanges::none(),
            }
        } else if str_eq(input_name, "use_trap_colour") {
            match input_value(inputs, input_name) {
                Some(InputValue::Bool(b)) => {
                    let mut c = VisibilityChanges::none();
                    Self::push_trap_colour(&mut c, *b);
                    c
                },
                _ => VisibilityChanges::none(),
            }
        } else {
            VisibilityChanges::none()
        };
        apply_visibility(inputs, &changes);
        Vec::new()
    }
}

} // verus!

verus! {

// ---------------------------------------------------------------------------
// Primitive nodes

/// Every input that describes the dimensions of some shape.
pub open spec fn spec_shape_parameter_names() -> Seq<Seq<char>> {
    seq![
        "radius"@,
        "radii"@,
        "height"@,
        "thickness"@,
        "hollow_radius"@,
        "hollow_height"@,
        "solid_angle"@,
        "width"@,
        "depth"@,
        "corner_radius"@,
        "base"@,
        "normal"@,
        "negative_height"@,
        "positive_height"@,
        "angle"@,
        "lower_radius"@,
        "upper_radius"@,
        "ring_radius"@,
        "tube_radius"@,
        "cap_angle"@,
        "radial_extent"@,
        "power"@,
        "iterations"@,
        "max_square_radius"@,
        "scale"@,
        "min_square_radius"@,
        "folding_limit"@,
    ]
}

/// The inputs that describe the dimensions of the chosen shape.
pub open spec fn spec_shape_names(shape: Seq<char>) -> Seq<Seq<char>> {
    if shape == "CappedCone"@ || shape == "RoundedCone"@ {
        seq!["height"@, "lower_radius"@, "upper_radius"@]
    } else if shape == "CappedTorus"@ {
        seq!["ring_radius"@, "tube_radius"@, "cap_angle"@]
    } else if shape == "Capsule"@ {
        seq!["radius"@, "negative_height"@, "positive_height"@]
    } else if shape == "Cone"@ {
        seq!["angle"@, "height"@]
    } else if shape == "CutSphere"@ || shape == "Cylinder"@ {
        seq!["radius"@, "height"@]
    } else if shape == "DeathStar"@ {
        seq!["radius"@, "hollow_radius"@, "hollow_height"@]
    } else if shape == "Ellipsoid"@ {
        seq!["radii"@]
    } else if shape == "HexagonalPrism"@ {
        seq!["height"@, "depth"@]
    } else if shape == "HollowSphere"@ {
        seq!["radius"@, "height"@, "thickness"@]
    } else if shape == "InfiniteCone"@ {
        seq!["angle"@]
    } else if shape == "InfiniteCylinder"@ {
        seq!["radius"@]
    } else if shape == "Link"@ {
        seq!["ring_radius"@, "tube_radius"@, "height"@]
    } else if shape == "Mandelbox"@ {
        seq!["scale"@, "iterations"@, "min_square_radius"@, "folding_limit"@]
    } else if shape == "Mandelbulb"@ {
        seq!["power"@, "iterations"@, "max_square_radius"@]
    } else if shape == "Octahedron"@ {
        seq!["radial_extent"@]
    } else if shape == "Plane"@ {
        seq!["normal"@]
    } else if shape == "RectangularPrism"@ {
        seq!["width"@, "height"@, "depth"@]
    } else if shape == "RectangularPrismFrame"@ {
        seq!["width"@, "height"@, "depth"@, "thickness"@]
    } else if shape == "Rhombus"@ {
        seq!["width"@, "height"@, "depth"@, "corner_radius"@]
    } else if shape == "SolidAngle"@ {
        seq!["radius"@, "solid_angle"@]
    } else if shape == "Sphere"@ {
        seq!["radius"@]
    } else if shape == "Torus"@ {
        seq!["ring_radius"@, "tube_radius"@]
    } else if shape == "TriangularPrism"@ {
        seq!["base"@, "depth"@]
    } else {
        Seq::empty()
    }
}

/// The inputs of the repetition type: both counts and the spacing for a
/// finite repetition, only the spacing for an infinite one, none otherwise.
pub open spec fn spec_repetition_names(repetition: Seq<char>) -> NameLists {
    if repetition == "Finite"@ {
        (Seq::empty(), seq!["negative_repetitions"@, "positive_repetitions"@, "spacing"@])
    } else if repetition == "Infinite"@ {
        (seq!["negative_repetitions"@, "positive_repetitions"@], seq!["spacing"@])
    } else {
        (seq!["negative_repetitions"@, "positive_repetitions"@, "spacing"@], Seq::empty())
    }
}

/// Shows the `names` when `on` holds and hides them otherwise.
pub open spec fn spec_switch_names(on: bool, names: Seq<Seq<char>>) -> NameLists {
    if on {
        (Seq::empty(), names)
    } else {
        (names, Seq::empty())
    }
}

/// The inputs of a primitive node that change visibility when `input_name`
/// changes. A change of the shape hides every dimension input and shows
/// those of the chosen shape; the boolean `hollow` switches the wall
/// thickness, `elongate` the elongation, and a bounding volume hides the
/// blending inputs.
pub open spec fn spec_primitive_changes(inputs: Seq<NodeInput>, input_name: Seq<char>) -> NameLists {
    let value = spec_input_value(inputs, input_name);
    if input_name == "shape"@ {
        match value {
            Some(InputValue::ComboBox(shape)) => (
                spec_shape_parameter_names(),
                spec_shape_names(shape@),
            ),
            Some(_) => (spec_shape_parameter_names(), Seq::empty()),
            None => no_names(),
        }
    } else if input_name == "repetition"@ {
        match value {
            Some(InputValue::ComboBox(repetition)) => spec_repetition_names(repetition@),
            _ => no_names(),
        }
    } else if input_name == "hollow"@ {
        match value {
            Some(InputValue::Bool(b)) => spec_switch_names(b, seq!["wall_thickness"@]),
            _ => no_names(),
        }
    } else if input_name == "elongate"@ {
        match value {
            Some(InputValue::Bool(b)) => spec_switch_names(b, seq!["elongation"@]),
            _ => no_names(),
        }
    } else if input_name == "bounding_volume"@ {
        match value {
            Some(InputValue::Bool(b)) => spec_switch_names(
                !b,
                seq!["blend_type"@, "blend_strength"@],
            ),
            _ => no_names(),
        }
    } else {
        no_names()
    }
}

/// The callbacks of primitive nodes.
#[derive(Clone, Copy, Debug)]
pub struct PrimitiveCallbacks;

impl PrimitiveCallbacks {
    pub fn shape_names(shape: &str) -> (r: Vec<&'static str>)
        ensures
            names_of(r@) == spec_shape_names(shape@),
    {
        let r: Vec<&'static str> = if str_eq(shape, "CappedCone") || str_eq(shape, "RoundedCone") {
            vec!["height", "lower_radius", "upper_radius"]
        } else if str_eq(shape, "CappedTorus") {
            vec!["ring_radius", "tube_radius", "cap_angle"]
        } else if str_eq(shape, "Capsule") {
            vec!["radius", "negative_height", "positive_height"]
        } else if str_eq(shape, "Cone") {
            vec!["angle", "height"]
        } else if str_eq(shape, "CutSphere") || str_eq(shape, "Cylinder") {
            vec!["radius", "height"]
        } else if str_eq(shape, "DeathStar") {
            vec!["radius", "hollow_radius", "hollow_height"]
        } else if str_eq(shape, "Ellipsoid") {
            vec!["radii"]
        } else if str_eq(shape, "HexagonalPrism") {
            vec!["height", "depth"]
        } else if str_eq(shape, "HollowSphere") {
            vec!["radius", "height", "thickness"]
        } else if str_eq(shape, "InfiniteCone") {
            vec!["angle"]
        } else if str_eq(shape, "InfiniteCylinder") {
            vec!["radius"]
        } else if str_eq(shape, "Link") {
            vec!["ring_radius", "tube_radius", "height"]
        } else if str_eq(shape, "Mandelbox") {
            vec!["scale", "iterations", "min_square_radius", "folding_limit"]
        } else if str_eq(shape, "Mandelbulb") {
            vec!["power", "iterations", "max_square_radius"]
        } else if str_eq(shape, "Octahedron") {
            vec!["radial_extent"]
        } else if str_eq(shape, "Plane") {
            vec!["normal"]
        } else if str_eq(shape, "RectangularPrism") {
            vec!["width", "height", "depth"]
        } else if str_eq(shape, "RectangularPrismFrame") {
            vec!["width", "height", "depth", "thickness"]
        } else if str_eq(shape, "Rhombus") {
            vec!["width", "height", "depth", "corner_radius"]
        } else if str_eq(shape, "SolidAngle") {
            vec!["radius", "solid_angle"]
        } else if str_eq(shape, "Sphere") {
            vec!["radius"]
        } else if str_eq(shape, "Torus") {
            vec!["ring_radius", "tube_radius"]
        } else if str_eq(shape, "TriangularPrism") {
            vec!["base", "depth"]
        } else {
            Vec::new()
        };
        assert(names_of(r@) =~= spec_shape_names(shape@));
        r
    }

    pub fn shape_parameter_names() -> (r: Vec<&'static str>)
        ensures
            names_of(r@) == spec_shape_parameter_names(),
    {
        let r = vec![
            "radius",
            "radii",
            "height",
            "thickness",
            "hollow_radius",
            "hollow_height",
            "solid_angle",
            "width",
            "depth",
            "corner_radius",
            "base",
            "normal",
            "negative_height",
            "positive_height",
            "angle",
            "lower_radius",
            "upper_radius",
            "ring_radius",
            "tube_radius",
            "cap_angle",
            "radial_extent",
            "power",
            "iterations",
            "max_square_radius",
            "scale",
            "min_square_radius",
            "folding_limit",
        ];
        assert(names_of(r@) =~= spec_shape_parameter_names());
        r
    }

    pub fn repetition_changes(repetition: &str) -> (r: VisibilityChanges)
        ensures
            (r.hide_names(), r.show_names()) == spec_repetition_names(repetition@),
    {
        let r = if str_eq(repetition, "Finite") {
            changes_of(Vec::new(), vec!["negative_repetitions", "positive_repetitions", "spacing"])
        } else if str_eq(repetition, "Infinite") {
            changes_of(vec!["negative_repetitions", "positive_repetitions"], vec!["spacing"])
        } else {
            changes_of(vec!["negative_repetitions", "positive_repetitions", "spacing"], Vec::new())
        };
        assert((r.hide_names(), r.show_names()) =~~= spec_repetition_names(repetition@));
        r
    }

    fn switch_changes(on: bool, names: Vec<&'static str>) -> (r: VisibilityChanges)
        ensures
            (r.hide_names(), r.show_names()) == spec_switch_names(on, names_of(names@)),
    {
        let r = if on {
            changes_of(Vec::new(), names)
        } else {
            changes_of(names, Vec::new())
        };
        assert((r.hide_names(), r.show_names()) =~~= spec_switch_names(on, names_of(names@)));
        r
    }

    /// Shows and hides the inputs of a primitive node after its input
    /// `input_name` changed; asks nothing of the graph.
    pub fn input_value_changed(&self, inputs: &mut Vec<NodeInput>, input_name: &str) -> (r: Vec<
        NodeGraphResponse,
    >)
        ensures
            r@.len() == 0,
            spec_visibility_applied(
                old(inputs)@,
                final(inputs)@,
                spec_primitive_changes(old(inputs)@, input_name@).0,
                spec_primitive_changes(old(inputs)@, input_name@).1,
            ),
    {
        let changes = if str_eq(input_name, "shape") {
            match input_value(inputs, input_name) {
                Some(InputValue::ComboBox(shape)) => changes_of(
                    Self::shape_parameter_names(),
                    Self::shape_names(shape.as_str()),
                ),
                Some(_) => {
                    let c = changes_of(Self::shape_parameter_names(), Vec::new());
                    assert(c.show_names() =~= Seq::<Seq<char>>::empty());
                    c
                },
                None => VisibilityChanges::none(),
            }
        } else if str_eq(input_name, "repetition") {
            match input_value(inputs, input_name) {
                Some(InputValue::ComboBox(repetition)) => Self::repetition_changes(
                    repetition.as_str(),
                ),
                _ => VisibilityChanges::none(),
            }
        } else if str_eq(input_name, "hollow") {
            match input_value(inputs, input_name) {
                Some(InputValue::Bool(b)) => {
                    let names: Vec<&'static str> = vec!["wall_thickness"];
                    assert(names_of(names@) =~= seq!["wall_thickness"@]);
                    Self::switch_changes(*b, names)
                },
                _ => VisibilityChanges::none(),
            }
        } else if str_eq(input_name, "elongate") {
            match input_value(inputs, input_name) {
                Some(InputValue::Bool(b)) => {
                    let names: Vec<&'static str> = vec!["elongation"];
                    assert(names_of(names@) =~= seq!["elongation"@]);
                    Self::switch_changes(*b, names)
                },
                _ => VisibilityChanges::none(),
            }
        } else if str_eq(input_name, "bounding_volume") {
            match input_value(inputs, input_name) {
                Some(InputValue::Bool(b)) => {
                    let names: Vec<&'static str> = vec!["blend_type", "blend_strength"];
                    assert(names_of(names@) =~= seq!["blend_type"@, "blend_strength"@]);
                    Self::switch_changes(!*b, names)
                },
                _ => VisibilityChanges::none(),
            }
        } else {
            VisibilityChanges::none()
        };
        apply_visibility(inputs, &changes);
        Vec::new()
    }
}

} // verus!

verus! {

// ---------------------------------------------------------------------------
// Material nodes

/// The name of the first of a node's `(name, id)` inputs with the id
/// `input_id`; empty when there is none.
pub open spec fn spec_input_name_of(node_inputs: Seq<(String, u64)>, input_id: u64) -> Seq<char> {
    if exists|i: int| 0 <= i < node_inputs.len() && #[trigger] node_inputs[i].1 == input_id {
        let i = choose|i: int|
            0 <= i < node_inputs.len() && #[trigger] node_inputs[i].1 == input_id && forall|j: int|
                0 <= j < i ==> node_inputs[j].1 != input_id;
        node_inputs[i].0@
    } else {
        Seq::empty()
    }
}

/// The name of the first of a node's `(name, id)` inputs with the id
/// `input_id`; empty when there is none.
pub fn input_name_of(node_inputs: &Vec<(String, u64)>, input_id: u64) -> (r: String)
    ensures
        r@ == spec_input_name_of(node_inputs@, input_id),
{
    let mut i: usize = 0;
    while i < node_inputs.len()
        invariant
            i <= node_inputs.len(),
            forall|j: int| 0 <= j < i ==> node_inputs@[j].1 != input_id,
        decreases node_inputs.len() - i,
    {
        if node_inputs[i].1 == input_id {
            let ghost c = choose|c: int|
                0 <= c < node_inputs@.len() && #[trigger] node_inputs@[c].1 == input_id && forall|
                    j: int,
                | 0 <= j < c ==> node_inputs@[j].1 != input_id;
            proof {
                assert(node_inputs@[i as int].1 == input_id);
                if c < i {
                    assert(node_inputs@[c].1 != input_id);
                } else if c > i {
                    assert(node_inputs@[i as int].1 != input_id);
                }
            }
            return node_inputs[i].0.clone();
        }
        i = i + 1;
    }
    String::new()
}

/// A texture input (one whose name ends in `_texture`) may change the
/// shader preprocessor directives when it is connected or disconnected.
pub open spec fn spec_texture_input_responses(input_name: Seq<char>) -> Seq<NodeGraphResponse> {
    if crate::text::spec_ends_with(input_name, "_texture"@) {
        seq![NodeGraphResponse::CheckPreprocessorDirectives]
    } else {
        Seq::empty()
    }
}

/// The callbacks of material nodes.
#[derive(Clone, Copy, Debug)]
pub struct MaterialCallbacks;

impl MaterialCallbacks {
    /// Connecting a texture input (one whose name ends in `_texture`) may
    /// change the shader preprocessor directives; no other input does. The
    /// input is found by its id among the node's `(name, id)` inputs.
    pub fn input_connected(&self, node_inputs: &Vec<(String, u64)>, input_id: u64) -> (r: Vec<
        NodeGraphResponse,
    >)
        ensures
            r@ == spec_texture_input_responses(spec_input_name_of(node_inputs@, input_id)),
    {
        let input_name = input_name_of(node_inputs, input_id);
        if !crate::text::ends_with(input_name.as_str(), "_texture") {
            return Vec::new();
        }
        let r = vec![NodeGraphResponse::CheckPreprocessorDirectives];
        assert(r@ =~= seq![NodeGraphResponse::CheckPreprocessorDirectives]);
        r
    }

    /// Disconnecting an input answers as connecting it does.
    pub fn input_disconnected(&self, node_inputs: &Vec<(String, u64)>, input_id: u64) -> (r: Vec<
        NodeGraphResponse,
    >)
        ensures
            r@ == spec_texture_input_responses(spec_input_name_of(node_inputs@, input_id)),
    {
        self.input_connected(node_inputs, input_id)
    }
}

} // verus!

verus! {

// ---------------------------------------------------------------------------
// Laws of the visibility callbacks

/// An input that no list names keeps its visibility.
pub proof fn lemma_unnamed_input_keeps_visibility(
    before: Seq<NodeInput>,
    after: Seq<NodeInput>,
    to_hide: Seq<Seq<char>>,
    to_show: Seq<Seq<char>>,
    k: int,
)
    requires
        spec_visibility_applied(before, after, to_hide, to_show),
        0 <= k < before.len(),
        !to_hide.contains(before[k].name@),
        !to_show.contains(before[k].name@),
    ensures
        after[k].ui_data.spec_hidden() == before[k].ui_data.spec_hidden(),
{
    assert(after[k].ui_data.spec_hidden() == spec_hidden_after(before, k, to_hide, to_show));
}

/// After the shape of a primitive changes, a dimension input is shown
/// exactly when the chosen shape has it.
pub proof fn lemma_shape_change_shows_its_parameters(
    before: Seq<NodeInput>,
    after: Seq<NodeInput>,
    shape: String,
    k: int,
)
    requires
        spec_input_value(before, "shape"@) == Some(InputValue::ComboBox(shape)),
        spec_visibility_applied(
            before,
            after,
            spec_primitive_changes(before, "shape"@).0,
            spec_primitive_changes(before, "shape"@).1,
        ),
        0 <= k < before.len(),
        spec_is_first_named(before, k),
        before[k].value.spec_kind().spec_toggles_visibility(),
        spec_shape_parameter_names().contains(before[k].name@),
    ensures
        after[k].ui_data.spec_hidden() == !spec_shape_names(shape@).contains(before[k].name@),
{
    assert(spec_primitive_changes(before, "shape"@) == (
        spec_shape_parameter_names(),
        spec_shape_names(shape@),
    ));
    assert(after[k].ui_data.spec_hidden() == spec_hidden_after(
        before,
        k,
        spec_shape_parameter_names(),
        spec_shape_names(shape@),
    ));
}

/// After the type of a light changes, its direction, position and
/// iteration inputs are shown exactly when the chosen type uses them.
pub proof fn lemma_light_type_shows_its_inputs(
    before: Seq<NodeInput>,
    after: Seq<NodeInput>,
    light_type: String,
    k: int,
)
    requires
        spec_input_value(before, "light_type"@) == Some(InputValue::ComboBox(light_type)),
        spec_visibility_applied(
            before,
            after,
            spec_light_changes(before, "light_type"@).0,
            spec_light_changes(before, "light_type"@).1,
        ),
        0 <= k < before.len(),
        spec_is_first_named(before, k),
        before[k].value.spec_kind().spec_toggles_visibility(),
        seq!["direction"@, "iterations"@, "position"@].contains(before[k].name@),
    ensures
        after[k].ui_data.spec_hidden() == !spec_light_type_names(light_type@).1.contains(
            before[k].name@,
        ),
{
    reveal_strlit("direction");
    reveal_strlit("iterations");
    reveal_strlit("position");
    let names = spec_light_type_names(light_type@);
    let n = before[k].name@;
    assert(spec_light_changes(before, "light_type"@) == names);
    assert(after[k].ui_data.spec_hidden() == spec_hidden_after(before, k, names.0, names.1));
    assert(names.0.contains(n) || names.1.contains(n)) by {
        let i = choose|i: int|
            0 <= i < 3 && seq!["direction"@, "iterations"@, "position"@][i] == n;
        if i == 0 {
            assert(n == "direction"@);
        } else if i == 1 {
            assert(n == "iterations"@);
        } else {
            assert(n == "position"@);
        }
        if names.1.len() > 0 {
            assert(names.1[0] == names.1[0]);
        }
        assert(names.0.len() > 0 ==> names.0[0] == names.0[0]);
        assert(names.0.len() > 1 ==> names.0[1] == names.0[1]);
        assert(names.0.len() > 2 ==> names.0[2] == names.0[2]);
    }
}

proof fn lemma_first_named_exists(inputs: Seq<NodeInput>, name: Seq<char>, i: int)
    requires
        0 <= i < inputs.len(),
        inputs[i].name@ == name,
    ensures
        exists|f: int|
            0 <= f <= i && #[trigger] inputs[f].name@ == name && forall|j: int|
                0 <= j < f ==> inputs[j].name@ != name,
    decreases i,
{
    if exists|j: int| 0 <= j < i && #[trigger] inputs[j].name@ == name {
        let j = choose|j: int| 0 <= j < i && #[trigger] inputs[j].name@ == name;
        lemma_first_named_exists(inputs, name, j);
    } else {
        assert(forall|j: int| 0 <= j < i ==> inputs[j].name@ != name);
    }
}

/// Inputs with the same names and values, in order, hold the same value
/// under any name.
proof fn lemma_same_values(a: Seq<NodeInput>, b: Seq<NodeInput>, name: Seq<char>)
    requires
        a.len() == b.len(),
        forall|k: int| 0 <= k < a.len() ==> (#[trigger] b[k]).name@ == a[k].name@ && b[k].value
            == a[k].value,
    ensures
        spec_input_value(b, name) == spec_input_value(a, name),
{
    if exists|i: int| 0 <= i < a.len() && #[trigger] a[i].name@ == name {
        let i = choose|i: int| 0 <= i < a.len() && #[trigger] a[i].name@ == name;
        lemma_first_named_exists(a, name, i);
        let f = choose|f: int|
            0 <= f <= i && #[trigger] a[f].name@ == name && forall|j: int|
                0 <= j < f ==> a[j].name@ != name;
        assert(spec_is_first_named(a, f));
        lemma_find_input_is_first(a, name, f);
        assert(b[f].name@ == name);
        assert forall|j: int| 0 <= j < f implies b[j].name@ != b[f].name@ by {
            assert(b[j].name@ == a[j].name@);
        }
        lemma_find_input_is_first(b, name, f);
    } else {
        assert forall|i: int| 0 <= i < b.len() implies b[i].name@ != name by {
            assert(b[i].name@ == a[i].name@);
        }
    }
}

proof fn lemma_apply_twice(
    before: Seq<NodeInput>,
    mid: Seq<NodeInput>,
    after: Seq<NodeInput>,
    to_hide: Seq<Seq<char>>,
    to_show: Seq<Seq<char>>,
)
    requires
        spec_visibility_applied(before, mid, to_hide, to_show),
        spec_visibility_applied(mid, after, to_hide, to_show),
    ensures
        forall|k: int|
            0 <= k < before.len() ==> (#[trigger] after[k]).ui_data.spec_hidden()
                == mid[k].ui_data.spec_hidden(),
{
    assert forall|k: int| 0 <= k < before.len() implies (#[trigger] after[k]).ui_data.spec_hidden()
        == mid[k].ui_data.spec_hidden() by {
        assert(after[k].ui_data.spec_hidden() == spec_hidden_after(mid, k, to_hide, to_show));
        assert(mid[k].ui_data.spec_hidden() == spec_hidden_after(before, k, to_hide, to_show));
        assert(spec_is_first_named(mid, k) == spec_is_first_named(before, k)) by {
            if spec_is_first_named(before, k) {
                assert forall|j: int| 0 <= j < k implies mid[j].name@ != mid[k].name@ by {
                    assert(mid[j].name@ == before[j].name@);
                }
            }
            if spec_is_first_named(mid, k) {
                assert forall|j: int| 0 <= j < k implies before[j].name@ != before[k].name@ by {
                    assert(mid[j].name@ == before[j].name@);
                }
            }
        }
    }
}

proof fn lemma_primitive_changes_follow_value(a: Seq<NodeInput>, b: Seq<NodeInput>, name: Seq<char>)
    requires
        spec_input_value(a, name) == spec_input_value(b, name),
    ensures
        spec_primitive_changes(a, name) == spec_primitive_changes(b, name),
{
}

/// Running a primitive's callback twice for the same input leaves every
/// input as running it once did.
pub proof fn lemma_primitive_callback_settles(
    before: Seq<NodeInput>,
    mid: Seq<NodeInput>,
    after: Seq<NodeInput>,
    input_name: Seq<char>,
)
    requires
        spec_visibility_applied(
            before,
            mid,
            spec_primitive_changes(before, input_name).0,
            spec_primitive_changes(before, input_name).1,
        ),
        spec_visibility_applied(
            mid,
            after,
            spec_primitive_changes(mid, input_name).0,
            spec_primitive_changes(mid, input_name).1,
        ),
    ensures
        after.len() == mid.len(),
        forall|k: int|
            0 <= k < mid.len() ==> (#[trigger] after[k]).ui_data.spec_hidden()
                == mid[k].ui_data.spec_hidden() && after[k].name@ == mid[k].name@
                && after[k].value == mid[k].value,
{
    lemma_same_values(before, mid, input_name);
    let lists = spec_primitive_changes(before, input_name);
    assert(spec_primitive_changes(mid, input_name) == lists) by {
        lemma_primitive_changes_follow_value(before, mid, input_name);
    }
    lemma_apply_twice(before, mid, after, lists.0, lists.1);
}

/// Running a light's callback twice for the same input leaves every input
/// as running it once did.
pub proof fn lemma_light_callback_settles(
    before: Seq<NodeInput>,
    mid: Seq<NodeInput>,
    after: Seq<NodeInput>,
    input_name: Seq<char>,
)
    requires
        spec_visibility_applied(
            before,
            mid,
            spec_light_changes(before, input_name).0,
            spec_light_changes(before, input_name).1,
        ),
        spec_visibility_applied(
            mid,
            after,
            spec_light_changes(mid, input_name).0,
            spec_light_changes(mid, input_name).1,
        ),
    ensures
        after.len() == mid.len(),
        forall|k: int|
            0 <= k < mid.len() ==> (#[trigger] after[k]).ui_data.spec_hidden()
                == mid[k].ui_data.spec_hidden() && after[k].name@ == mid[k].name@
                && after[k].value == mid[k].value,
{
    lemma_same_values(before, mid, input_name);
    assert(spec_light_changes(mid, input_name) == spec_light_changes(before, input_name));
    lemma_apply_twice(
        before,
        mid,
        after,
        spec_light_changes(before, input_name).0,
        spec_light_changes(before, input_name).1,
    );
}

/// The hue rotation angles of a procedural texture follow its trap colour
/// switch: shown when it is set, hidden when it is not.
pub proof fn lemma_hue_rotation_follows_trap_colour(
    before: Seq<NodeInput>,
    after: Seq<NodeInput>,
    use_trap_colour: bool,
    k: int,
)
    requires
        spec_input_value(before, "use_trap_colour"@) == Some(InputValue::Bool(use_trap_colour)),
        spec_visibility_applied(
            before,
            after,
            spec_texture_changes(before, "use_trap_colour"@).0,
            spec_texture_changes(before, "use_trap_colour"@).1,
        ),
        0 <= k < before.len(),
        spec_is_first_named(before, k),
        before[k].value.spec_kind().spec_toggles_visibility(),
        before[k].name@ == "hue_rotation_angles"@,
    ensures
        after[k].ui_data.spec_hidden() == !use_trap_colour,
{
    let lists = spec_with_trap_colour(no_names(), use_trap_colour);
    reveal_strlit("use_trap_colour");
    reveal_strlit("texture_type");
    assert("use_trap_colour"@.len() != "texture_type"@.len());
    assert(spec_texture_changes(before, "use_trap_colour"@) == lists);
    assert(after[k].ui_data.spec_hidden() == spec_hidden_after(before, k, lists.0, lists.1));
    if use_trap_colour {
        assert(lists.1[0] == "hue_rotation_angles"@);
    } else {
        assert(lists.0[0] == "hue_rotation_angles"@);
        assert(lists.1.len() == 0);
    }
}

} // verus!

verus! {

/// A checkerboard texture shows what a grade shows and its scale as well:
/// its scale and grading inputs are shown, its scale is never hidden, and
/// it hides only noise-only inputs (and the hue rotation angles when the
/// trap colour is off). A grade, which has no scale, hides it.
pub proof fn lemma_checkerboard_shows_scale_and_grading(use_trap_colour: bool)
    ensures
        spec_texture_type_names("Checkerboard"@, use_trap_colour).1 == seq!["scale"@]
            + spec_texture_type_names("Grade"@, use_trap_colour).1,
        spec_texture_type_names("Checkerboard"@, use_trap_colour).1.contains("scale"@),
        seq![
            "black_point"@,
            "white_point"@,
            "lift"@,
            "gain"@,
            "gamma"@,
            "invert"@,
            "use_trap_colour"@,
        ].to_set().subset_of(spec_texture_type_names("Checkerboard"@, use_trap_colour).1.to_set()),
        !spec_texture_type_names("Checkerboard"@, use_trap_colour).0.contains("scale"@),
        spec_texture_type_names("Grade"@, use_trap_colour).0.contains("scale"@),
        forall|n: Seq<char>| #[trigger]
            spec_texture_type_names("Checkerboard"@, use_trap_colour).0.contains(n) ==> seq![
                "octaves"@,
                "lacunarity"@,
                "amplitude_gain"@,
                "low_frequency_scale"@,
                "high_frequency_scale"@,
                "low_frequency_translation"@,
                "high_frequency_translation"@,
                "hue_rotation_angles"@,
            ].contains(n),
{
    reveal_strlit("Checkerboard");
    reveal_strlit("Grade");
    reveal_strlit("scale");
    reveal_strlit("octaves");
    reveal_strlit("lacunarity");
    reveal_strlit("amplitude_gain");
    reveal_strlit("low_frequency_scale");
    reveal_strlit("high_frequency_scale");
    reveal_strlit("low_frequency_translation");
    reveal_strlit("high_frequency_translation");
    reveal_strlit("hue_rotation_angles");
    assert("Checkerboard"@.len() != "Grade"@.len());
    let c = spec_texture_type_names("Checkerboard"@, use_trap_colour);
    let g = spec_texture_type_names("Grade"@, use_trap_colour);
    let grade = spec_grade_names();
    let noise = spec_noise_only_names();
    let hue = if use_trap_colour {
        Seq::<Seq<char>>::empty()
    } else {
        seq!["hue_rotation_angles"@]
    };
    let shown_hue = if use_trap_colour {
        seq!["hue_rotation_angles"@]
    } else {
        Seq::<Seq<char>>::empty()
    };
    assert(c.1 =~= seq!["scale"@] + grade + shown_hue);
    assert(g.1 =~= grade + shown_hue);
    assert(c.0 =~= hue + noise);
    assert(g.0 =~= hue + seq!["scale"@] + noise);
    assert(c.1[0] == "scale"@);
    assert(g.0[hue.len() as int] == "scale"@);
    assert forall|n: Seq<char>| seq![
        "black_point"@,
        "white_point"@,
        "lift"@,
        "gain"@,
        "gamma"@,
        "invert"@,
        "use_trap_colour"@,
    ].to_set().contains(n) implies c.1.to_set().contains(n) by {
        let k = choose|k: int| 0 <= k < 7 && grade[k] == n;
        assert(c.1[k + 1] == n);
    }
    assert forall|n: Seq<char>| c.0.contains(n) implies seq![
        "octaves"@,
        "lacunarity"@,
        "amplitude_gain"@,
        "low_frequency_scale"@,
        "high_frequency_scale"@,
        "low_frequency_translation"@,
        "high_frequency_translation"@,
        "hue_rotation_angles"@,
    ].contains(n) by {
        let k = choose|k: int| 0 <= k < c.0.len() && c.0[k] == n;
        let all = seq![
            "octaves"@,
            "lacunarity"@,
            "amplitude_gain"@,
            "low_frequency_scale"@,
            "high_frequency_scale"@,
            "low_frequency_translation"@,
            "high_frequency_translation"@,
            "hue_rotation_angles"@,
        ];
        if k < hue.len() {
            assert(all[7] == n);
        } else {
            assert(all[k - hue.len()] == n);
        }
    }
    assert(!c.0.contains("scale"@)) by {
        if c.0.contains("scale"@) {
            let k = choose|k: int| 0 <= k < c.0.len() && c.0[k] == "scale"@;
            assert(c.0[k].len() == 5);
        }
    }
}

/// The dimension inputs of the shapes that extend one another: a cylinder
/// is an infinite cylinder cut to a height, a cone an infinite cone cut to
/// a height; a cut sphere takes a cylinder's radius and height, a rounded
/// cone a capped cone's heights and radii; a sphere, like an infinite
/// cylinder, takes only its radius. Every shape shows only dimension
/// inputs.
pub proof fn lemma_related_shapes_share_dimensions()
    ensures
        spec_shape_names("Cylinder"@) == spec_shape_names("InfiniteCylinder"@) + seq!["height"@],
        spec_shape_names("Cone"@) == spec_shape_names("InfiniteCone"@) + seq!["height"@],
        spec_shape_names("CutSphere"@) == spec_shape_names("Cylinder"@),
        spec_shape_names("RoundedCone"@) == spec_shape_names("CappedCone"@),
        spec_shape_names("Sphere"@) == seq!["radius"@],
        spec_shape_names("InfiniteCylinder"@) == seq!["radius"@],
        spec_shape_names("InfiniteCone"@) == seq!["angle"@],
        forall|shape: Seq<char>, n: Seq<char>| #[trigger]
            spec_shape_names(shape).contains(n) ==> spec_shape_parameter_names().contains(n),
{
    reveal_strlit("CappedCone");
    reveal_strlit("RoundedCone");
    reveal_strlit("CappedTorus");
    reveal_strlit("Capsule");
    reveal_strlit("Cone");
    reveal_strlit("CutSphere");
    reveal_strlit("Cylinder");
    reveal_strlit("DeathStar");
    reveal_strlit("Ellipsoid");
    reveal_strlit("HexagonalPrism");
    reveal_strlit("HollowSphere");
    reveal_strlit("InfiniteCone");
    reveal_strlit("InfiniteCylinder");
    reveal_strlit("Link");
    reveal_strlit("Mandelbox");
    reveal_strlit("Mandelbulb");
    reveal_strlit("Octahedron");
    reveal_strlit("Plane");
    reveal_strlit("RectangularPrism");
    reveal_strlit("RectangularPrismFrame");
    reveal_strlit("Rhombus");
    reveal_strlit("SolidAngle");
    reveal_strlit("Sphere");
    reveal_strlit("Torus");
    reveal_strlit("TriangularPrism");
    assert("CappedCone"@.len() == 10);
    assert("RoundedCone"@.len() == 11);
    assert("CappedTorus"@.len() == 11);
    assert("Capsule"@.len() == 7);
    assert("Cone"@.len() == 4);
    assert("CutSphere"@.len() == 9);
    assert("Cylinder"@.len() == 8);
    assert("DeathStar"@.len() == 9);
    assert("Ellipsoid"@.len() == 9);
    assert("HexagonalPrism"@.len() == 14);
    assert("HollowSphere"@.len() == 12);
    assert("InfiniteCone"@.len() == 12);
    assert("InfiniteCylinder"@.len() == 16);
    assert("Link"@.len() == 4);
    assert("Mandelbox"@.len() == 9);
    assert("Mandelbulb"@.len() == 10);
    assert("Octahedron"@.len() == 10);
    assert("Plane"@.len() == 5);
    assert("RectangularPrism"@.len() == 16);
    assert("RectangularPrismFrame"@.len() == 21);
    assert("Rhombus"@.len() == 7);
    assert("SolidAngle"@.len() == 10);
    assert("Sphere"@.len() == 6);
    assert("InfiniteCone"@[0] != "HollowSphere"@[0]);
    assert(spec_shape_names("Cylinder"@) =~= seq!["radius"@, "height"@]);
    assert(spec_shape_names("InfiniteCylinder"@) =~= seq!["radius"@]);
    assert(spec_shape_names("Cone"@) =~= seq!["angle"@, "height"@]);
    assert(spec_shape_names("InfiniteCone"@) =~= seq!["angle"@]);
    assert(spec_shape_names("CutSphere"@) =~= seq!["radius"@, "height"@]);
    assert(spec_shape_names("Sphere"@) =~= seq!["radius"@]);
    assert(seq!["radius"@] + seq!["height"@] =~= seq!["radius"@, "height"@]);
    assert(seq!["angle"@] + seq!["height"@] =~= seq!["angle"@, "height"@]);
    let all = spec_shape_parameter_names();
    assert(all[0] == "radius"@);
    assert(all[1] == "radii"@);
    assert(all[2] == "height"@);
    assert(all[3] == "thickness"@);
    assert(all[4] == "hollow_radius"@);
    assert(all[5] == "hollow_height"@);
    assert(all[6] == "solid_angle"@);
    assert(all[7] == "width"@);
    assert(all[8] == "depth"@);
    assert(all[9] == "corner_radius"@);
    assert(all[10] == "base"@);
    assert(all[11] == "normal"@);
    assert(all[12] == "negative_height"@);
    assert(all[13] == "positive_height"@);
    assert(all[14] == "angle"@);
    assert(all[15] == "lower_radius"@);
    assert(all[16] == "upper_radius"@);
    assert(all[17] == "ring_radius"@);
    assert(all[18] == "tube_radius"@);
    assert(all[19] == "cap_angle"@);
    assert(all[20] == "radial_extent"@);
    assert(all[21] == "power"@);
    assert(all[22] == "iterations"@);
    assert(all[23] == "max_square_radius"@);
    assert(all[24] == "scale"@);
    assert(all[25] == "min_square_radius"@);
    assert(all[26] == "folding_limit"@);
    assert forall|shape: Seq<char>, n: Seq<char>| #[trigger]
        spec_shape_names(shape).contains(n) implies all.contains(n) by {
        let s = spec_shape_names(shape);
        let k = choose|k: int| 0 <= k < s.len() && s[k] == n;
    }
}

} // verus!
