use vstd::prelude::*;

use super::template::NodeTemplate;
use super::callbacks::{spec_all_texture_names, spec_shape_names, spec_shape_parameter_names};
use super::value_type::NodeValueKind;

verus! {

/// How an input takes its value: typed in only, typed in or from a
/// connection, or from a connection only.
#[derive(Clone, Copy, Debug, PartialEq, Eq, Structural)]
pub enum InputParamKind {
    ConstantOnly,
    ConnectionOrConstant,
    ConnectionOnly,
}

/// One input that a node is built with: its name, the kind of value it
/// holds, how it takes that value, its tooltip, and whether it starts
/// hidden.
#[derive(Clone, Copy, Debug)]
pub struct InputLayout {
    pub name: &'static str,
    pub kind: NodeValueKind,
    pub param_kind: InputParamKind,
    pub tooltip: &'static str,
    pub hidden: bool,
}

/// An input of a node as the layout describes it.
pub type InputView = (Seq<char>, NodeValueKind, InputParamKind, Seq<char>, bool);

impl InputLayout {
    pub open spec fn view(self) -> InputView {
        (self.name@, self.kind, self.param_kind, self.tooltip@, self.hidden)
    }
}

pub open spec fn layout_views(v: Seq<InputLayout>) -> Seq<InputView> {
    v.map_values(|l: InputLayout| l.view())
}

/// An output of a node: its name and the kind of value it carries.
pub open spec fn output_views(v: Seq<(&'static str, NodeValueKind)>) -> Seq<(Seq<char>, NodeValueKind)> {
    v.map_values(|o: (&'static str, NodeValueKind)| (o.0@, o.1))
}

// The tooltips of the inputs of the Axis template.
pub const AXIS_AXIS_TOOLTIP: &'static str = "The parent axis.";
pub const AXIS_TRANSLATE_TOOLTIP: &'static str = "The translation of this axis.";
pub const AXIS_ROTATE_TOOLTIP: &'static str = "The rotation of this axis.";
pub const AXIS_UNIFORM_SCALE_TOOLTIP: &'static str = "The uniform scale of this axis.\n\nWe use uniform scale because the signed distance\nfields cannot have their individual axes scaled.";

// The tooltips of the inputs of the Camera template.
pub const CAMERA_FOCAL_LENGTH_TOOLTIP: &'static str = "The focal length of the camera.";
pub const CAMERA_FOCAL_DISTANCE_TOOLTIP: &'static str = "The focal distance of the camera.";
pub const CAMERA_F_STOP_TOOLTIP: &'static str = "The f-stop of the camera.";
pub const CAMERA_HORIZONTAL_APERTURE_TOOLTIP: &'static str = "The horizontal aperture of the camera.";
pub const CAMERA_NEAR_PLANE_TOOLTIP: &'static str = "The distance to the near plane of the camera.";
pub const CAMERA_FAR_PLANE_TOOLTIP: &'static str = "The distance to the far plane of the camera.";
pub const CAMERA_SENSOR_RESOLUTION_TOOLTIP: &'static str = "The resolution of the camera sensor, used\nwhen generating a texture by rendering\nthrough this camera.";
pub const CAMERA_WORLD_MATRIX_TOOLTIP: &'static str = "The world matrix/axis of the camera.";
pub const CAMERA_ENABLE_DEPTH_OF_FIELD_TOOLTIP: &'static str = "If enabled, this camera will render with depth of field.";
pub const CAMERA_LATLONG_TOOLTIP: &'static str = "Output a LatLong, 360 degree field of view image.";

// The tooltips of the inputs of the Light template.
pub const LIGHT_LIGHTS_TOOLTIP: &'static str = "Chain other non-physical lights in the scene.";
pub const LIGHT_WORLD_MATRIX_TOOLTIP: &'static str = "The world matrix to apply to the light (point and\ndirectional only).\n\n\tPoint: Will affect the position of the light.\n\n\tDirectional: Will affect the direction vector of the light.";
pub const LIGHT_LIGHT_TYPE_TOOLTIP: &'static str = "The type of non-physical light to create.\n\n\tPoint: A point light.\n\n\tDirectional: A directional light.\n\n\tAmbient: An ambient light (will be a uniform colour).\n\n\tAmbient Occlusion: Ambient occlusion.";
pub const LIGHT_DIRECTION_TOOLTIP: &'static str = "The direction vector of the light.";
pub const LIGHT_POSITION_TOOLTIP: &'static str = "The position of the point light.";
pub const LIGHT_ITERATIONS_TOOLTIP: &'static str = "The number of iterations used to compute the occlusion.";
pub const LIGHT_INTENSITY_TOOLTIP: &'static str = "The intensity of the light.";
pub const LIGHT_FALLOFF_TOOLTIP: &'static str = "The exponent of the falloff (point lights only).";
pub const LIGHT_COLOUR_TOOLTIP: &'static str = "The light colour.";
pub const LIGHT_SHADOW_HARDNESS_TOOLTIP: &'static str = "The hardness of softened shadows.";
pub const LIGHT_SOFTEN_SHADOWS_TOOLTIP: &'static str = "If enabled, the shadows will be softened (directional\nand point lights only).";

// The tooltips of the inputs of the Grade template.
pub const GRADE_TEXTURE_TOOLTIP: &'static str = "A render pass which results in the production of the\ntexture to grade.";
pub const GRADE_BLACK_POINT_TOOLTIP: &'static str = "The black point of the texture.";
pub const GRADE_WHITE_POINT_TOOLTIP: &'static str = "The white point of the texture.";
pub const GRADE_LIFT_TOOLTIP: &'static str = "The lift to apply to the texture.";
pub const GRADE_GAIN_TOOLTIP: &'static str = "The gain to apply to the texture colour.";
pub const GRADE_GAMMA_TOOLTIP: &'static str = "The gamma to apply to the texture. This is computed\nby raising the colour to the power of 1/gamma.";
pub const GRADE_INVERT_TOOLTIP: &'static str = "Invert the colour.";

// The tooltips of the inputs of the Material template.
pub const MATERIAL_DIFFUSE_COLOUR_TOOLTIP: &'static str = "The diffuse colour of the material.";
pub const MATERIAL_DIFFUSE_COLOUR_TEXTURE_TOOLTIP: &'static str = "Texture that affects the diffuse colour of this material.";
pub const MATERIAL_SPECULAR_PROBABILITY_TOOLTIP: &'static str = "The probability that light will be specularly reflected\nwhen it interacts with this material.";
pub const MATERIAL_SPECULAR_PROBABILITY_TEXTURE_TOOLTIP: &'static str = "Texture that affects the specular probability of this material.";
pub const MATERIAL_SPECULAR_ROUGHNESS_TOOLTIP: &'static str = "The roughness of the material when specularly reflected.";
pub const MATERIAL_SPECULAR_ROUGHNESS_TEXTURE_TOOLTIP: &'static str = "Texture that affects the specular roughness of this material.";
pub const MATERIAL_SPECULAR_COLOUR_TOOLTIP: &'static str = "The specular colour of the material.";
pub const MATERIAL_SPECULAR_COLOUR_TEXTURE_TOOLTIP: &'static str = "Texture that affects the specular colour of this material.";
pub const MATERIAL_TRANSMISSIVE_PROBABILITY_TOOLTIP: &'static str = "The probability that light will be transmitted through\nthe material (before accounting for Fresnel) when it\ninteracts with this material.";
pub const MATERIAL_TRANSMISSIVE_PROBABILITY_TEXTURE_TOOLTIP: &'static str = "Texture that affects the transmissive probability of this material.";
pub const MATERIAL_TRANSMISSIVE_ROUGHNESS_TOOLTIP: &'static str = "The roughness when transmitted through the material.";
pub const MATERIAL_TRANSMISSIVE_ROUGHNESS_TEXTURE_TOOLTIP: &'static str = "Texture that affects the transmissive roughness of this material.";
pub const MATERIAL_EXTINCTION_COEFFICIENT_TOOLTIP: &'static str = "The extinction coefficient of the material.";
pub const MATERIAL_TRANSMISSIVE_COLOUR_TOOLTIP: &'static str = "The transmitted colour of the material.";
pub const MATERIAL_TRANSMISSIVE_COLOUR_TEXTURE_TOOLTIP: &'static str = "Texture that affects the transmissive colour of this material.";
pub const MATERIAL_EMISSIVE_INTENSITY_TOOLTIP: &'static str = "The intensity of light that will be emitted from the material.";
pub const MATERIAL_EMISSIVE_COLOUR_TOOLTIP: &'static str = "The emissive colour of the material.";
pub const MATERIAL_EMISSIVE_COLOUR_TEXTURE_TOOLTIP: &'static str = "Texture that affects the emissive colour of this material.";
pub const MATERIAL_REFRACTIVE_INDEX_TOOLTIP: &'static str = "The index of refraction of the material.";
pub const MATERIAL_REFRACTIVE_INDEX_TEXTURE_TOOLTIP: &'static str = "Texture that affects the refractive index of this material.";
pub const MATERIAL_SCATTERING_COEFFICIENT_TOOLTIP: &'static str = "The scattering coefficient of the material.";
pub const MATERIAL_SCATTERING_COLOUR_TOOLTIP: &'static str = "The scattering colour of the material.";
pub const MATERIAL_SCATTERING_COLOUR_TEXTURE_TOOLTIP: &'static str = "Texture that affects the scattering colour of this material.";

// The tooltips of the inputs of the Primitive template.
pub const PRIMITIVE_SIBLINGS_TOOLTIP: &'static str = "The siblings of this primitive.\n\nThese will be unaffected by this primitive's\nblend_type and transform.";
pub const PRIMITIVE_CHILDREN_TOOLTIP: &'static str = "The children of this primitive.\n\nThese will be transformed using this primitive's\nblend_type and transform.\n\nIf this primitive is a bounding volume, children\noutside of its bounds will not be rendered, and\nincreased performance can be achieved when\nrendering the children.";
pub const PRIMITIVE_MATERIAL_TOOLTIP: &'static str = "The primitive's material.";
pub const PRIMITIVE_SHAPE_TOOLTIP: &'static str = "The shape of the primitive.";
pub const PRIMITIVE_RADIUS_TOOLTIP: &'static str = "The radius.";
pub const PRIMITIVE_RADII_TOOLTIP: &'static str = "The radii of the ellipsoid.";
pub const PRIMITIVE_HEIGHT_TOOLTIP: &'static str = "The height (y-axis).";
pub const PRIMITIVE_HOLLOW_RADIUS_TOOLTIP: &'static str = "The radius of the sphere that is cut from the solid.";
pub const PRIMITIVE_HOLLOW_HEIGHT_TOOLTIP: &'static str = "The height (y-axis) of the center of the sphere\nthat is cut from the solid, above solidRadius +\nhollowRadius, the result will be a standard\nsphere of radius solidRadius.";
pub const PRIMITIVE_SOLID_ANGLE_TOOLTIP: &'static str = "The angle between the edge of the solid angle and the\ny-axis on [0-180] measured between the y-axis and wall\nof the solid angle.";
pub const PRIMITIVE_WIDTH_TOOLTIP: &'static str = "The width (x-axis).";
pub const PRIMITIVE_DEPTH_TOOLTIP: &'static str = "The depth (z-axis).";
pub const PRIMITIVE_THICKNESS_TOOLTIP: &'static str = "The thickness of the walls.";
pub const PRIMITIVE_CORNER_RADIUS_TOOLTIP: &'static str = "The radius of the corners of the rhombus' xy-plane parallel face.";
pub const PRIMITIVE_BASE_TOOLTIP: &'static str = "The equilateral triangles edge length (xy-plane).";
pub const PRIMITIVE_NORMAL_TOOLTIP: &'static str = "The normal direction of the plane.";
pub const PRIMITIVE_NEGATIVE_HEIGHT_TOOLTIP: &'static str = "The distance along the negative y-axis before entering the dome.";
pub const PRIMITIVE_POSITIVE_HEIGHT_TOOLTIP: &'static str = "The distance along the positive y-axis before entering the dome.";
pub const PRIMITIVE_ANGLE_TOOLTIP: &'static str = "The angle between the tip and base of the cone [0-90]\nmeasured between the y-axis and wall of the cone.";
pub const PRIMITIVE_LOWER_RADIUS_TOOLTIP: &'static str = "The radius of the cone at y = -height/2.";
pub const PRIMITIVE_UPPER_RADIUS_TOOLTIP: &'static str = "The radius of the cone at y = height/2.";
pub const PRIMITIVE_RING_RADIUS_TOOLTIP: &'static str = "The radius (xy-plane) of the ring of the torus.";
pub const PRIMITIVE_TUBE_RADIUS_TOOLTIP: &'static str = "The radius of the tube of the torus.";
pub const PRIMITIVE_CAP_ANGLE_TOOLTIP: &'static str = "The angle (xy-plane, symmetric about y-axis) to\ncap at, in the range [0-180.].";
pub const PRIMITIVE_RADIAL_EXTENT_TOOLTIP: &'static str = "The maximum distance along the x, y, and z axes.\nie. The vertices are at +/-radial_extent on the x, y,\nand z axes.";
pub const PRIMITIVE_POWER_TOOLTIP: &'static str = "One greater than the axes of symmetry in the xy-plane.";
pub const PRIMITIVE_ITERATIONS_TOOLTIP: &'static str = "The number of iterations to compute, the higher this\nis, the slower it will be to compute, but the more\ndetail the fractal will have.";
pub const PRIMITIVE_MAX_SQUARE_RADIUS_TOOLTIP: &'static str = "When the square radius has reached this length, stop iterating.";
pub const PRIMITIVE_SCALE_TOOLTIP: &'static str = "The amount to scale the position between folds.\nCan be negative or positive.";
pub const PRIMITIVE_MIN_SQUARE_RADIUS_TOOLTIP: &'static str = "The minimum square radius to use when spherically folding.";
pub const PRIMITIVE_FOLDING_LIMIT_TOOLTIP: &'static str = "Clamp the position between +/- this value when\nperforming the box fold. Higher values will result\nin a denser fractal.";
pub const PRIMITIVE_WORLD_MATRIX_TOOLTIP: &'static str = "The world matrix/axis of the primitive.";
pub const PRIMITIVE_EDGE_RADIUS_TOOLTIP: &'static str = "The thickness of the walls of the shape, if\nthe shape is hollow.";
pub const PRIMITIVE_REPETITION_TOOLTIP: &'static str = "Repeat objects in the scene with no extra memory\nconsumption. Note that if the repeated objects overlap\nsome strange things can occur.";
pub const PRIMITIVE_NEGATIVE_REPETITIONS_TOOLTIP: &'static str = "The number of repetitions along the negative x, y, and z axes.";
pub const PRIMITIVE_POSITIVE_REPETITIONS_TOOLTIP: &'static str = "The number of repetitions along the positive x, y, and z axes.";
pub const PRIMITIVE_SPACING_TOOLTIP: &'static str = "The spacing along each positive axis to repeat the objects.";
pub const PRIMITIVE_BOUNDING_VOLUME_TOOLTIP: &'static str = "If enabled, this object will act as a bounding volume\nfor all its children. This means that until a ray hits\nthe bounding volume, none of the child object's signed\ndistance fields will be computed. This can vastly\nimprove performance, especially when many complex\nobjects are far from the camera. This option does\nnot always play well with lighting effects that depend\non the number of iterations in the computation such\nas 'ambient occlusion' and 'softened shadows' due\nto the variation near the surface of the bounding object.";
pub const PRIMITIVE_BLEND_TYPE_TOOLTIP: &'static str = "The type of interaction this object will have with its children.\n\n\tUnion: All objects will appear as normal.\n\n\tSubtraction: This object will be subtracted from all of its\n\n\t\tchildren, leaving holes.\n\n\tIntersection: Only the region where this object and its\n\n\t\tchildren overlap will remain.\n\n\tSmooth Union: All children will smoothly blend together\n\n\t\twith this object according to the 'blend strength'.\n\n\tSmooth Subtraction:This object will be subtracted from all\n\n\t\tof its children,  leaving holes that are smoothed\n\n\t\taccording to the 'blend strength'.\n\n\tSmooth Intersection: Only the region where this object\n\n\t\tand its children overlap will remain, and the remaining\n\n\t\tregions will be smoothed according to the 'blend\n\n\t\tstrength'.";
pub const PRIMITIVE_BLEND_STRENGTH_TOOLTIP: &'static str = "The amount to blend with this primitive's children.";
pub const PRIMITIVE_MIRROR_TOOLTIP: &'static str = "Mirror along the x, y, and z axes.";
pub const PRIMITIVE_HOLLOW_TOOLTIP: &'static str = "If enabled, the object will be hollow, with a\nthickness of 'wall thickness'.";
pub const PRIMITIVE_WALL_THICKNESS_TOOLTIP: &'static str = "The thickness of the walls of the shape, if\nthe shape is hollow.";
pub const PRIMITIVE_ELONGATE_TOOLTIP: &'static str = "Enable the elongation of the object.";
pub const PRIMITIVE_ELONGATION_TOOLTIP: &'static str = "The elongation of the object along the respective axes.";

// The tooltips of the inputs of the ProceduralTexture template.
pub const PROCEDURAL_TEXTURE_TEXTURE_TYPE_TOOLTIP: &'static str = "The type of texture to use.";
pub const PROCEDURAL_TEXTURE_SCALE_TOOLTIP: &'static str = "The scale factor of the texture.";
pub const PROCEDURAL_TEXTURE_BLACK_POINT_TOOLTIP: &'static str = "The black point of the texture.";
pub const PROCEDURAL_TEXTURE_WHITE_POINT_TOOLTIP: &'static str = "The white point of the texture.";
pub const PROCEDURAL_TEXTURE_LIFT_TOOLTIP: &'static str = "The lift to apply to the texture.";
pub const PROCEDURAL_TEXTURE_GAIN_TOOLTIP: &'static str = "The gain to apply to the texture colour.";
pub const PROCEDURAL_TEXTURE_OCTAVES_TOOLTIP: &'static str = "The number of different frequencies to superimpose.";
pub const PROCEDURAL_TEXTURE_LACUNARITY_TOOLTIP: &'static str = "The lacunarity is the initial frequency of the noise,\nand the amount to scale the frequency for each octave.";
pub const PROCEDURAL_TEXTURE_AMPLITUDE_GAIN_TOOLTIP: &'static str = "The gain to apply to the texture. This scales the\nnoise amplitude between octaves.";
pub const PROCEDURAL_TEXTURE_GAMMA_TOOLTIP: &'static str = "The gamma to apply to the texture. This is computed\nby raising the colour to the power of 1/gamma.";
pub const PROCEDURAL_TEXTURE_LOW_FREQUENCY_SCALE_TOOLTIP: &'static str = "The amount to scale lower frequencies between octaves.";
pub const PROCEDURAL_TEXTURE_HIGH_FREQUENCY_SCALE_TOOLTIP: &'static str = "The amount to scale higher frequencies between octaves.";
pub const PROCEDURAL_TEXTURE_LOW_FREQUENCY_TRANSLATION_TOOLTIP: &'static str = "The amount to translate lower frequencies between octaves.";
pub const PROCEDURAL_TEXTURE_HIGH_FREQUENCY_TRANSLATION_TOOLTIP: &'static str = "The amount to translate higher frequencies between octaves.";
pub const PROCEDURAL_TEXTURE_INVERT_TOOLTIP: &'static str = "Invert the colour.";
pub const PROCEDURAL_TEXTURE_USE_TRAP_COLOUR_TOOLTIP: &'static str = "Multiply by the trap colour when rendering fractals.";
pub const PROCEDURAL_TEXTURE_HUE_ROTATION_ANGLES_TOOLTIP: &'static str = "Rotation of the colour.";

// The tooltips of the inputs of the RayMarcher template.
pub const RAY_MARCHER_SCENE_TOOLTIP: &'static str = "The scene to render.";
pub const RAY_MARCHER_MAX_RAY_STEPS_TOOLTIP: &'static str = "Limits the number of times the rays can intersect\nan object per subpixel.";
pub const RAY_MARCHER_MAX_BOUNCES_TOOLTIP: &'static str = "Limits the number of times the rays can intersect\nan object per subpixel.";
pub const RAY_MARCHER_HIT_TOLERANCE_TOOLTIP: &'static str = "The ray will be considered to have hit an object\nwhen it is within this distance of its surface.";
pub const RAY_MARCHER_SHADOW_BIAS_TOOLTIP: &'static str = "After intersecting an object the ray is offset from\nthe surface before continuing. Multiply that offset\ndistance by this factor.";
pub const RAY_MARCHER_MAX_BRIGHTNESS_TOOLTIP: &'static str = "The maximum brightness of a pixel. This protects\nagainst overflowing to infinity.";
pub const RAY_MARCHER_SEED_TOOLTIP: &'static str = "The seed used to generate per-pixel, random seeds.\nBe sure this is different for each parallel render.";
pub const RAY_MARCHER_DYNAMIC_LEVEL_OF_DETAIL_TOOLTIP: &'static str = "Increase the hit tolerance the farther the ray\ntravels without hitting a surface. This has performance\nand antialiasing benefits.";
pub const RAY_MARCHER_EQUIANGULAR_SAMPLES_TOOLTIP: &'static str = "The number of equi-angular samples to perform if\nthe extinction/scattering coefficients are greater\nthan 0. This enables participating media such as\nfog/smoke/clouds to be traced.";
pub const RAY_MARCHER_LIGHT_SAMPLING_TOOLTIP: &'static str = "Send a ray towards light sources when hitting a diffuse surface.";
pub const RAY_MARCHER_MAX_LIGHT_SAMPLING_BOUNCES_TOOLTIP: &'static str = "The maximum number of bounces during light sampling.\nLight sampling will be disabled if this is 0. Light\nsampling means that each time a surface is hit, the\ndirect illumination from lights in the scene will be\ncomputed, which helps to reduce noise very quickly.\nTODO";
pub const RAY_MARCHER_SAMPLE_ATMOSPHERE_TOOLTIP: &'static str = "Include the skybox in the list of lights that can be\nsampled during light sampling.";
pub const RAY_MARCHER_LIGHT_SAMPLING_BIAS_TOOLTIP: &'static str = "A fully biased (1) light sampling means that on each\nlight sample the ray will be initialised pointing\ndirectly at the light. Reducing this bias means that\nsome rays will be pointed away from the light. This,\nwhen combined with multiple 'max light sampling\nbounces' allows the renderer to find difficult paths,\nsuch as volumetric caustics.\nTODO";
pub const RAY_MARCHER_SECONDARY_SAMPLING_TOOLTIP: &'static str = "Sample the artificial lights (those in the 'lights'\ninput) while casting shadow rays for light sampling.\nTODO";
pub const RAY_MARCHER_OUTPUT_AOV_TOOLTIP: &'static str = "The AOV type to output.\nThe stats AOV has the\naverage number of bounces in the red channel,\naverage number of steps in the green channel,\nand the distance travelled in the blue channel.\nEach is displayed as a fraction of the maximums.";

// The tooltips of the inputs of the Scene template.
pub const SCENE_RENDER_CAMERA_TOOLTIP: &'static str = "The camera to render the scene through.";
pub const SCENE_PRIMITIVES_TOOLTIP: &'static str = "The primitives in the scene.";
pub const SCENE_LIGHTS_TOOLTIP: &'static str = "The lights in the scene.";
pub const SCENE_ATMOSPHERE_TOOLTIP: &'static str = "The material to apply to the atmosphere (smoke, extinction, hdri, etc.).";

// The tooltips of the inputs of the Texture template.
pub const TEXTURE_FILEPATH_TOOLTIP: &'static str = "The path to the texture.";

/// The inputs a node of the Axis template is built with, in order.
pub open spec fn spec_axis_inputs() -> Seq<InputView> {
    seq![
        ("axis"@, NodeValueKind::Mat4, InputParamKind::ConnectionOrConstant, AXIS_AXIS_TOOLTIP@, false),
        ("translate"@, NodeValueKind::Vec3, InputParamKind::ConstantOnly, AXIS_TRANSLATE_TOOLTIP@, false),
        ("rotate"@, NodeValueKind::Vec3, InputParamKind::ConstantOnly, AXIS_ROTATE_TOOLTIP@, false),
        ("uniform_scale"@, NodeValueKind::Float, InputParamKind::ConstantOnly, AXIS_UNIFORM_SCALE_TOOLTIP@, false),
    ]
}

/// The inputs a node of the Camera template is built with, in order.
pub open spec fn spec_camera_inputs() -> Seq<InputView> {
    seq![
        ("focal_length"@, NodeValueKind::Float, InputParamKind::ConstantOnly, CAMERA_FOCAL_LENGTH_TOOLTIP@, false),
        ("focal_distance"@, NodeValueKind::Float, InputParamKind::ConstantOnly, CAMERA_FOCAL_DISTANCE_TOOLTIP@, false),
        ("f_stop"@, NodeValueKind::Float, InputParamKind::ConstantOnly, CAMERA_F_STOP_TOOLTIP@, false),
        ("horizontal_aperture"@, NodeValueKind::Float, InputParamKind::ConstantOnly, CAMERA_HORIZONTAL_APERTURE_TOOLTIP@, false),
        ("near_plane"@, NodeValueKind::Float, InputParamKind::ConstantOnly, CAMERA_NEAR_PLANE_TOOLTIP@, false),
        ("far_plane"@, NodeValueKind::Float, InputParamKind::ConstantOnly, CAMERA_FAR_PLANE_TOOLTIP@, false),
        ("sensor_resolution"@, NodeValueKind::UVec2, InputParamKind::ConstantOnly, CAMERA_SENSOR_RESOLUTION_TOOLTIP@, false),
        ("world_matrix"@, NodeValueKind::Mat4, InputParamKind::ConnectionOrConstant, CAMERA_WORLD_MATRIX_TOOLTIP@, false),
        ("enable_depth_of_field"@, NodeValueKind::Bool, InputParamKind::ConstantOnly, CAMERA_ENABLE_DEPTH_OF_FIELD_TOOLTIP@, false),
        ("latlong"@, NodeValueKind::Bool, InputParamKind::ConstantOnly, CAMERA_LATLONG_TOOLTIP@, false),
    ]
}

/// The inputs a node of the Light template is built with, in order.
pub open spec fn spec_light_inputs() -> Seq<InputView> {
    seq![
        ("lights"@, NodeValueKind::Light, InputParamKind::ConnectionOnly, LIGHT_LIGHTS_TOOLTIP@, false),
        ("world_matrix"@, NodeValueKind::Mat4, InputParamKind::ConnectionOrConstant, LIGHT_WORLD_MATRIX_TOOLTIP@, false),
        ("light_type"@, NodeValueKind::ComboBox, InputParamKind::ConstantOnly, LIGHT_LIGHT_TYPE_TOOLTIP@, false),
        ("direction"@, NodeValueKind::Vec3, InputParamKind::ConstantOnly, LIGHT_DIRECTION_TOOLTIP@, true),
        ("position"@, NodeValueKind::Vec3, InputParamKind::ConstantOnly, LIGHT_POSITION_TOOLTIP@, true),
        ("iterations"@, NodeValueKind::UnsignedInteger, InputParamKind::ConstantOnly, LIGHT_ITERATIONS_TOOLTIP@, false),
        ("intensity"@, NodeValueKind::Float, InputParamKind::ConstantOnly, LIGHT_INTENSITY_TOOLTIP@, false),
        ("falloff"@, NodeValueKind::UnsignedInteger, InputParamKind::ConstantOnly, LIGHT_FALLOFF_TOOLTIP@, false),
        ("colour"@, NodeValueKind::Vec3, InputParamKind::ConstantOnly, LIGHT_COLOUR_TOOLTIP@, false),
        ("shadow_hardness"@, NodeValueKind::Float, InputParamKind::ConstantOnly, LIGHT_SHADOW_HARDNESS_TOOLTIP@, false),
        ("soften_shadows"@, NodeValueKind::Bool, InputParamKind::ConstantOnly, LIGHT_SOFTEN_SHADOWS_TOOLTIP@, false),
    ]
}

/// The inputs a node of the Grade template is built with, in order.
pub open spec fn spec_grade_inputs() -> Seq<InputView> {
    seq![
        ("texture"@, NodeValueKind::RenderPass, InputParamKind::ConnectionOnly, GRADE_TEXTURE_TOOLTIP@, false),
        ("black_point"@, NodeValueKind::Float, InputParamKind::ConstantOnly, GRADE_BLACK_POINT_TOOLTIP@, false),
        ("white_point"@, NodeValueKind::Float, InputParamKind::ConstantOnly, GRADE_WHITE_POINT_TOOLTIP@, false),
        ("lift"@, NodeValueKind::Float, InputParamKind::ConstantOnly, GRADE_LIFT_TOOLTIP@, false),
        ("gain"@, NodeValueKind::Float, InputParamKind::ConstantOnly, GRADE_GAIN_TOOLTIP@, false),
        ("gamma"@, NodeValueKind::Float, InputParamKind::ConstantOnly, GRADE_GAMMA_TOOLTIP@, false),
        ("invert"@, NodeValueKind::Bool, InputParamKind::ConstantOnly, GRADE_INVERT_TOOLTIP@, false),
    ]
}

/// The inputs a node of the Material template is built with, in order.
pub open spec fn spec_material_inputs() -> Seq<InputView> {
    seq![
        ("diffuse_colour"@, NodeValueKind::Vec3, InputParamKind::ConstantOnly, MATERIAL_DIFFUSE_COLOUR_TOOLTIP@, false),
        ("diffuse_colour_texture"@, NodeValueKind::ProceduralTexture, InputParamKind::ConnectionOnly, MATERIAL_DIFFUSE_COLOUR_TEXTURE_TOOLTIP@, false),
        ("specular_probability"@, NodeValueKind::Float, InputParamKind::ConstantOnly, MATERIAL_SPECULAR_PROBABILITY_TOOLTIP@, false),
        ("specular_probability_texture"@, NodeValueKind::ProceduralTexture, InputParamKind::ConnectionOnly, MATERIAL_SPECULAR_PROBABILITY_TEXTURE_TOOLTIP@, false),
        ("specular_roughness"@, NodeValueKind::Float, InputParamKind::ConstantOnly, MATERIAL_SPECULAR_ROUGHNESS_TOOLTIP@, false),
        ("specular_roughness_texture"@, NodeValueKind::ProceduralTexture, InputParamKind::ConnectionOnly, MATERIAL_SPECULAR_ROUGHNESS_TEXTURE_TOOLTIP@, false),
        ("specular_colour"@, NodeValueKind::Vec3, InputParamKind::ConstantOnly, MATERIAL_SPECULAR_COLOUR_TOOLTIP@, false),
        ("specular_colour_texture"@, NodeValueKind::ProceduralTexture, InputParamKind::ConnectionOnly, MATERIAL_SPECULAR_COLOUR_TEXTURE_TOOLTIP@, false),
        ("transmissive_probability"@, NodeValueKind::Float, InputParamKind::ConstantOnly, MATERIAL_TRANSMISSIVE_PROBABILITY_TOOLTIP@, false),
        ("transmissive_probability_texture"@, NodeValueKind::ProceduralTexture, InputParamKind::ConnectionOnly, MATERIAL_TRANSMISSIVE_PROBABILITY_TEXTURE_TOOLTIP@, false),
        ("transmissive_roughness"@, NodeValueKind::Float, InputParamKind::ConstantOnly, MATERIAL_TRANSMISSIVE_ROUGHNESS_TOOLTIP@, false),
        ("transmissive_roughness_texture"@, NodeValueKind::ProceduralTexture, InputParamKind::ConnectionOnly, MATERIAL_TRANSMISSIVE_ROUGHNESS_TEXTURE_TOOLTIP@, false),
        ("extinction_coefficient"@, NodeValueKind::Float, InputParamKind::ConstantOnly, MATERIAL_EXTINCTION_COEFFICIENT_TOOLTIP@, false),
        ("transmissive_colour"@, NodeValueKind::Vec3, InputParamKind::ConstantOnly, MATERIAL_TRANSMISSIVE_COLOUR_TOOLTIP@, false),
        ("transmissive_colour_texture"@, NodeValueKind::ProceduralTexture, InputParamKind::ConnectionOnly, MATERIAL_TRANSMISSIVE_COLOUR_TEXTURE_TOOLTIP@, false),
        ("emissive_intensity"@, NodeValueKind::Float, InputParamKind::ConstantOnly, MATERIAL_EMISSIVE_INTENSITY_TOOLTIP@, false),
        ("emissive_colour"@, NodeValueKind::Vec3, InputParamKind::ConstantOnly, MATERIAL_EMISSIVE_COLOUR_TOOLTIP@, false),
        ("emissive_colour_texture"@, NodeValueKind::ProceduralTexture, InputParamKind::ConnectionOnly, MATERIAL_EMISSIVE_COLOUR_TEXTURE_TOOLTIP@, false),
        ("refractive_index"@, NodeValueKind::Float, InputParamKind::ConstantOnly, MATERIAL_REFRACTIVE_INDEX_TOOLTIP@, false),
        ("refractive_index_texture"@, NodeValueKind::ProceduralTexture, InputParamKind::ConnectionOnly, MATERIAL_REFRACTIVE_INDEX_TEXTURE_TOOLTIP@, false),
        ("scattering_coefficient"@, NodeValueKind::Float, InputParamKind::ConstantOnly, MATERIAL_SCATTERING_COEFFICIENT_TOOLTIP@, false),
        ("scattering_colour"@, NodeValueKind::Vec3, InputParamKind::ConstantOnly, MATERIAL_SCATTERING_COLOUR_TOOLTIP@, false),
        ("scattering_colour_texture"@, NodeValueKind::ProceduralTexture, InputParamKind::ConnectionOnly, MATERIAL_SCATTERING_COLOUR_TEXTURE_TOOLTIP@, false),
    ]
}

/// The inputs a node of the Primitive template is built with, in order.
pub open spec fn spec_primitive_inputs() -> Seq<InputView> {
    seq![
        ("siblings"@, NodeValueKind::Primitive, InputParamKind::ConnectionOnly, PRIMITIVE_SIBLINGS_TOOLTIP@, false),
        ("children"@, NodeValueKind::Primitive, InputParamKind::ConnectionOnly, PRIMITIVE_CHILDREN_TOOLTIP@, false),
        ("material"@, NodeValueKind::Material, InputParamKind::ConnectionOnly, PRIMITIVE_MATERIAL_TOOLTIP@, false),
        ("shape"@, NodeValueKind::ComboBox, InputParamKind::ConstantOnly, PRIMITIVE_SHAPE_TOOLTIP@, false),
        ("radius"@, NodeValueKind::Float, InputParamKind::ConstantOnly, PRIMITIVE_RADIUS_TOOLTIP@, false),
        ("radii"@, NodeValueKind::Vec3, InputParamKind::ConstantOnly, PRIMITIVE_RADII_TOOLTIP@, true),
        ("height"@, NodeValueKind::Float, InputParamKind::ConstantOnly, PRIMITIVE_HEIGHT_TOOLTIP@, true),
        ("hollow_radius"@, NodeValueKind::Float, InputParamKind::ConstantOnly, PRIMITIVE_HOLLOW_RADIUS_TOOLTIP@, true),
        ("hollow_height"@, NodeValueKind::Float, InputParamKind::ConstantOnly, PRIMITIVE_HOLLOW_HEIGHT_TOOLTIP@, true),
        ("solid_angle"@, NodeValueKind::Float, InputParamKind::ConstantOnly, PRIMITIVE_SOLID_ANGLE_TOOLTIP@, true),
        ("width"@, NodeValueKind::Float, InputParamKind::ConstantOnly, PRIMITIVE_WIDTH_TOOLTIP@, true),
        ("depth"@, NodeValueKind::Float, InputParamKind::ConstantOnly, PRIMITIVE_DEPTH_TOOLTIP@, true),
        ("thickness"@, NodeValueKind::Float, InputParamKind::ConstantOnly, PRIMITIVE_THICKNESS_TOOLTIP@, true),
        ("corner_radius"@, NodeValueKind::Float, InputParamKind::ConstantOnly, PRIMITIVE_CORNER_RADIUS_TOOLTIP@, true),
        ("base"@, NodeValueKind::Float, InputParamKind::ConstantOnly, PRIMITIVE_BASE_TOOLTIP@, true),
        ("normal"@, NodeValueKind::Vec3, InputParamKind::ConstantOnly, PRIMITIVE_NORMAL_TOOLTIP@, true),
        ("negative_height"@, NodeValueKind::Float, InputParamKind::ConstantOnly, PRIMITIVE_NEGATIVE_HEIGHT_TOOLTIP@, true),
        ("positive_height"@, NodeValueKind::Float, InputParamKind::ConstantOnly, PRIMITIVE_POSITIVE_HEIGHT_TOOLTIP@, true),
        ("angle"@, NodeValueKind::Float, InputParamKind::ConstantOnly, PRIMITIVE_ANGLE_TOOLTIP@, true),
        ("lower_radius"@, NodeValueKind::Float, InputParamKind::ConstantOnly, PRIMITIVE_LOWER_RADIUS_TOOLTIP@, true),
        ("upper_radius"@, NodeValueKind::Float, InputParamKind::ConstantOnly, PRIMITIVE_UPPER_RADIUS_TOOLTIP@, true),
        ("ring_radius"@, NodeValueKind::Float, InputParamKind::ConstantOnly, PRIMITIVE_RING_RADIUS_TOOLTIP@, true),
        ("tube_radius"@, NodeValueKind::Float, InputParamKind::ConstantOnly, PRIMITIVE_TUBE_RADIUS_TOOLTIP@, true),
        ("cap_angle"@, NodeValueKind::Float, InputParamKind::ConstantOnly, PRIMITIVE_CAP_ANGLE_TOOLTIP@, true),
        ("radial_extent"@, NodeValueKind::Float, InputParamKind::ConstantOnly, PRIMITIVE_RADIAL_EXTENT_TOOLTIP@, true),
        ("power"@, NodeValueKind::Float, InputParamKind::ConstantOnly, PRIMITIVE_POWER_TOOLTIP@, true),
        ("iterations"@, NodeValueKind::UnsignedInteger, InputParamKind::ConstantOnly, PRIMITIVE_ITERATIONS_TOOLTIP@, true),
        ("max_square_radius"@, NodeValueKind::Float, InputParamKind::ConstantOnly, PRIMITIVE_MAX_SQUARE_RADIUS_TOOLTIP@, true),
        ("scale"@, NodeValueKind::Float, InputParamKind::ConstantOnly, PRIMITIVE_SCALE_TOOLTIP@, true),
        ("min_square_radius"@, NodeValueKind::Float, InputParamKind::ConstantOnly, PRIMITIVE_MIN_SQUARE_RADIUS_TOOLTIP@, true),
        ("folding_limit"@, NodeValueKind::Float, InputParamKind::ConstantOnly, PRIMITIVE_FOLDING_LIMIT_TOOLTIP@, true),
        ("world_matrix"@, NodeValueKind::Mat4, InputParamKind::ConnectionOrConstant, PRIMITIVE_WORLD_MATRIX_TOOLTIP@, false),
        ("edge_radius"@, NodeValueKind::Float, InputParamKind::ConstantOnly, PRIMITIVE_EDGE_RADIUS_TOOLTIP@, false),
        ("repetition"@, NodeValueKind::ComboBox, InputParamKind::ConstantOnly, PRIMITIVE_REPETITION_TOOLTIP@, false),
        ("negative_repetitions"@, NodeValueKind::UVec3, InputParamKind::ConstantOnly, PRIMITIVE_NEGATIVE_REPETITIONS_TOOLTIP@, true),
        ("positive_repetitions"@, NodeValueKind::UVec3, InputParamKind::ConstantOnly, PRIMITIVE_POSITIVE_REPETITIONS_TOOLTIP@, true),
        ("spacing"@, NodeValueKind::Vec3, InputParamKind::ConstantOnly, PRIMITIVE_SPACING_TOOLTIP@, true),
        ("bounding_volume"@, NodeValueKind::Bool, InputParamKind::ConstantOnly, PRIMITIVE_BOUNDING_VOLUME_TOOLTIP@, false),
        ("blend_type"@, NodeValueKind::ComboBox, InputParamKind::ConstantOnly, PRIMITIVE_BLEND_TYPE_TOOLTIP@, false),
        ("blend_strength"@, NodeValueKind::Float, InputParamKind::ConstantOnly, PRIMITIVE_BLEND_STRENGTH_TOOLTIP@, false),
        ("mirror"@, NodeValueKind::BVec3, InputParamKind::ConstantOnly, PRIMITIVE_MIRROR_TOOLTIP@, false),
        ("hollow"@, NodeValueKind::Bool, InputParamKind::ConstantOnly, PRIMITIVE_HOLLOW_TOOLTIP@, false),
        ("wall_thickness"@, NodeValueKind::Float, InputParamKind::ConstantOnly, PRIMITIVE_WALL_THICKNESS_TOOLTIP@, true),
        ("elongate"@, NodeValueKind::Bool, InputParamKind::ConstantOnly, PRIMITIVE_ELONGATE_TOOLTIP@, false),
        ("elongation"@, NodeValueKind::Vec3, InputParamKind::ConstantOnly, PRIMITIVE_ELONGATION_TOOLTIP@, true),
    ]
}

/// The inputs a node of the ProceduralTexture template is built with, in order.
pub open spec fn spec_procedural_texture_inputs() -> Seq<InputView> {
    seq![
        ("texture_type"@, NodeValueKind::ComboBox, InputParamKind::ConstantOnly, PROCEDURAL_TEXTURE_TEXTURE_TYPE_TOOLTIP@, false),
        ("scale"@, NodeValueKind::Vec4, InputParamKind::ConstantOnly, PROCEDURAL_TEXTURE_SCALE_TOOLTIP@, true),
        ("black_point"@, NodeValueKind::Float, InputParamKind::ConstantOnly, PROCEDURAL_TEXTURE_BLACK_POINT_TOOLTIP@, true),
        ("white_point"@, NodeValueKind::Float, InputParamKind::ConstantOnly, PROCEDURAL_TEXTURE_WHITE_POINT_TOOLTIP@, true),
        ("lift"@, NodeValueKind::Float, InputParamKind::ConstantOnly, PROCEDURAL_TEXTURE_LIFT_TOOLTIP@, true),
        ("gain"@, NodeValueKind::Float, InputParamKind::ConstantOnly, PROCEDURAL_TEXTURE_GAIN_TOOLTIP@, true),
        ("octaves"@, NodeValueKind::UnsignedInteger, InputParamKind::ConstantOnly, PROCEDURAL_TEXTURE_OCTAVES_TOOLTIP@, true),
        ("lacunarity"@, NodeValueKind::Float, InputParamKind::ConstantOnly, PROCEDURAL_TEXTURE_LACUNARITY_TOOLTIP@, true),
        ("amplitude_gain"@, NodeValueKind::Float, InputParamKind::ConstantOnly, PROCEDURAL_TEXTURE_AMPLITUDE_GAIN_TOOLTIP@, true),
        ("gamma"@, NodeValueKind::Float, InputParamKind::ConstantOnly, PROCEDURAL_TEXTURE_GAMMA_TOOLTIP@, true),
        ("low_frequency_scale"@, NodeValueKind::Vec4, InputParamKind::ConstantOnly, PROCEDURAL_TEXTURE_LOW_FREQUENCY_SCALE_TOOLTIP@, true),
        ("high_frequency_scale"@, NodeValueKind::Vec4, InputParamKind::ConstantOnly, PROCEDURAL_TEXTURE_HIGH_FREQUENCY_SCALE_TOOLTIP@, true),
        ("low_frequency_translation"@, NodeValueKind::Vec4, InputParamKind::ConstantOnly, PROCEDURAL_TEXTURE_LOW_FREQUENCY_TRANSLATION_TOOLTIP@, true),
        ("high_frequency_translation"@, NodeValueKind::Vec4, InputParamKind::ConstantOnly, PROCEDURAL_TEXTURE_HIGH_FREQUENCY_TRANSLATION_TOOLTIP@, true),
        ("invert"@, NodeValueKind::Bool, InputParamKind::ConstantOnly, PROCEDURAL_TEXTURE_INVERT_TOOLTIP@, true),
        ("use_trap_colour"@, NodeValueKind::Bool, InputParamKind::ConstantOnly, PROCEDURAL_TEXTURE_USE_TRAP_COLOUR_TOOLTIP@, true),
        ("hue_rotation_angles"@, NodeValueKind::Vec3, InputParamKind::ConstantOnly, PROCEDURAL_TEXTURE_HUE_ROTATION_ANGLES_TOOLTIP@, true),
    ]
}

/// The inputs a node of the RayMarcher template is built with, in order.
pub open spec fn spec_ray_marcher_inputs() -> Seq<InputView> {
    seq![
        ("scene"@, NodeValueKind::Scene, InputParamKind::ConnectionOnly, RAY_MARCHER_SCENE_TOOLTIP@, false),
        ("max_ray_steps"@, NodeValueKind::UnsignedInteger, InputParamKind::ConstantOnly, RAY_MARCHER_MAX_RAY_STEPS_TOOLTIP@, false),
        ("max_bounces"@, NodeValueKind::UnsignedInteger, InputParamKind::ConstantOnly, RAY_MARCHER_MAX_BOUNCES_TOOLTIP@, false),
        ("hit_tolerance"@, NodeValueKind::Float, InputParamKind::ConstantOnly, RAY_MARCHER_HIT_TOLERANCE_TOOLTIP@, false),
        ("shadow_bias"@, NodeValueKind::Float, InputParamKind::ConstantOnly, RAY_MARCHER_SHADOW_BIAS_TOOLTIP@, false),
        ("max_brightness"@, NodeValueKind::Float, InputParamKind::ConstantOnly, RAY_MARCHER_MAX_BRIGHTNESS_TOOLTIP@, false),
        ("seed"@, NodeValueKind::UnsignedInteger, InputParamKind::ConstantOnly, RAY_MARCHER_SEED_TOOLTIP@, false),
        ("dynamic_level_of_detail"@, NodeValueKind::Bool, InputParamKind::ConstantOnly, RAY_MARCHER_DYNAMIC_LEVEL_OF_DETAIL_TOOLTIP@, false),
        ("equiangular_samples"@, NodeValueKind::UnsignedInteger, InputParamKind::ConstantOnly, RAY_MARCHER_EQUIANGULAR_SAMPLES_TOOLTIP@, false),
        ("light_sampling"@, NodeValueKind::Bool, InputParamKind::ConstantOnly, RAY_MARCHER_LIGHT_SAMPLING_TOOLTIP@, false),
        ("max_light_sampling_bounces"@, NodeValueKind::UnsignedInteger, InputParamKind::ConstantOnly, RAY_MARCHER_MAX_LIGHT_SAMPLING_BOUNCES_TOOLTIP@, true),
        ("sample_atmosphere"@, NodeValueKind::Bool, InputParamKind::ConstantOnly, RAY_MARCHER_SAMPLE_ATMOSPHERE_TOOLTIP@, true),
        ("light_sampling_bias"@, NodeValueKind::Float, InputParamKind::ConstantOnly, RAY_MARCHER_LIGHT_SAMPLING_BIAS_TOOLTIP@, true),
        ("secondary_sampling"@, NodeValueKind::Bool, InputParamKind::ConstantOnly, RAY_MARCHER_SECONDARY_SAMPLING_TOOLTIP@, true),
        ("output_aov"@, NodeValueKind::ComboBox, InputParamKind::ConstantOnly, RAY_MARCHER_OUTPUT_AOV_TOOLTIP@, false),
    ]
}

/// The inputs a node of the Scene template is built with, in order.
pub open spec fn spec_scene_inputs() -> Seq<InputView> {
    seq![
        ("render_camera"@, NodeValueKind::Camera, InputParamKind::ConnectionOnly, SCENE_RENDER_CAMERA_TOOLTIP@, false),
        ("primitives"@, NodeValueKind::Primitive, InputParamKind::ConnectionOnly, SCENE_PRIMITIVES_TOOLTIP@, false),
        ("lights"@, NodeValueKind::Light, InputParamKind::ConnectionOnly, SCENE_LIGHTS_TOOLTIP@, false),
        ("atmosphere"@, NodeValueKind::Material, InputParamKind::ConnectionOnly, SCENE_ATMOSPHERE_TOOLTIP@, false),
    ]
}

/// The inputs a node of the Texture template is built with, in order.
pub open spec fn spec_texture_inputs() -> Seq<InputView> {
    seq![
        ("filepath"@, NodeValueKind::Filepath, InputParamKind::ConstantOnly, TEXTURE_FILEPATH_TOOLTIP@, false),
    ]
}

impl NodeTemplate {
    /// The inputs a node built from the template starts with, in order.
    pub open spec fn spec_inputs(self) -> Seq<InputView> {
        match self {
            NodeTemplate::Axis => spec_axis_inputs(),
            NodeTemplate::Camera => spec_camera_inputs(),
            NodeTemplate::Light => spec_light_inputs(),
            NodeTemplate::Grade => spec_grade_inputs(),
            NodeTemplate::Material => spec_material_inputs(),
            NodeTemplate::Primitive => spec_primitive_inputs(),
            NodeTemplate::ProceduralTexture => spec_procedural_texture_inputs(),
            NodeTemplate::RayMarcher => spec_ray_marcher_inputs(),
            NodeTemplate::Scene => spec_scene_inputs(),
            NodeTemplate::Texture => spec_texture_inputs(),
        }
    }

    /// The outputs of a node built from the template.
    pub open spec fn spec_outputs(self) -> Seq<(Seq<char>, NodeValueKind)> {
        match self {
            NodeTemplate::Axis => seq![("out"@, NodeValueKind::Mat4)],
            NodeTemplate::Camera => seq![("out"@, NodeValueKind::Camera)],
            NodeTemplate::Light => seq![("out"@, NodeValueKind::Light)],
            NodeTemplate::Grade => seq![("out"@, NodeValueKind::RenderPass)],
            NodeTemplate::Material => seq![("out"@, NodeValueKind::Material)],
            NodeTemplate::Primitive => seq![("out"@, NodeValueKind::Primitive)],
            NodeTemplate::ProceduralTexture => seq![("out"@, NodeValueKind::ProceduralTexture)],
            NodeTemplate::RayMarcher => seq![("out"@, NodeValueKind::RenderPass)],
            NodeTemplate::Scene => seq![("out"@, NodeValueKind::Scene)],
            NodeTemplate::Texture => seq![("out"@, NodeValueKind::RenderPass)],
        }
    }
}

} // verus!

verus! {

#[verifier::rlimit(50)]
fn axis_inputs() -> (r: Vec<InputLayout>)
    ensures
        layout_views(r@) == spec_axis_inputs(),
{
    let r = vec![
        InputLayout {
            name: "axis",
            kind: NodeValueKind::Mat4,
            param_kind: InputParamKind::ConnectionOrConstant,
            tooltip: AXIS_AXIS_TOOLTIP,
            hidden: false,
        },
        InputLayout {
            name: "translate",
            kind: NodeValueKind::Vec3,
            param_kind: InputParamKind::ConstantOnly,
            tooltip: AXIS_TRANSLATE_TOOLTIP,
            hidden: false,
        },
        InputLayout {
            name: "rotate",
            kind: NodeValueKind::Vec3,
            param_kind: InputParamKind::ConstantOnly,
            tooltip: AXIS_ROTATE_TOOLTIP,
            hidden: false,
        },
        InputLayout {
            name: "uniform_scale",
            kind: NodeValueKind::Float,
            param_kind: InputParamKind::ConstantOnly,
            tooltip: AXIS_UNIFORM_SCALE_TOOLTIP,
            hidden: false,
        },
    ];
    assert(layout_views(r@) =~= spec_axis_inputs());
    r
}

} // verus!

verus! {

#[verifier::rlimit(50)]
fn camera_inputs() -> (r: Vec<InputLayout>)
    ensures
        layout_views(r@) == spec_camera_inputs(),
{
    let r = vec![
        InputLayout {
            name: "focal_length",
            kind: NodeValueKind::Float,
            param_kind: InputParamKind::ConstantOnly,
            tooltip: CAMERA_FOCAL_LENGTH_TOOLTIP,
            hidden: false,
        },
        InputLayout {
            name: "focal_distance",
            kind: NodeValueKind::Float,
            param_kind: InputParamKind::ConstantOnly,
            tooltip: CAMERA_FOCAL_DISTANCE_TOOLTIP,
            hidden: false,
        },
        InputLayout {
            name: "f_stop",
            kind: NodeValueKind::Float,
            param_kind: InputParamKind::ConstantOnly,
            tooltip: CAMERA_F_STOP_TOOLTIP,
            hidden: false,
        },
        InputLayout {
            name: "horizontal_aperture",
            kind: NodeValueKind::Float,
            param_kind: InputParamKind::ConstantOnly,
            tooltip: CAMERA_HORIZONTAL_APERTURE_TOOLTIP,
            hidden: false,
        },
        InputLayout {
            name: "near_plane",
            kind: NodeValueKind::Float,
            param_kind: InputParamKind::ConstantOnly,
            tooltip: CAMERA_NEAR_PLANE_TOOLTIP,
            hidden: false,
        },
        InputLayout {
            name: "far_plane",
            kind: NodeValueKind::Float,
            param_kind: InputParamKind::ConstantOnly,
            tooltip: CAMERA_FAR_PLANE_TOOLTIP,
            hidden: false,
        },
        InputLayout {
            name: "sensor_resolution",
            kind: NodeValueKind::UVec2,
            param_kind: InputParamKind::ConstantOnly,
            tooltip: CAMERA_SENSOR_RESOLUTION_TOOLTIP,
            hidden: false,
        },
        InputLayout {
            name: "world_matrix",
            kind: NodeValueKind::Mat4,
            param_kind: InputParamKind::ConnectionOrConstant,
            tooltip: CAMERA_WORLD_MATRIX_TOOLTIP,
            hidden: false,
        },
        InputLayout {
            name: "enable_depth_of_field",
            kind: NodeValueKind::Bool,
            param_kind: InputParamKind::ConstantOnly,
            tooltip: CAMERA_ENABLE_DEPTH_OF_FIELD_TOOLTIP,
            hidden: false,
        },
        InputLayout {
            name: "latlong",
            kind: NodeValueKind::Bool,
            param_kind: InputParamKind::ConstantOnly,
            tooltip: CAMERA_LATLONG_TOOLTIP,
            hidden: false,
        },
    ];
    assert(layout_views(r@) =~= spec_camera_inputs());
    r
}

} // verus!

verus! {

#[verifier::rlimit(50)]
fn light_inputs() -> (r: Vec<InputLayout>)
    ensures
        layout_views(r@) == spec_light_inputs(),
{
    let r = vec![
        InputLayout {
            name: "lights",
            kind: NodeValueKind::Light,
            param_kind: InputParamKind::ConnectionOnly,
            tooltip: LIGHT_LIGHTS_TOOLTIP,
            hidden: false,
        },
        InputLayout {
            name: "world_matrix",
            kind: NodeValueKind::Mat4,
            param_kind: InputParamKind::ConnectionOrConstant,
            tooltip: LIGHT_WORLD_MATRIX_TOOLTIP,
            hidden: false,
        },
        InputLayout {
            name: "light_type",
            kind: NodeValueKind::ComboBox,
            param_kind: InputParamKind::ConstantOnly,
            tooltip: LIGHT_LIGHT_TYPE_TOOLTIP,
            hidden: false,
        },
        InputLayout {
            name: "direction",
            kind: NodeValueKind::Vec3,
            param_kind: InputParamKind::ConstantOnly,
            tooltip: LIGHT_DIRECTION_TOOLTIP,
            hidden: true,
        },
        InputLayout {
            name: "position",
            kind: NodeValueKind::Vec3,
            param_kind: InputParamKind::ConstantOnly,
            tooltip: LIGHT_POSITION_TOOLTIP,
            hidden: true,
        },
        InputLayout {
            name: "iterations",
            kind: NodeValueKind::UnsignedInteger,
            param_kind: InputParamKind::ConstantOnly,
            tooltip: LIGHT_ITERATIONS_TOOLTIP,
            hidden: false,
        },
        InputLayout {
            name: "intensity",
            kind: NodeValueKind::Float,
            param_kind: InputParamKind::ConstantOnly,
            tooltip: LIGHT_INTENSITY_TOOLTIP,
            hidden: false,
        },
        InputLayout {
            name: "falloff",
            kind: NodeValueKind::UnsignedInteger,
            param_kind: InputParamKind::ConstantOnly,
            tooltip: LIGHT_FALLOFF_TOOLTIP,
            hidden: false,
        },
        InputLayout {
            name: "colour",
            kind: NodeValueKind::Vec3,
            param_kind: InputParamKind::ConstantOnly,
            tooltip: LIGHT_COLOUR_TOOLTIP,
            hidden: false,
        },
        InputLayout {
            name: "shadow_hardness",
            kind: NodeValueKind::Float,
            param_kind: InputParamKind::ConstantOnly,
            tooltip: LIGHT_SHADOW_HARDNESS_TOOLTIP,
            hidden: false,
        },
        InputLayout {
            name: "soften_shadows",
            kind: NodeValueKind::Bool,
            param_kind: InputParamKind::ConstantOnly,
            tooltip: LIGHT_SOFTEN_SHADOWS_TOOLTIP,
            hidden: false,
        },
    ];
    assert(layout_views(r@) =~= spec_light_inputs());
    r
}

} // verus!

verus! {

#[verifier::rlimit(50)]
fn grade_inputs() -> (r: Vec<InputLayout>)
    ensures
        layout_views(r@) == spec_grade_inputs(),
{
    let r = vec![
        InputLayout {
            name: "texture",
            kind: NodeValueKind::RenderPass,
            param_kind: InputParamKind::ConnectionOnly,
            tooltip: GRADE_TEXTURE_TOOLTIP,
            hidden: false,
        },
        InputLayout {
            name: "black_point",
            kind: NodeValueKind::Float,
            param_kind: InputParamKind::ConstantOnly,
            tooltip: GRADE_BLACK_POINT_TOOLTIP,
            hidden: false,
        },
        InputLayout {
            name: "white_point",
            kind: NodeValueKind::Float,
            param_kind: InputParamKind::ConstantOnly,
            tooltip: GRADE_WHITE_POINT_TOOLTIP,
            hidden: false,
        },
        InputLayout {
            name: "lift",
            kind: NodeValueKind::Float,
            param_kind: InputParamKind::ConstantOnly,
            tooltip: GRADE_LIFT_TOOLTIP,
            hidden: false,
        },
        InputLayout {
            name: "gain",
            kind: NodeValueKind::Float,
            param_kind: InputParamKind::ConstantOnly,
            tooltip: GRADE_GAIN_TOOLTIP,
            hidden: false,
        },
        InputLayout {
            name: "gamma",
            kind: NodeValueKind::Float,
            param_kind: InputParamKind::ConstantOnly,
            tooltip: GRADE_GAMMA_TOOLTIP,
            hidden: false,
        },
        InputLayout {
            name: "invert",
            kind: NodeValueKind::Bool,
            param_kind: InputParamKind::ConstantOnly,
            tooltip: GRADE_INVERT_TOOLTIP,
            hidden: false,
        },
    ];
    assert(layout_views(r@) =~= spec_grade_inputs());
    r
}

} // verus!

verus! {

#[verifier::rlimit(50)]
fn material_inputs() -> (r: Vec<InputLayout>)
    ensures
        layout_views(r@) == spec_material_inputs(),
{
    let r = vec![
        InputLayout {
            name: "diffuse_colour",
            kind: NodeValueKind::Vec3,
            param_kind: InputParamKind::ConstantOnly,
            tooltip: MATERIAL_DIFFUSE_COLOUR_TOOLTIP,
            hidden: false,
        },
        InputLayout {
            name: "diffuse_colour_texture",
            kind: NodeValueKind::ProceduralTexture,
            param_kind: InputParamKind::ConnectionOnly,
            tooltip: MATERIAL_DIFFUSE_COLOUR_TEXTURE_TOOLTIP,
            hidden: false,
        },
        InputLayout {
            name: "specular_probability",
            kind: NodeValueKind::Float,
            param_kind: InputParamKind::ConstantOnly,
            tooltip: MATERIAL_SPECULAR_PROBABILITY_TOOLTIP,
            hidden: false,
        },
        InputLayout {
            name: "specular_probability_texture",
            kind: NodeValueKind::ProceduralTexture,
            param_kind: InputParamKind::ConnectionOnly,
            tooltip: MATERIAL_SPECULAR_PROBABILITY_TEXTURE_TOOLTIP,
            hidden: false,
        },
        InputLayout {
            name: "specular_roughness",
            kind: NodeValueKind::Float,
            param_kind: InputParamKind::ConstantOnly,
            tooltip: MATERIAL_SPECULAR_ROUGHNESS_TOOLTIP,
            hidden: false,
        },
        InputLayout {
            name: "specular_roughness_texture",
            kind: NodeValueKind::ProceduralTexture,
            param_kind: InputParamKind::ConnectionOnly,
            tooltip: MATERIAL_SPECULAR_ROUGHNESS_TEXTURE_TOOLTIP,
            hidden: false,
        },
        InputLayout {
            name: "specular_colour",
            kind: NodeValueKind::Vec3,
            param_kind: InputParamKind::ConstantOnly,
            tooltip: MATERIAL_SPECULAR_COLOUR_TOOLTIP,
            hidden: false,
        },
        InputLayout {
            name: "specular_colour_texture",
            kind: NodeValueKind::ProceduralTexture,
            param_kind: InputParamKind::ConnectionOnly,
            tooltip: MATERIAL_SPECULAR_COLOUR_TEXTURE_TOOLTIP,
            hidden: false,
        },
        InputLayout {
            name: "transmissive_probability",
            kind: NodeValueKind::Float,
            param_kind: InputParamKind::ConstantOnly,
            tooltip: MATERIAL_TRANSMISSIVE_PROBABILITY_TOOLTIP,
            hidden: false,
        },
        InputLayout {
            name: "transmissive_probability_texture",
            kind: NodeValueKind::ProceduralTexture,
            param_kind: InputParamKind::ConnectionOnly,
            tooltip: MATERIAL_TRANSMISSIVE_PROBABILITY_TEXTURE_TOOLTIP,
            hidden: false,
        },
        InputLayout {
            name: "transmissive_roughness",
            kind: NodeValueKind::Float,
            param_kind: InputParamKind::ConstantOnly,
            tooltip: MATERIAL_TRANSMISSIVE_ROUGHNESS_TOOLTIP,
            hidden: false,
        },
        InputLayout {
            name: "transmissive_roughness_texture",
            kind: NodeValueKind::ProceduralTexture,
            param_kind: InputParamKind::ConnectionOnly,
            tooltip: MATERIAL_TRANSMISSIVE_ROUGHNESS_TEXTURE_TOOLTIP,
            hidden: false,
        },
        InputLayout {
            name: "extinction_coefficient",
            kind: NodeValueKind::Float,
            param_kind: InputParamKind::ConstantOnly,
            tooltip: MATERIAL_EXTINCTION_COEFFICIENT_TOOLTIP,
            hidden: false,
        },
        InputLayout {
            name: "transmissive_colour",
            kind: NodeValueKind::Vec3,
            param_kind: InputParamKind::ConstantOnly,
            tooltip: MATERIAL_TRANSMISSIVE_COLOUR_TOOLTIP,
            hidden: false,
        },
        InputLayout {
            name: "transmissive_colour_texture",
            kind: NodeValueKind::ProceduralTexture,
            param_kind: InputParamKind::ConnectionOnly,
            tooltip: MATERIAL_TRANSMISSIVE_COLOUR_TEXTURE_TOOLTIP,
            hidden: false,
        },
        InputLayout {
            name: "emissive_intensity",
            kind: NodeValueKind::Float,
            param_kind: InputParamKind::ConstantOnly,
            tooltip: MATERIAL_EMISSIVE_INTENSITY_TOOLTIP,
            hidden: false,
        },
        InputLayout {
            name: "emissive_colour",
            kind: NodeValueKind::Vec3,
            param_kind: InputParamKind::ConstantOnly,
            tooltip: MATERIAL_EMISSIVE_COLOUR_TOOLTIP,
            hidden: false,
        },
        InputLayout {
            name: "emissive_colour_texture",
            kind: NodeValueKind::ProceduralTexture,
            param_kind: InputParamKind::ConnectionOnly,
            tooltip: MATERIAL_EMISSIVE_COLOUR_TEXTURE_TOOLTIP,
            hidden: false,
        },
        InputLayout {
            name: "refractive_index",
            kind: NodeValueKind::Float,
            param_kind: InputParamKind::ConstantOnly,
            tooltip: MATERIAL_REFRACTIVE_INDEX_TOOLTIP,
            hidden: false,
        },
        InputLayout {
            name: "refractive_index_texture",
            kind: NodeValueKind::ProceduralTexture,
            param_kind: InputParamKind::ConnectionOnly,
            tooltip: MATERIAL_REFRACTIVE_INDEX_TEXTURE_TOOLTIP,
            hidden: false,
        },
        InputLayout {
            name: "scattering_coefficient",
            kind: NodeValueKind::Float,
            param_kind: InputParamKind::ConstantOnly,
            tooltip: MATERIAL_SCATTERING_COEFFICIENT_TOOLTIP,
            hidden: false,
        },
        InputLayout {
            name: "scattering_colour",
            kind: NodeValueKind::Vec3,
            param_kind: InputParamKind::ConstantOnly,
            tooltip: MATERIAL_SCATTERING_COLOUR_TOOLTIP,
            hidden: false,
        },
        InputLayout {
            name: "scattering_colour_texture",
            kind: NodeValueKind::ProceduralTexture,
            param_kind: InputParamKind::ConnectionOnly,
            tooltip: MATERIAL_SCATTERING_COLOUR_TEXTURE_TOOLTIP,
            hidden: false,
        },
    ];
    assert(layout_views(r@) =~= spec_material_inputs());
    r
}

} // verus!

verus! {

#[verifier::rlimit(50)]
fn primitive_inputs() -> (r: Vec<InputLayout>)
    ensures
        layout_views(r@) == spec_primitive_inputs(),
{
    let r = vec![
        InputLayout {
            name: "siblings",
            kind: NodeValueKind::Primitive,
            param_kind: InputParamKind::ConnectionOnly,
            tooltip: PRIMITIVE_SIBLINGS_TOOLTIP,
            hidden: false,
        },
        InputLayout {
            name: "children",
            kind: NodeValueKind::Primitive,
            param_kind: InputParamKind::ConnectionOnly,
            tooltip: PRIMITIVE_CHILDREN_TOOLTIP,
            hidden: false,
        },
        InputLayout {
            name: "material",
            kind: NodeValueKind::Material,
            param_kind: InputParamKind::ConnectionOnly,
            tooltip: PRIMITIVE_MATERIAL_TOOLTIP,
            hidden: false,
        },
        InputLayout {
            name: "shape",
            kind: NodeValueKind::ComboBox,
            param_kind: InputParamKind::ConstantOnly,
            tooltip: PRIMITIVE_SHAPE_TOOLTIP,
            hidden: false,
        },
        InputLayout {
            name: "radius",
            kind: NodeValueKind::Float,
            param_kind: InputParamKind::ConstantOnly,
            tooltip: PRIMITIVE_RADIUS_TOOLTIP,
            hidden: false,
        },
        InputLayout {
            name: "radii",
            kind: NodeValueKind::Vec3,
            param_kind: InputParamKind::ConstantOnly,
            tooltip: PRIMITIVE_RADII_TOOLTIP,
            hidden: true,
        },
        InputLayout {
            name: "height",
            kind: NodeValueKind::Float,
            param_kind: InputParamKind::ConstantOnly,
            tooltip: PRIMITIVE_HEIGHT_TOOLTIP,
            hidden: true,
        },
        InputLayout {
            name: "hollow_radius",
            kind: NodeValueKind::Float,
            param_kind: InputParamKind::ConstantOnly,
            tooltip: PRIMITIVE_HOLLOW_RADIUS_TOOLTIP,
            hidden: true,
        },
        InputLayout {
            name: "hollow_height",
            kind: NodeValueKind::Float,
            param_kind: InputParamKind::ConstantOnly,
            tooltip: PRIMITIVE_HOLLOW_HEIGHT_TOOLTIP,
            hidden: true,
        },
        InputLayout {
            name: "solid_angle",
            kind: NodeValueKind::Float,
            param_kind: InputParamKind::ConstantOnly,
            tooltip: PRIMITIVE_SOLID_ANGLE_TOOLTIP,
            hidden: true,
        },
        InputLayout {
            name: "width",
            kind: NodeValueKind::Float,
            param_kind: InputParamKind::ConstantOnly,
            tooltip: PRIMITIVE_WIDTH_TOOLTIP,
            hidden: true,
        },
        InputLayout {
            name: "depth",
            kind: NodeValueKind::Float,
            param_kind: InputParamKind::ConstantOnly,
            tooltip: PRIMITIVE_DEPTH_TOOLTIP,
            hidden: true,
        },
        InputLayout {
            name: "thickness",
            kind: NodeValueKind::Float,
            param_kind: InputParamKind::ConstantOnly,
            tooltip: PRIMITIVE_THICKNESS_TOOLTIP,
            hidden: true,
        },
        InputLayout {
            name: "corner_radius",
            kind: NodeValueKind::Float,
            param_kind: InputParamKind::ConstantOnly,
            tooltip: PRIMITIVE_CORNER_RADIUS_TOOLTIP,
            hidden: true,
        },
        InputLayout {
            name: "base",
            kind: NodeValueKind::Float,
            param_kind: InputParamKind::ConstantOnly,
            tooltip: PRIMITIVE_BASE_TOOLTIP,
            hidden: true,
        },
        InputLayout {
            name: "normal",
            kind: NodeValueKind::Vec3,
            param_kind: InputParamKind::ConstantOnly,
            tooltip: PRIMITIVE_NORMAL_TOOLTIP,
            hidden: true,
        },
        InputLayout {
            name: "negative_height",
            kind: NodeValueKind::Float,
            param_kind: InputParamKind::ConstantOnly,
            tooltip: PRIMITIVE_NEGATIVE_HEIGHT_TOOLTIP,
            hidden: true,
        },
        InputLayout {
            name: "positive_height",
            kind: NodeValueKind::Float,
            param_kind: InputParamKind::ConstantOnly,
            tooltip: PRIMITIVE_POSITIVE_HEIGHT_TOOLTIP,
            hidden: true,
        },
        InputLayout {
            name: "angle",
            kind: NodeValueKind::Float,
            param_kind: InputParamKind::ConstantOnly,
            tooltip: PRIMITIVE_ANGLE_TOOLTIP,
            hidden: true,
        },
        InputLayout {
            name: "lower_radius",
            kind: NodeValueKind::Float,
            param_kind: InputParamKind::ConstantOnly,
            tooltip: PRIMITIVE_LOWER_RADIUS_TOOLTIP,
            hidden: true,
        },
        InputLayout {
            name: "upper_radius",
            kind: NodeValueKind::Float,
            param_kind: InputParamKind::ConstantOnly,
            tooltip: PRIMITIVE_UPPER_RADIUS_TOOLTIP,
            hidden: true,
        },
        InputLayout {
            name: "ring_radius",
            kind: NodeValueKind::Float,
            param_kind: InputParamKind::ConstantOnly,
            tooltip: PRIMITIVE_RING_RADIUS_TOOLTIP,
            hidden: true,
        },
        InputLayout {
            name: "tube_radius",
            kind: NodeValueKind::Float,
            param_kind: InputParamKind::ConstantOnly,
            tooltip: PRIMITIVE_TUBE_RADIUS_TOOLTIP,
            hidden: true,
        },
        InputLayout {
            name: "cap_angle",
            kind: NodeValueKind::Float,
            param_kind: InputParamKind::ConstantOnly,
            tooltip: PRIMITIVE_CAP_ANGLE_TOOLTIP,
            hidden: true,
        },
        InputLayout {
            name: "radial_extent",
            kind: NodeValueKind::Float,
            param_kind: InputParamKind::ConstantOnly,
            tooltip: PRIMITIVE_RADIAL_EXTENT_TOOLTIP,
            hidden: true,
        },
        InputLayout {
            name: "power",
            kind: NodeValueKind::Float,
            param_kind: InputParamKind::ConstantOnly,
            tooltip: PRIMITIVE_POWER_TOOLTIP,
            hidden: true,
        },
        InputLayout {
            name: "iterations",
            kind: NodeValueKind::UnsignedInteger,
            param_kind: InputParamKind::ConstantOnly,
            tooltip: PRIMITIVE_ITERATIONS_TOOLTIP,
            hidden: true,
        },
        InputLayout {
            name: "max_square_radius",
            kind: NodeValueKind::Float,
            param_kind: InputParamKind::ConstantOnly,
            tooltip: PRIMITIVE_MAX_SQUARE_RADIUS_TOOLTIP,
            hidden: true,
        },
        InputLayout {
            name: "scale",
            kind: NodeValueKind::Float,
            param_kind: InputParamKind::ConstantOnly,
            tooltip: PRIMITIVE_SCALE_TOOLTIP,
            hidden: true,
        },
        InputLayout {
            name: "min_square_radius",
            kind: NodeValueKind::Float,
            param_kind: InputParamKind::ConstantOnly,
            tooltip: PRIMITIVE_MIN_SQUARE_RADIUS_TOOLTIP,
            hidden: true,
        },
        InputLayout {
            name: "folding_limit",
            kind: NodeValueKind::Float,
            param_kind: InputParamKind::ConstantOnly,
            tooltip: PRIMITIVE_FOLDING_LIMIT_TOOLTIP,
            hidden: true,
        },
        InputLayout {
            name: "world_matrix",
            kind: NodeValueKind::Mat4,
            param_kind: InputParamKind::ConnectionOrConstant,
            tooltip: PRIMITIVE_WORLD_MATRIX_TOOLTIP,
            hidden: false,
        },
        InputLayout {
            name: "edge_radius",
            kind: NodeValueKind::Float,
            param_kind: InputParamKind::ConstantOnly,
            tooltip: PRIMITIVE_EDGE_RADIUS_TOOLTIP,
            hidden: false,
        },
        InputLayout {
            name: "repetition",
            kind: NodeValueKind::ComboBox,
            param_kind: InputParamKind::ConstantOnly,
            tooltip: PRIMITIVE_REPETITION_TOOLTIP,
            hidden: false,
        },
        InputLayout {
            name: "negative_repetitions",
            kind: NodeValueKind::UVec3,
            param_kind: InputParamKind::ConstantOnly,
            tooltip: PRIMITIVE_NEGATIVE_REPETITIONS_TOOLTIP,
            hidden: true,
        },
        InputLayout {
            name: "positive_repetitions",
            kind: NodeValueKind::UVec3,
            param_kind: InputParamKind::ConstantOnly,
            tooltip: PRIMITIVE_POSITIVE_REPETITIONS_TOOLTIP,
            hidden: true,
        },
        InputLayout {
            name: "spacing",
            kind: NodeValueKind::Vec3,
            param_kind: InputParamKind::ConstantOnly,
            tooltip: PRIMITIVE_SPACING_TOOLTIP,
            hidden: true,
        },
        InputLayout {
            name: "bounding_volume",
            kind: NodeValueKind::Bool,
            param_kind: InputParamKind::ConstantOnly,
            tooltip: PRIMITIVE_BOUNDING_VOLUME_TOOLTIP,
            hidden: false,
        },
        InputLayout {
            name: "blend_type",
            kind: NodeValueKind::ComboBox,
            param_kind: InputParamKind::ConstantOnly,
            tooltip: PRIMITIVE_BLEND_TYPE_TOOLTIP,
            hidden: false,
        },
        InputLayout {
            name: "blend_strength",
            kind: NodeValueKind::Float,
            param_kind: InputParamKind::ConstantOnly,
            tooltip: PRIMITIVE_BLEND_STRENGTH_TOOLTIP,
            hidden: false,
        },
        InputLayout {
            name: "mirror",
            kind: NodeValueKind::BVec3,
            param_kind: InputParamKind::ConstantOnly,
            tooltip: PRIMITIVE_MIRROR_TOOLTIP,
            hidden: false,
        },
        InputLayout {
            name: "hollow",
            kind: NodeValueKind::Bool,
            param_kind: InputParamKind::ConstantOnly,
            tooltip: PRIMITIVE_HOLLOW_TOOLTIP,
            hidden: false,
        },
        InputLayout {
            name: "wall_thickness",
            kind: NodeValueKind::Float,
            param_kind: InputParamKind::ConstantOnly,
            tooltip: PRIMITIVE_WALL_THICKNESS_TOOLTIP,
            hidden: true,
        },
        InputLayout {
            name: "elongate",
            kind: NodeValueKind::Bool,
            param_kind: InputParamKind::ConstantOnly,
            tooltip: PRIMITIVE_ELONGATE_TOOLTIP,
            hidden: false,
        },
        InputLayout {
            name: "elongation",
            kind: NodeValueKind::Vec3,
            param_kind: InputParamKind::ConstantOnly,
            tooltip: PRIMITIVE_ELONGATION_TOOLTIP,
            hidden: true,
        },
    ];
    assert(layout_views(r@) =~= spec_primitive_inputs());
    r
}

} // verus!

verus! {

#[verifier::rlimit(50)]
fn procedural_texture_inputs() -> (r: Vec<InputLayout>)
    ensures
        layout_views(r@) == spec_procedural_texture_inputs(),
{
    let r = vec![
        InputLayout {
            name: "texture_type",
            kind: NodeValueKind::ComboBox,
            param_kind: InputParamKind::ConstantOnly,
            tooltip: PROCEDURAL_TEXTURE_TEXTURE_TYPE_TOOLTIP,
            hidden: false,
        },
        InputLayout {
            name: "scale",
            kind: NodeValueKind::Vec4,
            param_kind: InputParamKind::ConstantOnly,
            tooltip: PROCEDURAL_TEXTURE_SCALE_TOOLTIP,
            hidden: true,
        },
        InputLayout {
            name: "black_point",
            kind: NodeValueKind::Float,
            param_kind: InputParamKind::ConstantOnly,
            tooltip: PROCEDURAL_TEXTURE_BLACK_POINT_TOOLTIP,
            hidden: true,
        },
        InputLayout {
            name: "white_point",
            kind: NodeValueKind::Float,
            param_kind: InputParamKind::ConstantOnly,
            tooltip: PROCEDURAL_TEXTURE_WHITE_POINT_TOOLTIP,
            hidden: true,
        },
        InputLayout {
            name: "lift",
            kind: NodeValueKind::Float,
            param_kind: InputParamKind::ConstantOnly,
            tooltip: PROCEDURAL_TEXTURE_LIFT_TOOLTIP,
            hidden: true,
        },
        InputLayout {
            name: "gain",
            kind: NodeValueKind::Float,
            param_kind: InputParamKind::ConstantOnly,
            tooltip: PROCEDURAL_TEXTURE_GAIN_TOOLTIP,
            hidden: true,
        },
        InputLayout {
            name: "octaves",
            kind: NodeValueKind::UnsignedInteger,
            param_kind: InputParamKind::ConstantOnly,
            tooltip: PROCEDURAL_TEXTURE_OCTAVES_TOOLTIP,
            hidden: true,
        },
        InputLayout {
            name: "lacunarity",
            kind: NodeValueKind::Float,
            param_kind: InputParamKind::ConstantOnly,
            tooltip: PROCEDURAL_TEXTURE_LACUNARITY_TOOLTIP,
            hidden: true,
        },
        InputLayout {
            name: "amplitude_gain",
            kind: NodeValueKind::Float,
            param_kind: InputParamKind::ConstantOnly,
            tooltip: PROCEDURAL_TEXTURE_AMPLITUDE_GAIN_TOOLTIP,
            hidden: true,
        },
        InputLayout {
            name: "gamma",
            kind: NodeValueKind::Float,
            param_kind: InputParamKind::ConstantOnly,
            tooltip: PROCEDURAL_TEXTURE_GAMMA_TOOLTIP,
            hidden: true,
        },
        InputLayout {
            name: "low_frequency_scale",
            kind: NodeValueKind::Vec4,
            param_kind: InputParamKind::ConstantOnly,
            tooltip: PROCEDURAL_TEXTURE_LOW_FREQUENCY_SCALE_TOOLTIP,
            hidden: true,
        },
        InputLayout {
            name: "high_frequency_scale",
            kind: NodeValueKind::Vec4,
            param_kind: InputParamKind::ConstantOnly,
            tooltip: PROCEDURAL_TEXTURE_HIGH_FREQUENCY_SCALE_TOOLTIP,
            hidden: true,
        },
        InputLayout {
            name: "low_frequency_translation",
            kind: NodeValueKind::Vec4,
            param_kind: InputParamKind::ConstantOnly,
            tooltip: PROCEDURAL_TEXTURE_LOW_FREQUENCY_TRANSLATION_TOOLTIP,
            hidden: true,
        },
        InputLayout {
            name: "high_frequency_translation",
            kind: NodeValueKind::Vec4,
            param_kind: InputParamKind::ConstantOnly,
            tooltip: PROCEDURAL_TEXTURE_HIGH_FREQUENCY_TRANSLATION_TOOLTIP,
            hidden: true,
        },
        InputLayout {
            name: "invert",
            kind: NodeValueKind::Bool,
            param_kind: InputParamKind::ConstantOnly,
            tooltip: PROCEDURAL_TEXTURE_INVERT_TOOLTIP,
            hidden: true,
        },
        InputLayout {
            name: "use_trap_colour",
            kind: NodeValueKind::Bool,
            param_kind: InputParamKind::ConstantOnly,
            tooltip: PROCEDURAL_TEXTURE_USE_TRAP_COLOUR_TOOLTIP,
            hidden: true,
        },
        InputLayout {
            name: "hue_rotation_angles",
            kind: NodeValueKind::Vec3,
            param_kind: InputParamKind::ConstantOnly,
            tooltip: PROCEDURAL_TEXTURE_HUE_ROTATION_ANGLES_TOOLTIP,
            hidden: true,
        },
    ];
    assert(layout_views(r@) =~= spec_procedural_texture_inputs());
    r
}

} // verus!

verus! {

#[verifier::rlimit(50)]
fn ray_marcher_inputs() -> (r: Vec<InputLayout>)
    ensures
        layout_views(r@) == spec_ray_marcher_inputs(),
{
    let r = vec![
        InputLayout {
            name: "scene",
            kind: NodeValueKind::Scene,
            param_kind: InputParamKind::ConnectionOnly,
            tooltip: RAY_MARCHER_SCENE_TOOLTIP,
            hidden: false,
        },
        InputLayout {
            name: "max_ray_steps",
            kind: NodeValueKind::UnsignedInteger,
            param_kind: InputParamKind::ConstantOnly,
            tooltip: RAY_MARCHER_MAX_RAY_STEPS_TOOLTIP,
            hidden: false,
        },
        InputLayout {
            name: "max_bounces",
            kind: NodeValueKind::UnsignedInteger,
            param_kind: InputParamKind::ConstantOnly,
            tooltip: RAY_MARCHER_MAX_BOUNCES_TOOLTIP,
            hidden: false,
        },
        InputLayout {
            name: "hit_tolerance",
            kind: NodeValueKind::Float,
            param_kind: InputParamKind::ConstantOnly,
            tooltip: RAY_MARCHER_HIT_TOLERANCE_TOOLTIP,
            hidden: false,
        },
        InputLayout {
            name: "shadow_bias",
            kind: NodeValueKind::Float,
            param_kind: InputParamKind::ConstantOnly,
            tooltip: RAY_MARCHER_SHADOW_BIAS_TOOLTIP,
            hidden: false,
        },
        InputLayout {
            name: "max_brightness",
            kind: NodeValueKind::Float,
            param_kind: InputParamKind::ConstantOnly,
            tooltip: RAY_MARCHER_MAX_BRIGHTNESS_TOOLTIP,
            hidden: false,
        },
        InputLayout {
            name: "seed",
            kind: NodeValueKind::UnsignedInteger,
            param_kind: InputParamKind::ConstantOnly,
            tooltip: RAY_MARCHER_SEED_TOOLTIP,
            hidden: false,
        },
        InputLayout {
            name: "dynamic_level_of_detail",
            kind: NodeValueKind::Bool,
            param_kind: InputParamKind::ConstantOnly,
            tooltip: RAY_MARCHER_DYNAMIC_LEVEL_OF_DETAIL_TOOLTIP,
            hidden: false,
        },
        InputLayout {
            name: "equiangular_samples",
            kind: NodeValueKind::UnsignedInteger,
            param_kind: InputParamKind::ConstantOnly,
            tooltip: RAY_MARCHER_EQUIANGULAR_SAMPLES_TOOLTIP,
            hidden: false,
        },
        InputLayout {
            name: "light_sampling",
            kind: NodeValueKind::Bool,
            param_kind: InputParamKind::ConstantOnly,
            tooltip: RAY_MARCHER_LIGHT_SAMPLING_TOOLTIP,
            hidden: false,
        },
        InputLayout {
            name: "max_light_sampling_bounces",
            kind: NodeValueKind::UnsignedInteger,
            param_kind: InputParamKind::ConstantOnly,
            tooltip: RAY_MARCHER_MAX_LIGHT_SAMPLING_BOUNCES_TOOLTIP,
            hidden: true,
        },
        InputLayout {
            name: "sample_atmosphere",
            kind: NodeValueKind::Bool,
            param_kind: InputParamKind::ConstantOnly,
            tooltip: RAY_MARCHER_SAMPLE_ATMOSPHERE_TOOLTIP,
            hidden: true,
        },
        InputLayout {
            name: "light_sampling_bias",
            kind: NodeValueKind::Float,
            param_kind: InputParamKind::ConstantOnly,
            tooltip: RAY_MARCHER_LIGHT_SAMPLING_BIAS_TOOLTIP,
            hidden: true,
        },
        InputLayout {
            name: "secondary_sampling",
            kind: NodeValueKind::Bool,
            param_kind: InputParamKind::ConstantOnly,
            tooltip: RAY_MARCHER_SECONDARY_SAMPLING_TOOLTIP,
            hidden: true,
        },
        InputLayout {
            name: "output_aov",
            kind: NodeValueKind::ComboBox,
            param_kind: InputParamKind::ConstantOnly,
            tooltip: RAY_MARCHER_OUTPUT_AOV_TOOLTIP,
            hidden: false,
        },
    ];
    assert(layout_views(r@) =~= spec_ray_marcher_inputs());
    r
}

} // verus!

verus! {

#[verifier::rlimit(50)]
fn scene_inputs() -> (r: Vec<InputLayout>)
    ensures
        layout_views(r@) == spec_scene_inputs(),
{
    let r = vec![
        InputLayout {
            name: "render_camera",
            kind: NodeValueKind::Camera,
            param_kind: InputParamKind::ConnectionOnly,
            tooltip: SCENE_RENDER_CAMERA_TOOLTIP,
            hidden: false,
        },
        InputLayout {
            name: "primitives",
            kind: NodeValueKind::Primitive,
            param_kind: InputParamKind::ConnectionOnly,
            tooltip: SCENE_PRIMITIVES_TOOLTIP,
            hidden: false,
        },
        InputLayout {
            name: "lights",
            kind: NodeValueKind::Light,
            param_kind: InputParamKind::ConnectionOnly,
            tooltip: SCENE_LIGHTS_TOOLTIP,
            hidden: false,
        },
        InputLayout {
            name: "atmosphere",
            kind: NodeValueKind::Material,
            param_kind: InputParamKind::ConnectionOnly,
            tooltip: SCENE_ATMOSPHERE_TOOLTIP,
            hidden: false,
        },
    ];
    assert(layout_views(r@) =~= spec_scene_inputs());
    r
}

} // verus!

verus! {

#[verifier::rlimit(50)]
fn texture_inputs() -> (r: Vec<InputLayout>)
    ensures
        layout_views(r@) == spec_texture_inputs(),
{
    let r = vec![
        InputLayout {
            name: "filepath",
            kind: NodeValueKind::Filepath,
            param_kind: InputParamKind::ConstantOnly,
            tooltip: TEXTURE_FILEPATH_TOOLTIP,
            hidden: false,
        },
    ];
    assert(layout_views(r@) =~= spec_texture_inputs());
    r
}

} // verus!

verus! {

impl NodeTemplate {
    /// The inputs a node built from the template starts with, in order:
    /// the parameters that its builder adds to the graph.
    pub fn inputs(&self) -> (r: Vec<InputLayout>)
        ensures
            layout_views(r@) == self.spec_inputs(),
    {
        match self {
            NodeTemplate::Axis => axis_inputs(),
            NodeTemplate::Camera => camera_inputs(),
            NodeTemplate::Light => light_inputs(),
            NodeTemplate::Grade => grade_inputs(),
            NodeTemplate::Material => material_inputs(),
            NodeTemplate::Primitive => primitive_inputs(),
            NodeTemplate::ProceduralTexture => procedural_texture_inputs(),
            NodeTemplate::RayMarcher => ray_marcher_inputs(),
            NodeTemplate::Scene => scene_inputs(),
            NodeTemplate::Texture => texture_inputs(),
        }
    }

    /// The outputs of a node built from the template.
    pub fn outputs(&self) -> (r: Vec<(&'static str, NodeValueKind)>)
        ensures
            output_views(r@) == self.spec_outputs(),
    {
        let r = match self {
            NodeTemplate::Axis => vec![("out", NodeValueKind::Mat4)],
            NodeTemplate::Camera => vec![("out", NodeValueKind::Camera)],
            NodeTemplate::Light => vec![("out", NodeValueKind::Light)],
            NodeTemplate::Grade => vec![("out", NodeValueKind::RenderPass)],
            NodeTemplate::Material => vec![("out", NodeValueKind::Material)],
            NodeTemplate::Primitive => vec![("out", NodeValueKind::Primitive)],
            NodeTemplate::ProceduralTexture => vec![("out", NodeValueKind::ProceduralTexture)],
            NodeTemplate::RayMarcher => vec![("out", NodeValueKind::RenderPass)],
            NodeTemplate::Scene => vec![("out", NodeValueKind::Scene)],
            NodeTemplate::Texture => vec![("out", NodeValueKind::RenderPass)],
        };
        assert(output_views(r@) =~= self.spec_outputs());
        r
    }
}

} // verus!

verus! {

/// `name` is an input of the layout whose visibility can change.
pub open spec fn spec_is_toggleable_input(inputs: Seq<InputView>, name: Seq<char>) -> bool {
    exists|i: int|
        0 <= i < inputs.len() && #[trigger] inputs[i].0 == name && inputs[i].1.spec_toggles_visibility()
}

/// The names the callbacks of a primitive node may show or hide.
pub open spec fn spec_primitive_callback_names() -> Seq<Seq<char>> {
    spec_shape_parameter_names() + seq!["negative_repetitions"@, "positive_repetitions"@, "spacing"@, "wall_thickness"@, "elongation"@, "blend_type"@, "blend_strength"@]
}

/// The names the callbacks of a procedural texture node may show or hide.
pub open spec fn spec_texture_callback_names() -> Seq<Seq<char>> {
    spec_all_texture_names() + seq!["use_trap_colour"@, "hue_rotation_angles"@]
}

/// Every name the primitive callbacks know is an input of a primitive node
/// whose visibility can change.
pub proof fn lemma_primitive_callback_names_are_inputs()
    ensures
        forall|n: Seq<char>| #[trigger] spec_primitive_callback_names().contains(n)
            ==> spec_is_toggleable_input(spec_primitive_inputs(), n),
{
    let inputs = spec_primitive_inputs();
    let names = spec_primitive_callback_names();
    assert forall|n: Seq<char>| names.contains(n) implies spec_is_toggleable_input(inputs, n) by {
        let k = choose|k: int| 0 <= k < names.len() && names[k] == n;
        if k == 0 {
            assert(inputs[4].0 == n);
        }
        if k == 1 {
            assert(inputs[5].0 == n);
        }
        if k == 2 {
            assert(inputs[6].0 == n);
        }
        if k == 3 {
            assert(inputs[12].0 == n);
        }
        if k == 4 {
            assert(inputs[7].0 == n);
        }
        if k == 5 {
            assert(inputs[8].0 == n);
        }
        if k == 6 {
            assert(inputs[9].0 == n);
        }
        if k == 7 {
            assert(inputs[10].0 == n);
        }
        if k == 8 {
            assert(inputs[11].0 == n);
        }
        if k == 9 {
            assert(inputs[13].0 == n);
        }
        if k == 10 {
            assert(inputs[14].0 == n);
        }
        if k == 11 {
            assert(inputs[15].0 == n);
        }
        if k == 12 {
            assert(inputs[16].0 == n);
        }
        if k == 13 {
            assert(inputs[17].0 == n);
        }
        if k == 14 {
            assert(inputs[18].0 == n);
        }
        if k == 15 {
            assert(inputs[19].0 == n);
        }
        if k == 16 {
            assert(inputs[20].0 == n);
        }
        if k == 17 {
            assert(inputs[21].0 == n);
        }
        if k == 18 {
            assert(inputs[22].0 == n);
        }
        if k == 19 {
            assert(inputs[23].0 == n);
        }
        if k == 20 {
            assert(inputs[24].0 == n);
        }
        if k == 21 {
            assert(inputs[25].0 == n);
        }
        if k == 22 {
            assert(inputs[26].0 == n);
        }
        if k == 23 {
            assert(inputs[27].0 == n);
        }
        if k == 24 {
            assert(inputs[28].0 == n);
        }
        if k == 25 {
            assert(inputs[29].0 == n);
        }
        if k == 26 {
            assert(inputs[30].0 == n);
        }
        if k == 27 {
            assert(inputs[34].0 == n);
        }
        if k == 28 {
            assert(inputs[35].0 == n);
        }
        if k == 29 {
            assert(inputs[36].0 == n);
        }
        if k == 30 {
            assert(inputs[42].0 == n);
        }
        if k == 31 {
            assert(inputs[44].0 == n);
        }
        if k == 32 {
            assert(inputs[38].0 == n);
        }
        if k == 33 {
            assert(inputs[39].0 == n);
        }
    }
}

/// The names the callbacks of a light node may show or hide.
pub open spec fn spec_light_callback_names() -> Seq<Seq<char>> {
    seq!["direction"@, "iterations"@, "position"@]
}

/// Every name the light callbacks know is an input of a light node whose
/// visibility can change.
pub proof fn lemma_light_callback_names_are_inputs()
    ensures
        forall|n: Seq<char>| #[trigger] spec_light_callback_names().contains(n)
            ==> spec_is_toggleable_input(spec_light_inputs(), n),
{
    let inputs = spec_light_inputs();
    let names = spec_light_callback_names();
    assert forall|n: Seq<char>| names.contains(n) implies spec_is_toggleable_input(inputs, n) by {
        let k = choose|k: int| 0 <= k < names.len() && names[k] == n;
        if k == 0 {
            assert(inputs[3].0 == n);
        }
        if k == 1 {
            assert(inputs[5].0 == n);
        }
        if k == 2 {
            assert(inputs[4].0 == n);
        }
    }
}

/// Every name the procedural texture callbacks know is an input of a
/// procedural texture node whose visibility can change.
pub proof fn lemma_texture_callback_names_are_inputs()
    ensures
        forall|n: Seq<char>| #[trigger] spec_texture_callback_names().contains(n)
            ==> spec_is_toggleable_input(spec_procedural_texture_inputs(), n),
{
    let inputs = spec_procedural_texture_inputs();
    let names = spec_texture_callback_names();
    assert forall|n: Seq<char>| names.contains(n) implies spec_is_toggleable_input(inputs, n) by {
        let k = choose|k: int| 0 <= k < names.len() && names[k] == n;
        if k == 0 {
            assert(inputs[1].0 == n);
        }
        if k == 1 {
            assert(inputs[2].0 == n);
        }
        if k == 2 {
            assert(inputs[3].0 == n);
        }
        if k == 3 {
            assert(inputs[4].0 == n);
        }
        if k == 4 {
            assert(inputs[5].0 == n);
        }
        if k == 5 {
            assert(inputs[6].0 == n);
        }
        if k == 6 {
            assert(inputs[7].0 == n);
        }
        if k == 7 {
            assert(inputs[8].0 == n);
        }
        if k == 8 {
            assert(inputs[9].0 == n);
        }
        if k == 9 {
            assert(inputs[10].0 == n);
        }
        if k == 10 {
            assert(inputs[11].0 == n);
        }
        if k == 11 {
            assert(inputs[12].0 == n);
        }
        if k == 12 {
            assert(inputs[13].0 == n);
        }
        if k == 13 {
            assert(inputs[14].0 == n);
        }
        if k == 14 {
            assert(inputs[15].0 == n);
        }
        if k == 15 {
            assert(inputs[16].0 == n);
        }
    }
}

proof fn lemma_sphere_names()
    ensures
        spec_shape_names("Sphere"@) == seq!["radius"@],
{
    reveal_strlit("Sphere");
    reveal_strlit("CappedCone");
    assert("Sphere"@.len() != "CappedCone"@.len());
    reveal_strlit("RoundedCone");
    assert("Sphere"@.len() != "RoundedCone"@.len());
    reveal_strlit("CappedTorus");
    assert("Sphere"@.len() != "CappedTorus"@.len());
    reveal_strlit("Capsule");
    assert("Sphere"@.len() != "Capsule"@.len());
    reveal_strlit("Cone");
    assert("Sphere"@.len() != "Cone"@.len());
    reveal_strlit("CutSphere");
    assert("Sphere"@.len() != "CutSphere"@.len());
    reveal_strlit("Cylinder");
    assert("Sphere"@.len() != "Cylinder"@.len());
    reveal_strlit("DeathStar");
    assert("Sphere"@.len() != "DeathStar"@.len());
    reveal_strlit("Ellipsoid");
    assert("Sphere"@.len() != "Ellipsoid"@.len());
    reveal_strlit("HexagonalPrism");
    assert("Sphere"@.len() != "HexagonalPrism"@.len());
    reveal_strlit("HollowSphere");
    assert("Sphere"@.len() != "HollowSphere"@.len());
    reveal_strlit("InfiniteCone");
    assert("Sphere"@.len() != "InfiniteCone"@.len());
    reveal_strlit("InfiniteCylinder");
    assert("Sphere"@.len() != "InfiniteCylinder"@.len());
    reveal_strlit("Link");
    assert("Sphere"@.len() != "Link"@.len());
    reveal_strlit("Mandelbox");
    assert("Sphere"@.len() != "Mandelbox"@.len());
    reveal_strlit("Mandelbulb");
    assert("Sphere"@.len() != "Mandelbulb"@.len());
    reveal_strlit("Octahedron");
    assert("Sphere"@.len() != "Octahedron"@.len());
    reveal_strlit("Plane");
    assert("Sphere"@.len() != "Plane"@.len());
    reveal_strlit("RectangularPrism");
    assert("Sphere"@.len() != "RectangularPrism"@.len());
    reveal_strlit("RectangularPrismFrame");
    assert("Sphere"@.len() != "RectangularPrismFrame"@.len());
    reveal_strlit("Rhombus");
    assert("Sphere"@.len() != "Rhombus"@.len());
    reveal_strlit("SolidAngle");
    assert("Sphere"@.len() != "SolidAngle"@.len());
}

/// A new primitive node shows exactly the dimension inputs of a sphere:
/// each dimension input starts hidden unless a sphere has it.
pub proof fn lemma_new_primitive_shows_sphere_dimensions()
    ensures
        forall|n: Seq<char>| #[trigger] spec_shape_parameter_names().contains(n) ==> exists|i: int|
            0 <= i < spec_primitive_inputs().len() && #[trigger] spec_primitive_inputs()[i].0 == n
                && spec_primitive_inputs()[i].4 == !spec_shape_names("Sphere"@).contains(n),
{
    reveal_strlit("Sphere");
    reveal_strlit("radius");
    lemma_sphere_names();
    let inputs = spec_primitive_inputs();
    let params = spec_shape_parameter_names();
    assert forall|n: Seq<char>| params.contains(n) implies exists|i: int|
        0 <= i < inputs.len() && #[trigger] inputs[i].0 == n && inputs[i].4 == !spec_shape_names(
            "Sphere"@,
        ).contains(n) by {
        let k = choose|k: int| 0 <= k < params.len() && params[k] == n;
        if k == 0 {
            assert(seq!["radius"@][0] == n);
            assert(inputs[4].0 == n);
            assert(inputs[4].4 == false);
        }
        if k == 1 {
            reveal_strlit("radii");
            assert("radii"@ != "radius"@) by {
                assert("radii"@.len() != "radius"@.len());
            }
            assert(!seq!["radius"@].contains(n)) by {
                if seq!["radius"@].contains(n) {
                    assert(seq!["radius"@][0] == n);
                }
            }
            assert(inputs[5].0 == n);
            assert(inputs[5].4 == true);
        }
        if k == 2 {
            reveal_strlit("height");
            assert("height"@ != "radius"@) by {
                assert("height"@[0] != "radius"@[0]);
            }
            assert(!seq!["radius"@].contains(n)) by {
                if seq!["radius"@].contains(n) {
                    assert(seq!["radius"@][0] == n);
                }
            }
            assert(inputs[6].0 == n);
            assert(inputs[6].4 == true);
        }
        if k == 3 {
            reveal_strlit("thickness");
            assert("thickness"@ != "radius"@) by {
                assert("thickness"@.len() != "radius"@.len());
            }
            assert(!seq!["radius"@].contains(n)) by {
                if seq!["radius"@].contains(n) {
                    assert(seq!["radius"@][0] == n);
                }
            }
            assert(inputs[12].0 == n);
            assert(inputs[12].4 == true);
        }
        if k == 4 {
            reveal_strlit("hollow_radius");
            assert("hollow_radius"@ != "radius"@) by {
                assert("hollow_radius"@.len() != "radius"@.len());
            }
            assert(!seq!["radius"@].contains(n)) by {
                if seq!["radius"@].contains(n) {
                    assert(seq!["radius"@][0] == n);
                }
            }
            assert(inputs[7].0 == n);
            assert(inputs[7].4 == true);
        }
        if k == 5 {
            reveal_strlit("hollow_height");
            assert("hollow_height"@ != "radius"@) by {
                assert("hollow_height"@.len() != "radius"@.len());
            }
            assert(!seq!["radius"@].contains(n)) by {
                if seq!["radius"@].contains(n) {
                    assert(seq!["radius"@][0] == n);
                }
            }
            assert(inputs[8].0 == n);
            assert(inputs[8].4 == true);
        }
        if k == 6 {
            reveal_strlit("solid_angle");
            assert("solid_angle"@ != "radius"@) by {
                assert("solid_angle"@.len() != "radius"@.len());
            }
            assert(!seq!["radius"@].contains(n)) by {
                if seq!["radius"@].contains(n) {
                    assert(seq!["radius"@][0] == n);
                }
            }
            assert(inputs[9].0 == n);
            assert(inputs[9].4 == true);
        }
        if k == 7 {
            reveal_strlit("width");
            assert("width"@ != "radius"@) by {
                assert("width"@.len() != "radius"@.len());
            }
            assert(!seq!["radius"@].contains(n)) by {
                if seq!["radius"@].contains(n) {
                    assert(seq!["radius"@][0] == n);
                }
            }
            assert(inputs[10].0 == n);
            assert(inputs[10].4 == true);
        }
        if k == 8 {
            reveal_strlit("depth");
            assert("depth"@ != "radius"@) by {
                assert("depth"@.len() != "radius"@.len());
            }
            assert(!seq!["radius"@].contains(n)) by {
                if seq!["radius"@].contains(n) {
                    assert(seq!["radius"@][0] == n);
                }
            }
            assert(inputs[11].0 == n);
            assert(inputs[11].4 == true);
        }
        if k == 9 {
            reveal_strlit("corner_radius");
            assert("corner_radius"@ != "radius"@) by {
                assert("corner_radius"@.len() != "radius"@.len());
            }
            assert(!seq!["radius"@].contains(n)) by {
                if seq!["radius"@].contains(n) {
                    assert(seq!["radius"@][0] == n);
                }
            }
            assert(inputs[13].0 == n);
            assert(inputs[13].4 == true);
        }
        if k == 10 {
            reveal_strlit("base");
            assert("base"@ != "radius"@) by {
                assert("base"@.len() != "radius"@.len());
            }
            assert(!seq!["radius"@].contains(n)) by {
                if seq!["radius"@].contains(n) {
                    assert(seq!["radius"@][0] == n);
                }
            }
            assert(inputs[14].0 == n);
            assert(inputs[14].4 == true);
        }
        if k == 11 {
            reveal_strlit("normal");
            assert("normal"@ != "radius"@) by {
                assert("normal"@[0] != "radius"@[0]);
            }
            assert(!seq!["radius"@].contains(n)) by {
                if seq!["radius"@].contains(n) {
                    assert(seq!["radius"@][0] == n);
                }
            }
            assert(inputs[15].0 == n);
            assert(inputs[15].4 == true);
        }
        if k == 12 {
            reveal_strlit("negative_height");
            assert("negative_height"@ != "radius"@) by {
                assert("negative_height"@.len() != "radius"@.len());
            }
            assert(!seq!["radius"@].contains(n)) by {
                if seq!["radius"@].contains(n) {
                    assert(seq!["radius"@][0] == n);
                }
            }
            assert(inputs[16].0 == n);
            assert(inputs[16].4 == true);
        }
        if k == 13 {
            reveal_strlit("positive_height");
            assert("positive_height"@ != "radius"@) by {
                assert("positive_height"@.len() != "radius"@.len());
            }
            assert(!seq!["radius"@].contains(n)) by {
                if seq!["radius"@].contains(n) {
                    assert(seq!["radius"@][0] == n);
                }
            }
            assert(inputs[17].0 == n);
            assert(inputs[17].4 == true);
        }
        if k == 14 {
            reveal_strlit("angle");
            assert("angle"@ != "radius"@) by {
                assert("angle"@.len() != "radius"@.len());
            }
            assert(!seq!["radius"@].contains(n)) by {
                if seq!["radius"@].contains(n) {
                    assert(seq!["radius"@][0] == n);
                }
            }
            assert(inputs[18].0 == n);
            assert(inputs[18].4 == true);
        }
        if k == 15 {
            reveal_strlit("lower_radius");
            assert("lower_radius"@ != "radius"@) by {
                assert("lower_radius"@.len() != "radius"@.len());
            }
            assert(!seq!["radius"@].contains(n)) by {
                if seq!["radius"@].contains(n) {
                    assert(seq!["radius"@][0] == n);
                }
            }
            assert(inputs[19].0 == n);
            assert(inputs[19].4 == true);
        }
        if k == 16 {
            reveal_strlit("upper_radius");
            assert("upper_radius"@ != "radius"@) by {
                assert("upper_radius"@.len() != "radius"@.len());
            }
            assert(!seq!["radius"@].contains(n)) by {
                if seq!["radius"@].contains(n) {
                    assert(seq!["radius"@][0] == n);
                }
            }
            assert(inputs[20].0 == n);
            assert(inputs[20].4 == true);
        }
        if k == 17 {
            reveal_strlit("ring_radius");
            assert("ring_radius"@ != "radius"@) by {
                assert("ring_radius"@.len() != "radius"@.len());
            }
            assert(!seq!["radius"@].contains(n)) by {
                if seq!["radius"@].contains(n) {
                    assert(seq!["radius"@][0] == n);
                }
            }
            assert(inputs[21].0 == n);
            assert(inputs[21].4 == true);
        }
        if k == 18 {
            reveal_strlit("tube_radius");
            assert("tube_radius"@ != "radius"@) by {
                assert("tube_radius"@.len() != "radius"@.len());
            }
            assert(!seq!["radius"@].contains(n)) by {
                if seq!["radius"@].contains(n) {
                    assert(seq!["radius"@][0] == n);
                }
            }
            assert(inputs[22].0 == n);
            assert(inputs[22].4 == true);
        }
        if k == 19 {
            reveal_strlit("cap_angle");
            assert("cap_angle"@ != "radius"@) by {
                assert("cap_angle"@.len() != "radius"@.len());
            }
            assert(!seq!["radius"@].contains(n)) by {
                if seq!["radius"@].contains(n) {
                    assert(seq!["radius"@][0] == n);
                }
            }
            assert(inputs[23].0 == n);
            assert(inputs[23].4 == true);
        }
        if k == 20 {
            reveal_strlit("radial_extent");
            assert("radial_extent"@ != "radius"@) by {
                assert("radial_extent"@.len() != "radius"@.len());
            }
            assert(!seq!["radius"@].contains(n)) by {
                if seq!["radius"@].contains(n) {
                    assert(seq!["radius"@][0] == n);
                }
            }
            assert(inputs[24].0 == n);
            assert(inputs[24].4 == true);
        }
        if k == 21 {
            reveal_strlit("power");
            assert("power"@ != "radius"@) by {
                assert("power"@.len() != "radius"@.len());
            }
            assert(!seq!["radius"@].contains(n)) by {
                if seq!["radius"@].contains(n) {
                    assert(seq!["radius"@][0] == n);
                }
            }
            assert(inputs[25].0 == n);
            assert(inputs[25].4 == true);
        }
        if k == 22 {
            reveal_strlit("iterations");
            assert("iterations"@ != "radius"@) by {
                assert("iterations"@.len() != "radius"@.len());
            }
            assert(!seq!["radius"@].contains(n)) by {
                if seq!["radius"@].contains(n) {
                    assert(seq!["radius"@][0] == n);
                }
            }
            assert(inputs[26].0 == n);
            assert(inputs[26].4 == true);
        }
        if k == 23 {
            reveal_strlit("max_square_radius");
            assert("max_square_radius"@ != "radius"@) by {
                assert("max_square_radius"@.len() != "radius"@.len());
            }
            assert(!seq!["radius"@].contains(n)) by {
                if seq!["radius"@].contains(n) {
                    assert(seq!["radius"@][0] == n);
                }
            }
            assert(inputs[27].0 == n);
            assert(inputs[27].4 == true);
        }
        if k == 24 {
            reveal_strlit("scale");
            assert("scale"@ != "radius"@) by {
                assert("scale"@.len() != "radius"@.len());
            }
            assert(!seq!["radius"@].contains(n)) by {
                if seq!["radius"@].contains(n) {
                    assert(seq!["radius"@][0] == n);
                }
            }
            assert(inputs[28].0 == n);
            assert(inputs[28].4 == true);
        }
        if k == 25 {
            reveal_strlit("min_square_radius");
            assert("min_square_radius"@ != "radius"@) by {
                assert("min_square_radius"@.len() != "radius"@.len());
            }
            assert(!seq!["radius"@].contains(n)) by {
                if seq!["radius"@].contains(n) {
                    assert(seq!["radius"@][0] == n);
                }
            }
            assert(inputs[29].0 == n);
            assert(inputs[29].4 == true);
        }
        if k == 26 {
            reveal_strlit("folding_limit");
            assert("folding_limit"@ != "radius"@) by {
                assert("folding_limit"@.len() != "radius"@.len());
            }
            assert(!seq!["radius"@].contains(n)) by {
                if seq!["radius"@].contains(n) {
                    assert(seq!["radius"@][0] == n);
                }
            }
            assert(inputs[30].0 == n);
            assert(inputs[30].4 == true);
        }
    }
}

} // verus!

verus! {

/// How an input holding a value of `kind` takes its value: a matrix from a
/// connection or typed in, a node's value (camera, light, material,
/// primitive, texture, scene or render pass) only from a connection, and
/// every other value only typed in.
pub open spec fn spec_param_kind_of(kind: NodeValueKind) -> InputParamKind {
    match kind {
        NodeValueKind::Mat4 => InputParamKind::ConnectionOrConstant,
        NodeValueKind::Camera | NodeValueKind::Light | NodeValueKind::Material
        | NodeValueKind::Primitive | NodeValueKind::ProceduralTexture | NodeValueKind::Scene
        | NodeValueKind::RenderPass => InputParamKind::ConnectionOnly,
        _ => InputParamKind::ConstantOnly,
    }
}

/// Every input of `inputs` takes its value as its kind says.
pub open spec fn spec_param_kinds_follow(inputs: Seq<InputView>) -> bool
    decreases inputs.len(),
{
    if inputs.len() == 0 {
        true
    } else {
        inputs[0].2 == spec_param_kind_of(inputs[0].1) && spec_param_kinds_follow(
            inputs.drop_first(),
        )
    }
}

proof fn lemma_kinds_follow_concat(a: Seq<InputView>, b: Seq<InputView>)
    requires
        spec_param_kinds_follow(a),
        spec_param_kinds_follow(b),
    ensures
        spec_param_kinds_follow(a + b),
    decreases a.len(),
{
    if a.len() == 0 {
        assert(a + b =~= b);
    } else {
        assert((a + b).drop_first() =~= a.drop_first() + b);
        assert((a + b)[0] == a[0]);
        lemma_kinds_follow_concat(a.drop_first(), b);
    }
}

proof fn lemma_kinds_follow_at(inputs: Seq<InputView>, i: int)
    requires
        spec_param_kinds_follow(inputs),
        0 <= i < inputs.len(),
    ensures
        inputs[i].2 == spec_param_kind_of(inputs[i].1),
    decreases inputs.len(),
{
    if i > 0 {
        assert(inputs.drop_first()[i - 1] == inputs[i]);
        lemma_kinds_follow_at(inputs.drop_first(), i - 1);
    }
}

proof fn lemma_axis_kinds_follow()
    ensures
        spec_param_kinds_follow(spec_axis_inputs()),
{
    reveal_with_fuel(spec_param_kinds_follow, 9);
    let s = spec_axis_inputs();
    let c0 = s.subrange(0, 4);
    assert(spec_param_kinds_follow(c0));
    let t0 = c0;
    assert(t0 =~= s);
}

proof fn lemma_camera_kinds_follow()
    ensures
        spec_param_kinds_follow(spec_camera_inputs()),
{
    reveal_with_fuel(spec_param_kinds_follow, 9);
    let s = spec_camera_inputs();
    let c0 = s.subrange(0, 8);
    assert(spec_param_kinds_follow(c0));
    let c1 = s.subrange(8, 10);
    assert(spec_param_kinds_follow(c1));
    let t1 = c1;
    let t0 = c0 + t1;
    lemma_kinds_follow_concat(c0, t1);
    assert(t0 =~= s);
}

proof fn lemma_light_kinds_follow()
    ensures
        spec_param_kinds_follow(spec_light_inputs()),
{
    reveal_with_fuel(spec_param_kinds_follow, 9);
    let s = spec_light_inputs();
    let c0 = s.subrange(0, 8);
    assert(spec_param_kinds_follow(c0));
    let c1 = s.subrange(8, 11);
    assert(spec_param_kinds_follow(c1));
    let t1 = c1;
    let t0 = c0 + t1;
    lemma_kinds_follow_concat(c0, t1);
    assert(t0 =~= s);
}

proof fn lemma_grade_kinds_follow()
    ensures
        spec_param_kinds_follow(spec_grade_inputs()),
{
    reveal_with_fuel(spec_param_kinds_follow, 9);
    let s = spec_grade_inputs();
    let c0 = s.subrange(0, 7);
    assert(spec_param_kinds_follow(c0));
    let t0 = c0;
    assert(t0 =~= s);
}

proof fn lemma_material_kinds_follow()
    ensures
        spec_param_kinds_follow(spec_material_inputs()),
{
    reveal_with_fuel(spec_param_kinds_follow, 9);
    let s = spec_material_inputs();
    let c0 = s.subrange(0, 8);
    assert(spec_param_kinds_follow(c0));
    let c1 = s.subrange(8, 16);
    assert(spec_param_kinds_follow(c1));
    let c2 = s.subrange(16, 23);
    assert(spec_param_kinds_follow(c2));
    let t2 = c2;
    let t1 = c1 + t2;
    lemma_kinds_follow_concat(c1, t2);
    let t0 = c0 + t1;
    lemma_kinds_follow_concat(c0, t1);
    assert(t0 =~= s);
}

proof fn lemma_primitive_kinds_follow()
    ensures
        spec_param_kinds_follow(spec_primitive_inputs()),
{
    reveal_with_fuel(spec_param_kinds_follow, 9);
    let s = spec_primitive_inputs();
    let c0 = s.subrange(0, 8);
    assert(spec_param_kinds_follow(c0));
    let c1 = s.subrange(8, 16);
    assert(spec_param_kinds_follow(c1));
    let c2 = s.subrange(16, 24);
    assert(spec_param_kinds_follow(c2));
    let c3 = s.subrange(24, 32);
    assert(spec_param_kinds_follow(c3));
    let c4 = s.subrange(32, 40);
    assert(spec_param_kinds_follow(c4));
    let c5 = s.subrange(40, 45);
    assert(spec_param_kinds_follow(c5));
    let t5 = c5;
    let t4 = c4 + t5;
    lemma_kinds_follow_concat(c4, t5);
    let t3 = c3 + t4;
    lemma_kinds_follow_concat(c3, t4);
    let t2 = c2 + t3;
    lemma_kinds_follow_concat(c2, t3);
    let t1 = c1 + t2;
    lemma_kinds_follow_concat(c1, t2);
    let t0 = c0 + t1;
    lemma_kinds_follow_concat(c0, t1);
    assert(t0 =~= s);
}

proof fn lemma_procedural_texture_kinds_follow()
    ensures
        spec_param_kinds_follow(spec_procedural_texture_inputs()),
{
    reveal_with_fuel(spec_param_kinds_follow, 9);
    let s = spec_procedural_texture_inputs();
    let c0 = s.subrange(0, 8);
    assert(spec_param_kinds_follow(c0));
    let c1 = s.subrange(8, 16);
    assert(spec_param_kinds_follow(c1));
    let c2 = s.subrange(16, 17);
    assert(spec_param_kinds_follow(c2));
    let t2 = c2;
    let t1 = c1 + t2;
    lemma_kinds_follow_concat(c1, t2);
    let t0 = c0 + t1;
    lemma_kinds_follow_concat(c0, t1);
    assert(t0 =~= s);
}

proof fn lemma_ray_marcher_kinds_follow()
    ensures
        spec_param_kinds_follow(spec_ray_marcher_inputs()),
{
    reveal_with_fuel(spec_param_kinds_follow, 9);
    let s = spec_ray_marcher_inputs();
    let c0 = s.subrange(0, 8);
    assert(spec_param_kinds_follow(c0));
    let c1 = s.subrange(8, 15);
    assert(spec_param_kinds_follow(c1));
    let t1 = c1;
    let t0 = c0 + t1;
    lemma_kinds_follow_concat(c0, t1);
    assert(t0 =~= s);
}

proof fn lemma_scene_kinds_follow()
    ensures
        spec_param_kinds_follow(spec_scene_inputs()),
{
    reveal_with_fuel(spec_param_kinds_follow, 9);
    let s = spec_scene_inputs();
    let c0 = s.subrange(0, 4);
    assert(spec_param_kinds_follow(c0));
    let t0 = c0;
    assert(t0 =~= s);
}

proof fn lemma_texture_kinds_follow()
    ensures
        spec_param_kinds_follow(spec_texture_inputs()),
{
    reveal_with_fuel(spec_param_kinds_follow, 9);
    let s = spec_texture_inputs();
    let c0 = s.subrange(0, 1);
    assert(spec_param_kinds_follow(c0));
    let t0 = c0;
    assert(t0 =~= s);
}

/// Every input of every node takes its value as its kind says: matrices
/// from a connection or typed in, node values only from a connection, and
/// the other values only typed in.
pub proof fn lemma_param_kinds_follow_values(template: NodeTemplate)
    ensures
        forall|i: int|
            0 <= i < template.spec_inputs().len() ==> #[trigger] template.spec_inputs()[i].2
                == spec_param_kind_of(template.spec_inputs()[i].1),
{
    match template {
        NodeTemplate::Axis => lemma_axis_kinds_follow(),
        NodeTemplate::Camera => lemma_camera_kinds_follow(),
        NodeTemplate::Light => lemma_light_kinds_follow(),
        NodeTemplate::Grade => lemma_grade_kinds_follow(),
        NodeTemplate::Material => lemma_material_kinds_follow(),
        NodeTemplate::Primitive => lemma_primitive_kinds_follow(),
        NodeTemplate::ProceduralTexture => lemma_procedural_texture_kinds_follow(),
        NodeTemplate::RayMarcher => lemma_ray_marcher_kinds_follow(),
        NodeTemplate::Scene => lemma_scene_kinds_follow(),
        NodeTemplate::Texture => lemma_texture_kinds_follow(),
    }
    assert forall|i: int| 0 <= i < template.spec_inputs().len() implies #[trigger] template.spec_inputs()[i].2
        == spec_param_kind_of(template.spec_inputs()[i].1) by {
        lemma_kinds_follow_at(template.spec_inputs(), i);
    }
}

} // verus!

verus! {

/// `name` is not the name of any input of `inputs`.
pub open spec fn spec_name_absent(name: Seq<char>, inputs: Seq<InputView>) -> bool
    decreases inputs.len(),
{
    if inputs.len() == 0 {
        true
    } else {
        inputs[0].0 != name && spec_name_absent(name, inputs.drop_first())
    }
}

/// No two inputs of `inputs` carry the same name.
pub open spec fn spec_names_distinct(inputs: Seq<InputView>) -> bool
    decreases inputs.len(),
{
    if inputs.len() == 0 {
        true
    } else {
        spec_name_absent(inputs[0].0, inputs.drop_first()) && spec_names_distinct(
            inputs.drop_first(),
        )
    }
}

/// No name of `a` is a name of `b`.
pub open spec fn spec_names_apart(a: Seq<InputView>, b: Seq<InputView>) -> bool
    decreases a.len(),
{
    if a.len() == 0 {
        true
    } else {
        spec_name_absent(a[0].0, b) && spec_names_apart(a.drop_first(), b)
    }
}

proof fn lemma_absent_at(name: Seq<char>, inputs: Seq<InputView>, k: int)
    requires
        spec_name_absent(name, inputs),
        0 <= k < inputs.len(),
    ensures
        inputs[k].0 != name,
    decreases inputs.len(),
{
    if k > 0 {
        assert(inputs.drop_first()[k - 1] == inputs[k]);
        lemma_absent_at(name, inputs.drop_first(), k - 1);
    }
}

proof fn lemma_absent_concat(name: Seq<char>, a: Seq<InputView>, b: Seq<InputView>)
    requires
        spec_name_absent(name, a),
        spec_name_absent(name, b),
    ensures
        spec_name_absent(name, a + b),
    decreases a.len(),
{
    if a.len() == 0 {
        assert(a + b =~= b);
    } else {
        assert((a + b).drop_first() =~= a.drop_first() + b);
        lemma_absent_concat(name, a.drop_first(), b);
    }
}

proof fn lemma_apart_concat_right(a: Seq<InputView>, b1: Seq<InputView>, b2: Seq<InputView>)
    requires
        spec_names_apart(a, b1),
        spec_names_apart(a, b2),
    ensures
        spec_names_apart(a, b1 + b2),
    decreases a.len(),
{
    if a.len() > 0 {
        lemma_absent_concat(a[0].0, b1, b2);
        lemma_apart_concat_right(a.drop_first(), b1, b2);
    }
}

proof fn lemma_distinct_concat(a: Seq<InputView>, b: Seq<InputView>)
    requires
        spec_names_distinct(a),
        spec_names_distinct(b),
        spec_names_apart(a, b),
    ensures
        spec_names_distinct(a + b),
    decreases a.len(),
{
    if a.len() == 0 {
        assert(a + b =~= b);
    } else {
        assert((a + b).drop_first() =~= a.drop_first() + b);
        assert((a + b)[0] == a[0]);
        lemma_absent_concat(a[0].0, a.drop_first(), b);
        lemma_distinct_concat(a.drop_first(), b);
    }
}

/// Inputs whose names are distinct differ in name at any two positions.
pub proof fn lemma_distinct_names_differ(inputs: Seq<InputView>, i: int, j: int)
    requires
        spec_names_distinct(inputs),
        0 <= i < j < inputs.len(),
    ensures
        inputs[i].0 != inputs[j].0,
    decreases inputs.len(),
{
    let rest = inputs.drop_first();
    assert(rest[j - 1] == inputs[j]);
    if i == 0 {
        lemma_absent_at(inputs[0].0, rest, j - 1);
    } else {
        assert(rest[i - 1] == inputs[i]);
        lemma_distinct_names_differ(rest, i - 1, j - 1);
    }
}

proof fn lemma_axis_part_0_distinct()
    ensures
        spec_names_distinct(spec_axis_inputs().subrange(0, 4)),
{
    reveal_strlit("axis");
    reveal_strlit("rotate");
    reveal_strlit("translate");
    reveal_strlit("uniform_scale");
    assert("axis"@.len() == 4);
    assert("translate"@.len() == 9);
    assert("rotate"@.len() == 6);
    assert("uniform_scale"@.len() == 13);
    reveal_with_fuel(spec_names_distinct, 9);
    reveal_with_fuel(spec_name_absent, 9);
    reveal_with_fuel(spec_names_apart, 9);
}

proof fn lemma_axis_names_distinct()
    ensures
        spec_names_distinct(spec_axis_inputs()),
{
    let s = spec_axis_inputs();
    let c0 = s.subrange(0, 4);
    lemma_axis_part_0_distinct();
    let t0 = c0;
    assert(t0 =~= s);
}

proof fn lemma_camera_part_0_distinct()
    ensures
        spec_names_distinct(spec_camera_inputs().subrange(0, 8)),
{
    reveal_strlit("f_stop");
    reveal_strlit("far_plane");
    reveal_strlit("focal_distance");
    reveal_strlit("focal_length");
    reveal_strlit("horizontal_aperture");
    reveal_strlit("near_plane");
    reveal_strlit("sensor_resolution");
    reveal_strlit("world_matrix");
    assert("focal_length"@.len() == 12);
    assert("focal_distance"@.len() == 14);
    assert("f_stop"@.len() == 6);
    assert("horizontal_aperture"@.len() == 19);
    assert("near_plane"@.len() == 10);
    assert("far_plane"@.len() == 9);
    assert("sensor_resolution"@.len() == 17);
    assert("world_matrix"@.len() == 12);
    assert("focal_length"@[0] != "world_matrix"@[0]);
    reveal_with_fuel(spec_names_distinct, 9);
    reveal_with_fuel(spec_name_absent, 9);
    reveal_with_fuel(spec_names_apart, 9);
}

proof fn lemma_camera_part_1_distinct()
    ensures
        spec_names_distinct(spec_camera_inputs().subrange(8, 10)),
{
    reveal_strlit("enable_depth_of_field");
    reveal_strlit("latlong");
    assert("enable_depth_of_field"@.len() == 21);
    assert("latlong"@.len() == 7);
    reveal_with_fuel(spec_names_distinct, 9);
    reveal_with_fuel(spec_name_absent, 9);
    reveal_with_fuel(spec_names_apart, 9);
}

proof fn lemma_camera_parts_0_1_apart()
    ensures
        spec_names_apart(spec_camera_inputs().subrange(0, 8), spec_camera_inputs().subrange(8, 10)),
{
    reveal_strlit("enable_depth_of_field");
    reveal_strlit("f_stop");
    reveal_strlit("far_plane");
    reveal_strlit("focal_distance");
    reveal_strlit("focal_length");
    reveal_strlit("horizontal_aperture");
    reveal_strlit("latlong");
    reveal_strlit("near_plane");
    reveal_strlit("sensor_resolution");
    reveal_strlit("world_matrix");
    assert("focal_length"@.len() == 12);
    assert("focal_distance"@.len() == 14);
    assert("f_stop"@.len() == 6);
    assert("horizontal_aperture"@.len() == 19);
    assert("near_plane"@.len() == 10);
    assert("far_plane"@.len() == 9);
    assert("sensor_resolution"@.len() == 17);
    assert("world_matrix"@.len() == 12);
    assert("enable_depth_of_field"@.len() == 21);
    assert("latlong"@.len() == 7);
    reveal_with_fuel(spec_names_distinct, 9);
    reveal_with_fuel(spec_name_absent, 9);
    reveal_with_fuel(spec_names_apart, 9);
}

proof fn lemma_camera_names_distinct()
    ensures
        spec_names_distinct(spec_camera_inputs()),
{
    let s = spec_camera_inputs();
    let c0 = s.subrange(0, 8);
    lemma_camera_part_0_distinct();
    let c1 = s.subrange(8, 10);
    lemma_camera_part_1_distinct();
    let t1 = c1;
    let t0 = c0 + t1;
    lemma_camera_parts_0_1_apart();
    lemma_distinct_concat(c0, t1);
    assert(t0 =~= s);
}

proof fn lemma_light_part_0_distinct()
    ensures
        spec_names_distinct(spec_light_inputs().subrange(0, 8)),
{
    reveal_strlit("direction");
    reveal_strlit("falloff");
    reveal_strlit("intensity");
    reveal_strlit("iterations");
    reveal_strlit("light_type");
    reveal_strlit("lights");
    reveal_strlit("position");
    reveal_strlit("world_matrix");
    assert("lights"@.len() == 6);
    assert("world_matrix"@.len() == 12);
    assert("light_type"@.len() == 10);
    assert("direction"@.len() == 9);
    assert("position"@.len() == 8);
    assert("iterations"@.len() == 10);
    assert("intensity"@.len() == 9);
    assert("falloff"@.len() == 7);
    assert("light_type"@[0] != "iterations"@[0]);
    assert("direction"@[0] != "intensity"@[0]);
    reveal_with_fuel(spec_names_distinct, 9);
    reveal_with_fuel(spec_name_absent, 9);
    reveal_with_fuel(spec_names_apart, 9);
}

proof fn lemma_light_part_1_distinct()
    ensures
        spec_names_distinct(spec_light_inputs().subrange(8, 11)),
{
    reveal_strlit("colour");
    reveal_strlit("shadow_hardness");
    reveal_strlit("soften_shadows");
    assert("colour"@.len() == 6);
    assert("shadow_hardness"@.len() == 15);
    assert("soften_shadows"@.len() == 14);
    reveal_with_fuel(spec_names_distinct, 9);
    reveal_with_fuel(spec_name_absent, 9);
    reveal_with_fuel(spec_names_apart, 9);
}

proof fn lemma_light_parts_0_1_apart()
    ensures
        spec_names_apart(spec_light_inputs().subrange(0, 8), spec_light_inputs().subrange(8, 11)),
{
    reveal_strlit("colour");
    reveal_strlit("direction");
    reveal_strlit("falloff");
    reveal_strlit("intensity");
    reveal_strlit("iterations");
    reveal_strlit("light_type");
    reveal_strlit("lights");
    reveal_strlit("position");
    reveal_strlit("shadow_hardness");
    reveal_strlit("soften_shadows");
    reveal_strlit("world_matrix");
    assert("lights"@.len() == 6);
    assert("world_matrix"@.len() == 12);
    assert("light_type"@.len() == 10);
    assert("direction"@.len() == 9);
    assert("position"@.len() == 8);
    assert("iterations"@.len() == 10);
    assert("intensity"@.len() == 9);
    assert("falloff"@.len() == 7);
    assert("colour"@.len() == 6);
    assert("shadow_hardness"@.len() == 15);
    assert("soften_shadows"@.len() == 14);
    assert("lights"@[0] != "colour"@[0]);
    reveal_with_fuel(spec_names_distinct, 9);
    reveal_with_fuel(spec_name_absent, 9);
    reveal_with_fuel(spec_names_apart, 9);
}

proof fn lemma_light_names_distinct()
    ensures
        spec_names_distinct(spec_light_inputs()),
{
    let s = spec_light_inputs();
    let c0 = s.subrange(0, 8);
    lemma_light_part_0_distinct();
    let c1 = s.subrange(8, 11);
    lemma_light_part_1_distinct();
    let t1 = c1;
    let t0 = c0 + t1;
    lemma_light_parts_0_1_apart();
    lemma_distinct_concat(c0, t1);
    assert(t0 =~= s);
}

proof fn lemma_grade_part_0_distinct()
    ensures
        spec_names_distinct(spec_grade_inputs().subrange(0, 7)),
{
    reveal_strlit("black_point");
    reveal_strlit("gain");
    reveal_strlit("gamma");
    reveal_strlit("invert");
    reveal_strlit("lift");
    reveal_strlit("texture");
    reveal_strlit("white_point");
    assert("texture"@.len() == 7);
    assert("black_point"@.len() == 11);
    assert("white_point"@.len() == 11);
    assert("lift"@.len() == 4);
    assert("gain"@.len() == 4);
    assert("gamma"@.len() == 5);
    assert("invert"@.len() == 6);
    assert("black_point"@[0] != "white_point"@[0]);
    assert("lift"@[0] != "gain"@[0]);
    reveal_with_fuel(spec_names_distinct, 9);
    reveal_with_fuel(spec_name_absent, 9);
    reveal_with_fuel(spec_names_apart, 9);
}

proof fn lemma_grade_names_distinct()
    ensures
        spec_names_distinct(spec_grade_inputs()),
{
    let s = spec_grade_inputs();
    let c0 = s.subrange(0, 7);
    lemma_grade_part_0_distinct();
    let t0 = c0;
    assert(t0 =~= s);
}

proof fn lemma_material_part_0_distinct()
    ensures
        spec_names_distinct(spec_material_inputs().subrange(0, 8)),
{
    reveal_strlit("diffuse_colour");
    reveal_strlit("diffuse_colour_texture");
    reveal_strlit("specular_colour");
    reveal_strlit("specular_colour_texture");
    reveal_strlit("specular_probability");
    reveal_strlit("specular_probability_texture");
    reveal_strlit("specular_roughness");
    reveal_strlit("specular_roughness_texture");
    assert("diffuse_colour"@.len() == 14);
    assert("diffuse_colour_texture"@.len() == 22);
    assert("specular_probability"@.len() == 20);
    assert("specular_probability_texture"@.len() == 28);
    assert("specular_roughness"@.len() == 18);
    assert("specular_roughness_texture"@.len() == 26);
    assert("specular_colour"@.len() == 15);
    assert("specular_colour_texture"@.len() == 23);
    reveal_with_fuel(spec_names_distinct, 9);
    reveal_with_fuel(spec_name_absent, 9);
    reveal_with_fuel(spec_names_apart, 9);
}

proof fn lemma_material_part_1_distinct()
    ensures
        spec_names_distinct(spec_material_inputs().subrange(8, 16)),
{
    reveal_strlit("emissive_intensity");
    reveal_strlit("extinction_coefficient");
    reveal_strlit("transmissive_colour");
    reveal_strlit("transmissive_colour_texture");
    reveal_strlit("transmissive_probability");
    reveal_strlit("transmissive_probability_texture");
    reveal_strlit("transmissive_roughness");
    reveal_strlit("transmissive_roughness_texture");
    assert("transmissive_probability"@.len() == 24);
    assert("transmissive_probability_texture"@.len() == 32);
    assert("transmissive_roughness"@.len() == 22);
    assert("transmissive_roughness_texture"@.len() == 30);
    assert("extinction_coefficient"@.len() == 22);
    assert("transmissive_colour"@.len() == 19);
    assert("transmissive_colour_texture"@.len() == 27);
    assert("emissive_intensity"@.len() == 18);
    assert("transmissive_roughness"@[0] != "extinction_coefficient"@[0]);
    reveal_with_fuel(spec_names_distinct, 9);
    reveal_with_fuel(spec_name_absent, 9);
    reveal_with_fuel(spec_names_apart, 9);
}

proof fn lemma_material_part_2_distinct()
    ensures
        spec_names_distinct(spec_material_inputs().subrange(16, 23)),
{
    reveal_strlit("emissive_colour");
    reveal_strlit("emissive_colour_texture");
    reveal_strlit("refractive_index");
    reveal_strlit("refractive_index_texture");
    reveal_strlit("scattering_coefficient");
    reveal_strlit("scattering_colour");
    reveal_strlit("scattering_colour_texture");
    assert("emissive_colour"@.len() == 15);
    assert("emissive_colour_texture"@.len() == 23);
    assert("refractive_index"@.len() == 16);
    assert("refractive_index_texture"@.len() == 24);
    assert("scattering_coefficient"@.len() == 22);
    assert("scattering_colour"@.len() == 17);
    assert("scattering_colour_texture"@.len() == 25);
    reveal_with_fuel(spec_names_distinct, 9);
    reveal_with_fuel(spec_name_absent, 9);
    reveal_with_fuel(spec_names_apart, 9);
}

proof fn lemma_material_parts_0_1_apart()
    ensures
        spec_names_apart(spec_material_inputs().subrange(0, 8), spec_material_inputs().subrange(8, 16)),
{
    reveal_strlit("diffuse_colour");
    reveal_strlit("diffuse_colour_texture");
    reveal_strlit("emissive_intensity");
    reveal_strlit("extinction_coefficient");
    reveal_strlit("specular_colour");
    reveal_strlit("specular_colour_texture");
    reveal_strlit("specular_probability");
    reveal_strlit("specular_probability_texture");
    reveal_strlit("specular_roughness");
    reveal_strlit("specular_roughness_texture");
    reveal_strlit("transmissive_colour");
    reveal_strlit("transmissive_colour_texture");
    reveal_strlit("transmissive_probability");
    reveal_strlit("transmissive_probability_texture");
    reveal_strlit("transmissive_roughness");
    reveal_strlit("transmissive_roughness_texture");
    assert("diffuse_colour"@.len() == 14);
    assert("diffuse_colour_texture"@.len() == 22);
    assert("specular_probability"@.len() == 20);
    assert("specular_probability_texture"@.len() == 28);
    assert("specular_roughness"@.len() == 18);
    assert("specular_roughness_texture"@.len() == 26);
    assert("specular_colour"@.len() == 15);
    assert("specular_colour_texture"@.len() == 23);
    assert("transmissive_probability"@.len() == 24);
    assert("transmissive_probability_texture"@.len() == 32);
    assert("transmissive_roughness"@.len() == 22);
    assert("transmissive_roughness_texture"@.len() == 30);
    assert("extinction_coefficient"@.len() == 22);
    assert("transmissive_colour"@.len() == 19);
    assert("transmissive_colour_texture"@.len() == 27);
    assert("emissive_intensity"@.len() == 18);
    assert("diffuse_colour_texture"@[0] != "transmissive_roughness"@[0]);
    assert("diffuse_colour_texture"@[0] != "extinction_coefficient"@[0]);
    assert("specular_roughness"@[0] != "emissive_intensity"@[0]);
    reveal_with_fuel(spec_names_distinct, 9);
    reveal_with_fuel(spec_name_absent, 9);
    reveal_with_fuel(spec_names_apart, 9);
}

proof fn lemma_material_parts_0_2_apart()
    ensures
        spec_names_apart(spec_material_inputs().subrange(0, 8), spec_material_inputs().subrange(16, 23)),
{
    reveal_strlit("diffuse_colour");
    reveal_strlit("diffuse_colour_texture");
    reveal_strlit("emissive_colour");
    reveal_strlit("emissive_colour_texture");
    reveal_strlit("refractive_index");
    reveal_strlit("refractive_index_texture");
    reveal_strlit("scattering_coefficient");
    reveal_strlit("scattering_colour");
    reveal_strlit("scattering_colour_texture");
    reveal_strlit("specular_colour");
    reveal_strlit("specular_colour_texture");
    reveal_strlit("specular_probability");
    reveal_strlit("specular_probability_texture");
    reveal_strlit("specular_roughness");
    reveal_strlit("specular_roughness_texture");
    assert("diffuse_colour"@.len() == 14);
    assert("diffuse_colour_texture"@.len() == 22);
    assert("specular_probability"@.len() == 20);
    assert("specular_probability_texture"@.len() == 28);
    assert("specular_roughness"@.len() == 18);
    assert("specular_roughness_texture"@.len() == 26);
    assert("specular_colour"@.len() == 15);
    assert("specular_colour_texture"@.len() == 23);
    assert("emissive_colour"@.len() == 15);
    assert("emissive_colour_texture"@.len() == 23);
    assert("refractive_index"@.len() == 16);
    assert("refractive_index_texture"@.len() == 24);
    assert("scattering_coefficient"@.len() == 22);
    assert("scattering_colour"@.len() == 17);
    assert("scattering_colour_texture"@.len() == 25);
    assert("diffuse_colour_texture"@[0] != "scattering_coefficient"@[0]);
    assert("specular_colour"@[0] != "emissive_colour"@[0]);
    assert("specular_colour_texture"@[0] != "emissive_colour_texture"@[0]);
    reveal_with_fuel(spec_names_distinct, 9);
    reveal_with_fuel(spec_name_absent, 9);
    reveal_with_fuel(spec_names_apart, 9);
}

proof fn lemma_material_parts_1_2_apart()
    ensures
        spec_names_apart(spec_material_inputs().subrange(8, 16), spec_material_inputs().subrange(16, 23)),
{
    reveal_strlit("emissive_colour");
    reveal_strlit("emissive_colour_texture");
    reveal_strlit("emissive_intensity");
    reveal_strlit("extinction_coefficient");
    reveal_strlit("refractive_index");
    reveal_strlit("refractive_index_texture");
    reveal_strlit("scattering_coefficient");
    reveal_strlit("scattering_colour");
    reveal_strlit("scattering_colour_texture");
    reveal_strlit("transmissive_colour");
    reveal_strlit("transmissive_colour_texture");
    reveal_strlit("transmissive_probability");
    reveal_strlit("transmissive_probability_texture");
    reveal_strlit("transmissive_roughness");
    reveal_strlit("transmissive_roughness_texture");
    assert("transmissive_probability"@.len() == 24);
    assert("transmissive_probability_texture"@.len() == 32);
    assert("transmissive_roughness"@.len() == 22);
    assert("transmissive_roughness_texture"@.len() == 30);
    assert("extinction_coefficient"@.len() == 22);
    assert("transmissive_colour"@.len() == 19);
    assert("transmissive_colour_texture"@.len() == 27);
    assert("emissive_intensity"@.len() == 18);
    assert("emissive_colour"@.len() == 15);
    assert("emissive_colour_texture"@.len() == 23);
    assert("refractive_index"@.len() == 16);
    assert("refractive_index_texture"@.len() == 24);
    assert("scattering_coefficient"@.len() == 22);
    assert("scattering_colour"@.len() == 17);
    assert("scattering_colour_texture"@.len() == 25);
    assert("transmissive_probability"@[0] != "refractive_index_texture"@[0]);
    assert("transmissive_roughness"@[0] != "scattering_coefficient"@[0]);
    assert("extinction_coefficient"@[0] != "scattering_coefficient"@[0]);
    reveal_with_fuel(spec_names_distinct, 9);
    reveal_with_fuel(spec_name_absent, 9);
    reveal_with_fuel(spec_names_apart, 9);
}

proof fn lemma_material_names_distinct()
    ensures
        spec_names_distinct(spec_material_inputs()),
{
    let s = spec_material_inputs();
    let c0 = s.subrange(0, 8);
    lemma_material_part_0_distinct();
    let c1 = s.subrange(8, 16);
    lemma_material_part_1_distinct();
    let c2 = s.subrange(16, 23);
    lemma_material_part_2_distinct();
    let t2 = c2;
    let t1 = c1 + t2;
    let t0 = c0 + t1;
    lemma_material_parts_1_2_apart();
    lemma_distinct_concat(c1, t2);
    lemma_material_parts_0_2_apart();
    lemma_material_parts_0_1_apart();
    lemma_apart_concat_right(c0, c1, t2);
    lemma_distinct_concat(c0, t1);
    assert(t0 =~= s);
}

proof fn lemma_primitive_part_0_distinct()
    ensures
        spec_names_distinct(spec_primitive_inputs().subrange(0, 8)),
{
    reveal_strlit("children");
    reveal_strlit("height");
    reveal_strlit("hollow_radius");
    reveal_strlit("material");
    reveal_strlit("radii");
    reveal_strlit("radius");
    reveal_strlit("shape");
    reveal_strlit("siblings");
    assert("siblings"@.len() == 8);
    assert("children"@.len() == 8);
    assert("material"@.len() == 8);
    assert("shape"@.len() == 5);
    assert("radius"@.len() == 6);
    assert("radii"@.len() == 5);
    assert("height"@.len() == 6);
    assert("hollow_radius"@.len() == 13);
    assert("siblings"@[0] != "children"@[0]);
    assert("siblings"@[0] != "material"@[0]);
    assert("children"@[0] != "material"@[0]);
    assert("shape"@[0] != "radii"@[0]);
    assert("radius"@[0] != "height"@[0]);
    reveal_with_fuel(spec_names_distinct, 9);
    reveal_with_fuel(spec_name_absent, 9);
    reveal_with_fuel(spec_names_apart, 9);
}

proof fn lemma_primitive_part_1_distinct()
    ensures
        spec_names_distinct(spec_primitive_inputs().subrange(8, 16)),
{
    reveal_strlit("base");
    reveal_strlit("corner_radius");
    reveal_strlit("depth");
    reveal_strlit("hollow_height");
    reveal_strlit("normal");
    reveal_strlit("solid_angle");
    reveal_strlit("thickness");
    reveal_strlit("width");
    assert("hollow_height"@.len() == 13);
    assert("solid_angle"@.len() == 11);
    assert("width"@.len() == 5);
    assert("depth"@.len() == 5);
    assert("thickness"@.len() == 9);
    assert("corner_radius"@.len() == 13);
    assert("base"@.len() == 4);
    assert("normal"@.len() == 6);
    assert("hollow_height"@[0] != "corner_radius"@[0]);
    assert("width"@[0] != "depth"@[0]);
    reveal_with_fuel(spec_names_distinct, 9);
    reveal_with_fuel(spec_name_absent, 9);
    reveal_with_fuel(spec_names_apart, 9);
}

proof fn lemma_primitive_part_2_distinct()
    ensures
        spec_names_distinct(spec_primitive_inputs().subrange(16, 24)),
{
    reveal_strlit("angle");
    reveal_strlit("cap_angle");
    reveal_strlit("lower_radius");
    reveal_strlit("negative_height");
    reveal_strlit("positive_height");
    reveal_strlit("ring_radius");
    reveal_strlit("tube_radius");
    reveal_strlit("upper_radius");
    assert("negative_height"@.len() == 15);
    assert("positive_height"@.len() == 15);
    assert("angle"@.len() == 5);
    assert("lower_radius"@.len() == 12);
    assert("upper_radius"@.len() == 12);
    assert("ring_radius"@.len() == 11);
    assert("tube_radius"@.len() == 11);
    assert("cap_angle"@.len() == 9);
    assert("negative_height"@[0] != "positive_height"@[0]);
    assert("lower_radius"@[0] != "upper_radius"@[0]);
    assert("ring_radius"@[0] != "tube_radius"@[0]);
    reveal_with_fuel(spec_names_distinct, 9);
    reveal_with_fuel(spec_name_absent, 9);
    reveal_with_fuel(spec_names_apart, 9);
}

proof fn lemma_primitive_part_3_distinct()
    ensures
        spec_names_distinct(spec_primitive_inputs().subrange(24, 32)),
{
    reveal_strlit("folding_limit");
    reveal_strlit("iterations");
    reveal_strlit("max_square_radius");
    reveal_strlit("min_square_radius");
    reveal_strlit("power");
    reveal_strlit("radial_extent");
    reveal_strlit("scale");
    reveal_strlit("world_matrix");
    assert("radial_extent"@.len() == 13);
    assert("power"@.len() == 5);
    assert("iterations"@.len() == 10);
    assert("max_square_radius"@.len() == 17);
    assert("scale"@.len() == 5);
    assert("min_square_radius"@.len() == 17);
    assert("folding_limit"@.len() == 13);
    assert("world_matrix"@.len() == 12);
    assert("radial_extent"@[0] != "folding_limit"@[0]);
    assert("power"@[0] != "scale"@[0]);
    assert("max_square_radius"@[1] != "min_square_radius"@[1]);
    reveal_with_fuel(spec_names_distinct, 9);
    reveal_with_fuel(spec_name_absent, 9);
    reveal_with_fuel(spec_names_apart, 9);
}

proof fn lemma_primitive_part_4_distinct()
    ensures
        spec_names_distinct(spec_primitive_inputs().subrange(32, 40)),
{
    reveal_strlit("blend_strength");
    reveal_strlit("blend_type");
    reveal_strlit("bounding_volume");
    reveal_strlit("edge_radius");
    reveal_strlit("negative_repetitions");
    reveal_strlit("positive_repetitions");
    reveal_strlit("repetition");
    reveal_strlit("spacing");
    assert("edge_radius"@.len() == 11);
    assert("repetition"@.len() == 10);
    assert("negative_repetitions"@.len() == 20);
    assert("positive_repetitions"@.len() == 20);
    assert("spacing"@.len() == 7);
    assert("bounding_volume"@.len() == 15);
    assert("blend_type"@.len() == 10);
    assert("blend_strength"@.len() == 14);
    assert("repetition"@[0] != "blend_type"@[0]);
    assert("negative_repetitions"@[0] != "positive_repetitions"@[0]);
    reveal_with_fuel(spec_names_distinct, 9);
    reveal_with_fuel(spec_name_absent, 9);
    reveal_with_fuel(spec_names_apart, 9);
}

proof fn lemma_primitive_part_5_distinct()
    ensures
        spec_names_distinct(spec_primitive_inputs().subrange(40, 45)),
{
    reveal_strlit("elongate");
    reveal_strlit("elongation");
    reveal_strlit("hollow");
    reveal_strlit("mirror");
    reveal_strlit("wall_thickness");
    assert("mirror"@.len() == 6);
    assert("hollow"@.len() == 6);
    assert("wall_thickness"@.len() == 14);
    assert("elongate"@.len() == 8);
    assert("elongation"@.len() == 10);
    assert("mirror"@[0] != "hollow"@[0]);
    reveal_with_fuel(spec_names_distinct, 9);
    reveal_with_fuel(spec_name_absent, 9);
    reveal_with_fuel(spec_names_apart, 9);
}

proof fn lemma_primitive_parts_0_1_apart()
    ensures
        spec_names_apart(spec_primitive_inputs().subrange(0, 8), spec_primitive_inputs().subrange(8, 16)),
{
    reveal_strlit("base");
    reveal_strlit("children");
    reveal_strlit("corner_radius");
    reveal_strlit("depth");
    reveal_strlit("height");
    reveal_strlit("hollow_height");
    reveal_strlit("hollow_radius");
    reveal_strlit("material");
    reveal_strlit("normal");
    reveal_strlit("radii");
    reveal_strlit("radius");
    reveal_strlit("shape");
    reveal_strlit("siblings");
    reveal_strlit("solid_angle");
    reveal_strlit("thickness");
    reveal_strlit("width");
    assert("siblings"@.len() == 8);
    assert("children"@.len() == 8);
    assert("material"@.len() == 8);
    assert("shape"@.len() == 5);
    assert("radius"@.len() == 6);
    assert("radii"@.len() == 5);
    assert("height"@.len() == 6);
    assert("hollow_radius"@.len() == 13);
    assert("hollow_height"@.len() == 13);
    assert("solid_angle"@.len() == 11);
    assert("width"@.len() == 5);
    assert("depth"@.len() == 5);
    assert("thickness"@.len() == 9);
    assert("corner_radius"@.len() == 13);
    assert("base"@.len() == 4);
    assert("normal"@.len() == 6);
    assert("shape"@[0] != "width"@[0]);
    assert("shape"@[0] != "depth"@[0]);
    assert("radius"@[0] != "normal"@[0]);
    assert("radii"@[0] != "width"@[0]);
    assert("radii"@[0] != "depth"@[0]);
    assert("height"@[0] != "normal"@[0]);
    assert("hollow_radius"@[7] != "hollow_height"@[7]);
    assert("hollow_radius"@[0] != "corner_radius"@[0]);
    reveal_with_fuel(spec_names_distinct, 9);
    reveal_with_fuel(spec_name_absent, 9);
    reveal_with_fuel(spec_names_apart, 9);
}

proof fn lemma_primitive_parts_0_2_apart()
    ensures
        spec_names_apart(spec_primitive_inputs().subrange(0, 8), spec_primitive_inputs().subrange(16, 24)),
{
    reveal_strlit("angle");
    reveal_strlit("cap_angle");
    reveal_strlit("children");
    reveal_strlit("height");
    reveal_strlit("hollow_radius");
    reveal_strlit("lower_radius");
    reveal_strlit("material");
    reveal_strlit("negative_height");
    reveal_strlit("positive_height");
    reveal_strlit("radii");
    reveal_strlit("radius");
    reveal_strlit("ring_radius");
    reveal_strlit("shape");
    reveal_strlit("siblings");
    reveal_strlit("tube_radius");
    reveal_strlit("upper_radius");
    assert("siblings"@.len() == 8);
    assert("children"@.len() == 8);
    assert("material"@.len() == 8);
    assert("shape"@.len() == 5);
    assert("radius"@.len() == 6);
    assert("radii"@.len() == 5);
    assert("height"@.len() == 6);
    assert("hollow_radius"@.len() == 13);
    assert("negative_height"@.len() == 15);
    assert("positive_height"@.len() == 15);
    assert("angle"@.len() == 5);
    assert("lower_radius"@.len() == 12);
    assert("upper_radius"@.len() == 12);
    assert("ring_radius"@.len() == 11);
    assert("tube_radius"@.len() == 11);
    assert("cap_angle"@.len() == 9);
    assert("shape"@[0] != "angle"@[0]);
    assert("radii"@[0] != "angle"@[0]);
    reveal_with_fuel(spec_names_distinct, 9);
    reveal_with_fuel(spec_name_absent, 9);
    reveal_with_fuel(spec_names_apart, 9);
}

proof fn lemma_primitive_parts_0_3_apart()
    ensures
        spec_names_apart(spec_primitive_inputs().subrange(0, 8), spec_primitive_inputs().subrange(24, 32)),
{
    reveal_strlit("children");
    reveal_strlit("folding_limit");
    reveal_strlit("height");
    reveal_strlit("hollow_radius");
    reveal_strlit("iterations");
    reveal_strlit("material");
    reveal_strlit("max_square_radius");
    reveal_strlit("min_square_radius");
    reveal_strlit("power");
    reveal_strlit("radial_extent");
    reveal_strlit("radii");
    reveal_strlit("radius");
    reveal_strlit("scale");
    reveal_strlit("shape");
    reveal_strlit("siblings");
    reveal_strlit("world_matrix");
    assert("siblings"@.len() == 8);
    assert("children"@.len() == 8);
    assert("material"@.len() == 8);
    assert("shape"@.len() == 5);
    assert("radius"@.len() == 6);
    assert("radii"@.len() == 5);
    assert("height"@.len() == 6);
    assert("hollow_radius"@.len() == 13);
    assert("radial_extent"@.len() == 13);
    assert("power"@.len() == 5);
    assert("iterations"@.len() == 10);
    assert("max_square_radius"@.len() == 17);
    assert("scale"@.len() == 5);
    assert("min_square_radius"@.len() == 17);
    assert("folding_limit"@.len() == 13);
    assert("world_matrix"@.len() == 12);
    assert("shape"@[0] != "power"@[0]);
    assert("shape"@[1] != "scale"@[1]);
    assert("radii"@[0] != "power"@[0]);
    assert("radii"@[0] != "scale"@[0]);
    assert("hollow_radius"@[0] != "radial_extent"@[0]);
    assert("hollow_radius"@[0] != "folding_limit"@[0]);
    reveal_with_fuel(spec_names_distinct, 9);
    reveal_with_fuel(spec_name_absent, 9);
    reveal_with_fuel(spec_names_apart, 9);
}

proof fn lemma_primitive_parts_0_4_apart()
    ensures
        spec_names_apart(spec_primitive_inputs().subrange(0, 8), spec_primitive_inputs().subrange(32, 40)),
{
    reveal_strlit("blend_strength");
    reveal_strlit("blend_type");
    reveal_strlit("bounding_volume");
    reveal_strlit("children");
    reveal_strlit("edge_radius");
    reveal_strlit("height");
    reveal_strlit("hollow_radius");
    reveal_strlit("material");
    reveal_strlit("negative_repetitions");
    reveal_strlit("positive_repetitions");
    reveal_strlit("radii");
    reveal_strlit("radius");
    reveal_strlit("repetition");
    reveal_strlit("shape");
    reveal_strlit("siblings");
    reveal_strlit("spacing");
    assert("siblings"@.len() == 8);
    assert("children"@.len() == 8);
    assert("material"@.len() == 8);
    assert("shape"@.len() == 5);
    assert("radius"@.len() == 6);
    assert("radii"@.len() == 5);
    assert("height"@.len() == 6);
    assert("hollow_radius"@.len() == 13);
    assert("edge_radius"@.len() == 11);
    assert("repetition"@.len() == 10);
    assert("negative_repetitions"@.len() == 20);
    assert("positive_repetitions"@.len() == 20);
    assert("spacing"@.len() == 7);
    assert("bounding_volume"@.len() == 15);
    assert("blend_type"@.len() == 10);
    assert("blend_strength"@.len() == 14);
    reveal_with_fuel(spec_names_distinct, 9);
    reveal_with_fuel(spec_name_absent, 9);
    reveal_with_fuel(spec_names_apart, 9);
}

proof fn lemma_primitive_parts_0_5_apart()
    ensures
        spec_names_apart(spec_primitive_inputs().subrange(0, 8), spec_primitive_inputs().subrange(40, 45)),
{
    reveal_strlit("children");
    reveal_strlit("elongate");
    reveal_strlit("elongation");
    reveal_strlit("height");
    reveal_strlit("hollow");
    reveal_strlit("hollow_radius");
    reveal_strlit("material");
    reveal_strlit("mirror");
    reveal_strlit("radii");
    reveal_strlit("radius");
    reveal_strlit("shape");
    reveal_strlit("siblings");
    reveal_strlit("wall_thickness");
    assert("siblings"@.len() == 8);
    assert("children"@.len() == 8);
    assert("material"@.len() == 8);
    assert("shape"@.len() == 5);
    assert("radius"@.len() == 6);
    assert("radii"@.len() == 5);
    assert("height"@.len() == 6);
    assert("hollow_radius"@.len() == 13);
    assert("mirror"@.len() == 6);
    assert("hollow"@.len() == 6);
    assert("wall_thickness"@.len() == 14);
    assert("elongate"@.len() == 8);
    assert("elongation"@.len() == 10);
    assert("siblings"@[0] != "elongate"@[0]);
    assert("children"@[0] != "elongate"@[0]);
    assert("material"@[0] != "elongate"@[0]);
    assert("radius"@[0] != "mirror"@[0]);
    assert("radius"@[0] != "hollow"@[0]);
    assert("height"@[0] != "mirror"@[0]);
    assert("height"@[1] != "hollow"@[1]);
    reveal_with_fuel(spec_names_distinct, 9);
    reveal_with_fuel(spec_name_absent, 9);
    reveal_with_fuel(spec_names_apart, 9);
}

proof fn lemma_primitive_parts_1_2_apart()
    ensures
        spec_names_apart(spec_primitive_inputs().subrange(8, 16), spec_primitive_inputs().subrange(16, 24)),
{
    reveal_strlit("angle");
    reveal_strlit("base");
    reveal_strlit("cap_angle");
    reveal_strlit("corner_radius");
    reveal_strlit("depth");
    reveal_strlit("hollow_height");
    reveal_strlit("lower_radius");
    reveal_strlit("negative_height");
    reveal_strlit("normal");
    reveal_strlit("positive_height");
    reveal_strlit("ring_radius");
    reveal_strlit("solid_angle");
    reveal_strlit("thickness");
    reveal_strlit("tube_radius");
    reveal_strlit("upper_radius");
    reveal_strlit("width");
    assert("hollow_height"@.len() == 13);
    assert("solid_angle"@.len() == 11);
    assert("width"@.len() == 5);
    assert("depth"@.len() == 5);
    assert("thickness"@.len() == 9);
    assert("corner_radius"@.len() == 13);
    assert("base"@.len() == 4);
    assert("normal"@.len() == 6);
    assert("negative_height"@.len() == 15);
    assert("positive_height"@.len() == 15);
    assert("angle"@.len() == 5);
    assert("lower_radius"@.len() == 12);
    assert("upper_radius"@.len() == 12);
    assert("ring_radius"@.len() == 11);
    assert("tube_radius"@.len() == 11);
    assert("cap_angle"@.len() == 9);
    assert("solid_angle"@[0] != "ring_radius"@[0]);
    assert("solid_angle"@[0] != "tube_radius"@[0]);
    assert("width"@[0] != "angle"@[0]);
    assert("depth"@[0] != "angle"@[0]);
    assert("thickness"@[0] != "cap_angle"@[0]);
    reveal_with_fuel(spec_names_distinct, 9);
    reveal_with_fuel(spec_name_absent, 9);
    reveal_with_fuel(spec_names_apart, 9);
}

proof fn lemma_primitive_parts_1_3_apart()
    ensures
        spec_names_apart(spec_primitive_inputs().subrange(8, 16), spec_primitive_inputs().subrange(24, 32)),
{
    reveal_strlit("base");
    reveal_strlit("corner_radius");
    reveal_strlit("depth");
    reveal_strlit("folding_limit");
    reveal_strlit("hollow_height");
    reveal_strlit("iterations");
    reveal_strlit("max_square_radius");
    reveal_strlit("min_square_radius");
    reveal_strlit("normal");
    reveal_strlit("power");
    reveal_strlit("radial_extent");
    reveal_strlit("scale");
    reveal_strlit("solid_angle");
    reveal_strlit("thickness");
    reveal_strlit("width");
    reveal_strlit("world_matrix");
    assert("hollow_height"@.len() == 13);
    assert("solid_angle"@.len() == 11);
    assert("width"@.len() == 5);
    assert("depth"@.len() == 5);
    assert("thickness"@.len() == 9);
    assert("corner_radius"@.len() == 13);
    assert("base"@.len() == 4);
    assert("normal"@.len() == 6);
    assert("radial_extent"@.len() == 13);
    assert("power"@.len() == 5);
    assert("iterations"@.len() == 10);
    assert("max_square_radius"@.len() == 17);
    assert("scale"@.len() == 5);
    assert("min_square_radius"@.len() == 17);
    assert("folding_limit"@.len() == 13);
    assert("world_matrix"@.len() == 12);
    assert("hollow_height"@[0] != "radial_extent"@[0]);
    assert("hollow_height"@[0] != "folding_limit"@[0]);
    assert("width"@[0] != "power"@[0]);
    assert("width"@[0] != "scale"@[0]);
    assert("depth"@[0] != "power"@[0]);
    assert("depth"@[0] != "scale"@[0]);
    assert("corner_radius"@[0] != "radial_extent"@[0]);
    assert("corner_radius"@[0] != "folding_limit"@[0]);
    reveal_with_fuel(spec_names_distinct, 9);
    reveal_with_fuel(spec_name_absent, 9);
    reveal_with_fuel(spec_names_apart, 9);
}

proof fn lemma_primitive_parts_1_4_apart()
    ensures
        spec_names_apart(spec_primitive_inputs().subrange(8, 16), spec_primitive_inputs().subrange(32, 40)),
{
    reveal_strlit("base");
    reveal_strlit("blend_strength");
    reveal_strlit("blend_type");
    reveal_strlit("bounding_volume");
    reveal_strlit("corner_radius");
    reveal_strlit("depth");
    reveal_strlit("edge_radius");
    reveal_strlit("hollow_height");
    reveal_strlit("negative_repetitions");
    reveal_strlit("normal");
    reveal_strlit("positive_repetitions");
    reveal_strlit("repetition");
    reveal_strlit("solid_angle");
    reveal_strlit("spacing");
    reveal_strlit("thickness");
    reveal_strlit("width");
    assert("hollow_height"@.len() == 13);
    assert("solid_angle"@.len() == 11);
    assert("width"@.len() == 5);
    assert("depth"@.len() == 5);
    assert("thickness"@.len() == 9);
    assert("corner_radius"@.len() == 13);
    assert("base"@.len() == 4);
    assert("normal"@.len() == 6);
    assert("edge_radius"@.len() == 11);
    assert("repetition"@.len() == 10);
    assert("negative_repetitions"@.len() == 20);
    assert("positive_repetitions"@.len() == 20);
    assert("spacing"@.len() == 7);
    assert("bounding_volume"@.len() == 15);
    assert("blend_type"@.len() == 10);
    assert("blend_strength"@.len() == 14);
    assert("solid_angle"@[0] != "edge_radius"@[0]);
    reveal_with_fuel(spec_names_distinct, 9);
    reveal_with_fuel(spec_name_absent, 9);
    reveal_with_fuel(spec_names_apart, 9);
}

proof fn lemma_primitive_parts_1_5_apart()
    ensures
        spec_names_apart(spec_primitive_inputs().subrange(8, 16), spec_primitive_inputs().subrange(40, 45)),
{
    reveal_strlit("base");
    reveal_strlit("corner_radius");
    reveal_strlit("depth");
    reveal_strlit("elongate");
    reveal_strlit("elongation");
    reveal_strlit("hollow");
    reveal_strlit("hollow_height");
    reveal_strlit("mirror");
    reveal_strlit("normal");
    reveal_strlit("solid_angle");
    reveal_strlit("thickness");
    reveal_strlit("wall_thickness");
    reveal_strlit("width");
    assert("hollow_height"@.len() == 13);
    assert("solid_angle"@.len() == 11);
    assert("width"@.len() == 5);
    assert("depth"@.len() == 5);
    assert("thickness"@.len() == 9);
    assert("corner_radius"@.len() == 13);
    assert("base"@.len() == 4);
    assert("normal"@.len() == 6);
    assert("mirror"@.len() == 6);
    assert("hollow"@.len() == 6);
    assert("wall_thickness"@.len() == 14);
    assert("elongate"@.len() == 8);
    assert("elongation"@.len() == 10);
    assert("normal"@[0] != "mirror"@[0]);
    assert("normal"@[0] != "hollow"@[0]);
    reveal_with_fuel(spec_names_distinct, 9);
    reveal_with_fuel(spec_name_absent, 9);
    reveal_with_fuel(spec_names_apart, 9);
}

proof fn lemma_primitive_parts_2_3_apart()
    ensures
        spec_names_apart(spec_primitive_inputs().subrange(16, 24), spec_primitive_inputs().subrange(24, 32)),
{
    reveal_strlit("angle");
    reveal_strlit("cap_angle");
    reveal_strlit("folding_limit");
    reveal_strlit("iterations");
    reveal_strlit("lower_radius");
    reveal_strlit("max_square_radius");
    reveal_strlit("min_square_radius");
    reveal_strlit("negative_height");
    reveal_strlit("positive_height");
    reveal_strlit("power");
    reveal_strlit("radial_extent");
    reveal_strlit("ring_radius");
    reveal_strlit("scale");
    reveal_strlit("tube_radius");
    reveal_strlit("upper_radius");
    reveal_strlit("world_matrix");
    assert("negative_height"@.len() == 15);
    assert("positive_height"@.len() == 15);
    assert("angle"@.len() == 5);
    assert("lower_radius"@.len() == 12);
    assert("upper_radius"@.len() == 12);
    assert("ring_radius"@.len() == 11);
    assert("tube_radius"@.len() == 11);
    assert("cap_angle"@.len() == 9);
    assert("radial_extent"@.len() == 13);
    assert("power"@.len() == 5);
    assert("iterations"@.len() == 10);
    assert("max_square_radius"@.len() == 17);
    assert("scale"@.len() == 5);
    assert("min_square_radius"@.len() == 17);
    assert("folding_limit"@.len() == 13);
    assert("world_matrix"@.len() == 12);
    assert("angle"@[0] != "power"@[0]);
    assert("angle"@[0] != "scale"@[0]);
    assert("lower_radius"@[0] != "world_matrix"@[0]);
    assert("upper_radius"@[0] != "world_matrix"@[0]);
    reveal_with_fuel(spec_names_distinct, 9);
    reveal_with_fuel(spec_name_absent, 9);
    reveal_with_fuel(spec_names_apart, 9);
}

proof fn lemma_primitive_parts_2_4_apart()
    ensures
        spec_names_apart(spec_primitive_inputs().subrange(16, 24), spec_primitive_inputs().subrange(32, 40)),
{
    reveal_strlit("angle");
    reveal_strlit("blend_strength");
    reveal_strlit("blend_type");
    reveal_strlit("bounding_volume");
    reveal_strlit("cap_angle");
    reveal_strlit("edge_radius");
    reveal_strlit("lower_radius");
    reveal_strlit("negative_height");
    reveal_strlit("negative_repetitions");
    reveal_strlit("positive_height");
    reveal_strlit("positive_repetitions");
    reveal_strlit("repetition");
    reveal_strlit("ring_radius");
    reveal_strlit("spacing");
    reveal_strlit("tube_radius");
    reveal_strlit("upper_radius");
    assert("negative_height"@.len() == 15);
    assert("positive_height"@.len() == 15);
    assert("angle"@.len() == 5);
    assert("lower_radius"@.len() == 12);
    assert("upper_radius"@.len() == 12);
    assert("ring_radius"@.len() == 11);
    assert("tube_radius"@.len() == 11);
    assert("cap_angle"@.len() == 9);
    assert("edge_radius"@.len() == 11);
    assert("repetition"@.len() == 10);
    assert("negative_repetitions"@.len() == 20);
    assert("positive_repetitions"@.len() == 20);
    assert("spacing"@.len() == 7);
    assert("bounding_volume"@.len() == 15);
    assert("blend_type"@.len() == 10);
    assert("blend_strength"@.len() == 14);
    assert("negative_height"@[0] != "bounding_volume"@[0]);
    assert("positive_height"@[0] != "bounding_volume"@[0]);
    assert("ring_radius"@[0] != "edge_radius"@[0]);
    assert("tube_radius"@[0] != "edge_radius"@[0]);
    reveal_with_fuel(spec_names_distinct, 9);
    reveal_with_fuel(spec_name_absent, 9);
    reveal_with_fuel(spec_names_apart, 9);
}

proof fn lemma_primitive_parts_2_5_apart()
    ensures
        spec_names_apart(spec_primitive_inputs().subrange(16, 24), spec_primitive_inputs().subrange(40, 45)),
{
    reveal_strlit("angle");
    reveal_strlit("cap_angle");
    reveal_strlit("elongate");
    reveal_strlit("elongation");
    reveal_strlit("hollow");
    reveal_strlit("lower_radius");
    reveal_strlit("mirror");
    reveal_strlit("negative_height");
    reveal_strlit("positive_height");
    reveal_strlit("ring_radius");
    reveal_strlit("tube_radius");
    reveal_strlit("upper_radius");
    reveal_strlit("wall_thickness");
    assert("negative_height"@.len() == 15);
    assert("positive_height"@.len() == 15);
    assert("angle"@.len() == 5);
    assert("lower_radius"@.len() == 12);
    assert("upper_radius"@.len() == 12);
    assert("ring_radius"@.len() == 11);
    assert("tube_radius"@.len() == 11);
    assert("cap_angle"@.len() == 9);
    assert("mirror"@.len() == 6);
    assert("hollow"@.len() == 6);
    assert("wall_thickness"@.len() == 14);
    assert("elongate"@.len() == 8);
    assert("elongation"@.len() == 10);
    reveal_with_fuel(spec_names_distinct, 9);
    reveal_with_fuel(spec_name_absent, 9);
    reveal_with_fuel(spec_names_apart, 9);
}

proof fn lemma_primitive_parts_3_4_apart()
    ensures
        spec_names_apart(spec_primitive_inputs().subrange(24, 32), spec_primitive_inputs().subrange(32, 40)),
{
    reveal_strlit("blend_strength");
    reveal_strlit("blend_type");
    reveal_strlit("bounding_volume");
    reveal_strlit("edge_radius");
    reveal_strlit("folding_limit");
    reveal_strlit("iterations");
    reveal_strlit("max_square_radius");
    reveal_strlit("min_square_radius");
    reveal_strlit("negative_repetitions");
    reveal_strlit("positive_repetitions");
    reveal_strlit("power");
    reveal_strlit("radial_extent");
    reveal_strlit("repetition");
    reveal_strlit("scale");
    reveal_strlit("spacing");
    reveal_strlit("world_matrix");
    assert("radial_extent"@.len() == 13);
    assert("power"@.len() == 5);
    assert("iterations"@.len() == 10);
    assert("max_square_radius"@.len() == 17);
    assert("scale"@.len() == 5);
    assert("min_square_radius"@.len() == 17);
    assert("folding_limit"@.len() == 13);
    assert("world_matrix"@.len() == 12);
    assert("edge_radius"@.len() == 11);
    assert("repetition"@.len() == 10);
    assert("negative_repetitions"@.len() == 20);
    assert("positive_repetitions"@.len() == 20);
    assert("spacing"@.len() == 7);
    assert("bounding_volume"@.len() == 15);
    assert("blend_type"@.len() == 10);
    assert("blend_strength"@.len() == 14);
    assert("iterations"@[0] != "repetition"@[0]);
    assert("iterations"@[0] != "blend_type"@[0]);
    reveal_with_fuel(spec_names_distinct, 9);
    reveal_with_fuel(spec_name_absent, 9);
    reveal_with_fuel(spec_names_apart, 9);
}

proof fn lemma_primitive_parts_3_5_apart()
    ensures
        spec_names_apart(spec_primitive_inputs().subrange(24, 32), spec_primitive_inputs().subrange(40, 45)),
{
    reveal_strlit("elongate");
    reveal_strlit("elongation");
    reveal_strlit("folding_limit");
    reveal_strlit("hollow");
    reveal_strlit("iterations");
    reveal_strlit("max_square_radius");
    reveal_strlit("min_square_radius");
    reveal_strlit("mirror");
    reveal_strlit("power");
    reveal_strlit("radial_extent");
    reveal_strlit("scale");
    reveal_strlit("wall_thickness");
    reveal_strlit("world_matrix");
    assert("radial_extent"@.len() == 13);
    assert("power"@.len() == 5);
    assert("iterations"@.len() == 10);
    assert("max_square_radius"@.len() == 17);
    assert("scale"@.len() == 5);
    assert("min_square_radius"@.len() == 17);
    assert("folding_limit"@.len() == 13);
    assert("world_matrix"@.len() == 12);
    assert("mirror"@.len() == 6);
    assert("hollow"@.len() == 6);
    assert("wall_thickness"@.len() == 14);
    assert("elongate"@.len() == 8);
    assert("elongation"@.len() == 10);
    assert("iterations"@[0] != "elongation"@[0]);
    reveal_with_fuel(spec_names_distinct, 9);
    reveal_with_fuel(spec_name_absent, 9);
    reveal_with_fuel(spec_names_apart, 9);
}

proof fn lemma_primitive_parts_4_5_apart()
    ensures
        spec_names_apart(spec_primitive_inputs().subrange(32, 40), spec_primitive_inputs().subrange(40, 45)),
{
    reveal_strlit("blend_strength");
    reveal_strlit("blend_type");
    reveal_strlit("bounding_volume");
    reveal_strlit("edge_radius");
    reveal_strlit("elongate");
    reveal_strlit("elongation");
    reveal_strlit("hollow");
    reveal_strlit("mirror");
    reveal_strlit("negative_repetitions");
    reveal_strlit("positive_repetitions");
    reveal_strlit("repetition");
    reveal_strlit("spacing");
    reveal_strlit("wall_thickness");
    assert("edge_radius"@.len() == 11);
    assert("repetition"@.len() == 10);
    assert("negative_repetitions"@.len() == 20);
    assert("positive_repetitions"@.len() == 20);
    assert("spacing"@.len() == 7);
    assert("bounding_volume"@.len() == 15);
    assert("blend_type"@.len() == 10);
    assert("blend_strength"@.len() == 14);
    assert("mirror"@.len() == 6);
    assert("hollow"@.len() == 6);
    assert("wall_thickness"@.len() == 14);
    assert("elongate"@.len() == 8);
    assert("elongation"@.len() == 10);
    assert("repetition"@[0] != "elongation"@[0]);
    assert("blend_type"@[0] != "elongation"@[0]);
    assert("blend_strength"@[0] != "wall_thickness"@[0]);
    reveal_with_fuel(spec_names_distinct, 9);
    reveal_with_fuel(spec_name_absent, 9);
    reveal_with_fuel(spec_names_apart, 9);
}

proof fn lemma_primitive_names_distinct()
    ensures
        spec_names_distinct(spec_primitive_inputs()),
{
    let s = spec_primitive_inputs();
    let c0 = s.subrange(0, 8);
    lemma_primitive_part_0_distinct();
    let c1 = s.subrange(8, 16);
    lemma_primitive_part_1_distinct();
    let c2 = s.subrange(16, 24);
    lemma_primitive_part_2_distinct();
    let c3 = s.subrange(24, 32);
    lemma_primitive_part_3_distinct();
    let c4 = s.subrange(32, 40);
    lemma_primitive_part_4_distinct();
    let c5 = s.subrange(40, 45);
    lemma_primitive_part_5_distinct();
    let t5 = c5;
    let t4 = c4 + t5;
    let t3 = c3 + t4;
    let t2 = c2 + t3;
    let t1 = c1 + t2;
    let t0 = c0 + t1;
    lemma_primitive_parts_4_5_apart();
    lemma_distinct_concat(c4, t5);
    lemma_primitive_parts_3_5_apart();
    lemma_primitive_parts_3_4_apart();
    lemma_apart_concat_right(c3, c4, t5);
    lemma_distinct_concat(c3, t4);
    lemma_primitive_parts_2_5_apart();
    lemma_primitive_parts_2_4_apart();
    lemma_apart_concat_right(c2, c4, t5);
    lemma_primitive_parts_2_3_apart();
    lemma_apart_concat_right(c2, c3, t4);
    lemma_distinct_concat(c2, t3);
    lemma_primitive_parts_1_5_apart();
    lemma_primitive_parts_1_4_apart();
    lemma_apart_concat_right(c1, c4, t5);
    lemma_primitive_parts_1_3_apart();
    lemma_apart_concat_right(c1, c3, t4);
    lemma_primitive_parts_1_2_apart();
    lemma_apart_concat_right(c1, c2, t3);
    lemma_distinct_concat(c1, t2);
    lemma_primitive_parts_0_5_apart();
    lemma_primitive_parts_0_4_apart();
    lemma_apart_concat_right(c0, c4, t5);
    lemma_primitive_parts_0_3_apart();
    lemma_apart_concat_right(c0, c3, t4);
    lemma_primitive_parts_0_2_apart();
    lemma_apart_concat_right(c0, c2, t3);
    lemma_primitive_parts_0_1_apart();
    lemma_apart_concat_right(c0, c1, t2);
    lemma_distinct_concat(c0, t1);
    assert(t0 =~= s);
}

proof fn lemma_procedural_texture_part_0_distinct()
    ensures
        spec_names_distinct(spec_procedural_texture_inputs().subrange(0, 8)),
{
    reveal_strlit("black_point");
    reveal_strlit("gain");
    reveal_strlit("lacunarity");
    reveal_strlit("lift");
    reveal_strlit("octaves");
    reveal_strlit("scale");
    reveal_strlit("texture_type");
    reveal_strlit("white_point");
    assert("texture_type"@.len() == 12);
    assert("scale"@.len() == 5);
    assert("black_point"@.len() == 11);
    assert("white_point"@.len() == 11);
    assert("lift"@.len() == 4);
    assert("gain"@.len() == 4);
    assert("octaves"@.len() == 7);
    assert("lacunarity"@.len() == 10);
    assert("black_point"@[0] != "white_point"@[0]);
    assert("lift"@[0] != "gain"@[0]);
    reveal_with_fuel(spec_names_distinct, 9);
    reveal_with_fuel(spec_name_absent, 9);
    reveal_with_fuel(spec_names_apart, 9);
}

proof fn lemma_procedural_texture_part_1_distinct()
    ensures
        spec_names_distinct(spec_procedural_texture_inputs().subrange(8, 16)),
{
    reveal_strlit("amplitude_gain");
    reveal_strlit("gamma");
    reveal_strlit("high_frequency_scale");
    reveal_strlit("high_frequency_translation");
    reveal_strlit("invert");
    reveal_strlit("low_frequency_scale");
    reveal_strlit("low_frequency_translation");
    reveal_strlit("use_trap_colour");
    assert("amplitude_gain"@.len() == 14);
    assert("gamma"@.len() == 5);
    assert("low_frequency_scale"@.len() == 19);
    assert("high_frequency_scale"@.len() == 20);
    assert("low_frequency_translation"@.len() == 25);
    assert("high_frequency_translation"@.len() == 26);
    assert("invert"@.len() == 6);
    assert("use_trap_colour"@.len() == 15);
    reveal_with_fuel(spec_names_distinct, 9);
    reveal_with_fuel(spec_name_absent, 9);
    reveal_with_fuel(spec_names_apart, 9);
}

proof fn lemma_procedural_texture_part_2_distinct()
    ensures
        spec_names_distinct(spec_procedural_texture_inputs().subrange(16, 17)),
{
    reveal_strlit("hue_rotation_angles");
    assert("hue_rotation_angles"@.len() == 19);
    reveal_with_fuel(spec_names_distinct, 9);
    reveal_with_fuel(spec_name_absent, 9);
    reveal_with_fuel(spec_names_apart, 9);
}

proof fn lemma_procedural_texture_parts_0_1_apart()
    ensures
        spec_names_apart(spec_procedural_texture_inputs().subrange(0, 8), spec_procedural_texture_inputs().subrange(8, 16)),
{
    reveal_strlit("amplitude_gain");
    reveal_strlit("black_point");
    reveal_strlit("gain");
    reveal_strlit("gamma");
    reveal_strlit("high_frequency_scale");
    reveal_strlit("high_frequency_translation");
    reveal_strlit("invert");
    reveal_strlit("lacunarity");
    reveal_strlit("lift");
    reveal_strlit("low_frequency_scale");
    reveal_strlit("low_frequency_translation");
    reveal_strlit("octaves");
    reveal_strlit("scale");
    reveal_strlit("texture_type");
    reveal_strlit("use_trap_colour");
    reveal_strlit("white_point");
    assert("texture_type"@.len() == 12);
    assert("scale"@.len() == 5);
    assert("black_point"@.len() == 11);
    assert("white_point"@.len() == 11);
    assert("lift"@.len() == 4);
    assert("gain"@.len() == 4);
    assert("octaves"@.len() == 7);
    assert("lacunarity"@.len() == 10);
    assert("amplitude_gain"@.len() == 14);
    assert("gamma"@.len() == 5);
    assert("low_frequency_scale"@.len() == 19);
    assert("high_frequency_scale"@.len() == 20);
    assert("low_frequency_translation"@.len() == 25);
    assert("high_frequency_translation"@.len() == 26);
    assert("invert"@.len() == 6);
    assert("use_trap_colour"@.len() == 15);
    assert("scale"@[0] != "gamma"@[0]);
    reveal_with_fuel(spec_names_distinct, 9);
    reveal_with_fuel(spec_name_absent, 9);
    reveal_with_fuel(spec_names_apart, 9);
}

proof fn lemma_procedural_texture_parts_0_2_apart()
    ensures
        spec_names_apart(spec_procedural_texture_inputs().subrange(0, 8), spec_procedural_texture_inputs().subrange(16, 17)),
{
    reveal_strlit("black_point");
    reveal_strlit("gain");
    reveal_strlit("hue_rotation_angles");
    reveal_strlit("lacunarity");
    reveal_strlit("lift");
    reveal_strlit("octaves");
    reveal_strlit("scale");
    reveal_strlit("texture_type");
    reveal_strlit("white_point");
    assert("texture_type"@.len() == 12);
    assert("scale"@.len() == 5);
    assert("black_point"@.len() == 11);
    assert("white_point"@.len() == 11);
    assert("lift"@.len() == 4);
    assert("gain"@.len() == 4);
    assert("octaves"@.len() == 7);
    assert("lacunarity"@.len() == 10);
    assert("hue_rotation_angles"@.len() == 19);
    reveal_with_fuel(spec_names_distinct, 9);
    reveal_with_fuel(spec_name_absent, 9);
    reveal_with_fuel(spec_names_apart, 9);
}

proof fn lemma_procedural_texture_parts_1_2_apart()
    ensures
        spec_names_apart(spec_procedural_texture_inputs().subrange(8, 16), spec_procedural_texture_inputs().subrange(16, 17)),
{
    reveal_strlit("amplitude_gain");
    reveal_strlit("gamma");
    reveal_strlit("high_frequency_scale");
    reveal_strlit("high_frequency_translation");
    reveal_strlit("hue_rotation_angles");
    reveal_strlit("invert");
    reveal_strlit("low_frequency_scale");
    reveal_strlit("low_frequency_translation");
    reveal_strlit("use_trap_colour");
    assert("amplitude_gain"@.len() == 14);
    assert("gamma"@.len() == 5);
    assert("low_frequency_scale"@.len() == 19);
    assert("high_frequency_scale"@.len() == 20);
    assert("low_frequency_translation"@.len() == 25);
    assert("high_frequency_translation"@.len() == 26);
    assert("invert"@.len() == 6);
    assert("use_trap_colour"@.len() == 15);
    assert("hue_rotation_angles"@.len() == 19);
    assert("low_frequency_scale"@[0] != "hue_rotation_angles"@[0]);
    reveal_with_fuel(spec_names_distinct, 9);
    reveal_with_fuel(spec_name_absent, 9);
    reveal_with_fuel(spec_names_apart, 9);
}

proof fn lemma_procedural_texture_names_distinct()
    ensures
        spec_names_distinct(spec_procedural_texture_inputs()),
{
    let s = spec_procedural_texture_inputs();
    let c0 = s.subrange(0, 8);
    lemma_procedural_texture_part_0_distinct();
    let c1 = s.subrange(8, 16);
    lemma_procedural_texture_part_1_distinct();
    let c2 = s.subrange(16, 17);
    lemma_procedural_texture_part_2_distinct();
    let t2 = c2;
    let t1 = c1 + t2;
    let t0 = c0 + t1;
    lemma_procedural_texture_parts_1_2_apart();
    lemma_distinct_concat(c1, t2);
    lemma_procedural_texture_parts_0_2_apart();
    lemma_procedural_texture_parts_0_1_apart();
    lemma_apart_concat_right(c0, c1, t2);
    lemma_distinct_concat(c0, t1);
    assert(t0 =~= s);
}

proof fn lemma_ray_marcher_part_0_distinct()
    ensures
        spec_names_distinct(spec_ray_marcher_inputs().subrange(0, 8)),
{
    reveal_strlit("dynamic_level_of_detail");
    reveal_strlit("hit_tolerance");
    reveal_strlit("max_bounces");
    reveal_strlit("max_brightness");
    reveal_strlit("max_ray_steps");
    reveal_strlit("scene");
    reveal_strlit("seed");
    reveal_strlit("shadow_bias");
    assert("scene"@.len() == 5);
    assert("max_ray_steps"@.len() == 13);
    assert("max_bounces"@.len() == 11);
    assert("hit_tolerance"@.len() == 13);
    assert("shadow_bias"@.len() == 11);
    assert("max_brightness"@.len() == 14);
    assert("seed"@.len() == 4);
    assert("dynamic_level_of_detail"@.len() == 23);
    assert("max_ray_steps"@[0] != "hit_tolerance"@[0]);
    assert("max_bounces"@[0] != "shadow_bias"@[0]);
    reveal_with_fuel(spec_names_distinct, 9);
    reveal_with_fuel(spec_name_absent, 9);
    reveal_with_fuel(spec_names_apart, 9);
}

proof fn lemma_ray_marcher_part_1_distinct()
    ensures
        spec_names_distinct(spec_ray_marcher_inputs().subrange(8, 15)),
{
    reveal_strlit("equiangular_samples");
    reveal_strlit("light_sampling");
    reveal_strlit("light_sampling_bias");
    reveal_strlit("max_light_sampling_bounces");
    reveal_strlit("output_aov");
    reveal_strlit("sample_atmosphere");
    reveal_strlit("secondary_sampling");
    assert("equiangular_samples"@.len() == 19);
    assert("light_sampling"@.len() == 14);
    assert("max_light_sampling_bounces"@.len() == 26);
    assert("sample_atmosphere"@.len() == 17);
    assert("light_sampling_bias"@.len() == 19);
    assert("secondary_sampling"@.len() == 18);
    assert("output_aov"@.len() == 10);
    assert("equiangular_samples"@[0] != "light_sampling_bias"@[0]);
    reveal_with_fuel(spec_names_distinct, 9);
    reveal_with_fuel(spec_name_absent, 9);
    reveal_with_fuel(spec_names_apart, 9);
}

proof fn lemma_ray_marcher_parts_0_1_apart()
    ensures
        spec_names_apart(spec_ray_marcher_inputs().subrange(0, 8), spec_ray_marcher_inputs().subrange(8, 15)),
{
    reveal_strlit("dynamic_level_of_detail");
    reveal_strlit("equiangular_samples");
    reveal_strlit("hit_tolerance");
    reveal_strlit("light_sampling");
    reveal_strlit("light_sampling_bias");
    reveal_strlit("max_bounces");
    reveal_strlit("max_brightness");
    reveal_strlit("max_light_sampling_bounces");
    reveal_strlit("max_ray_steps");
    reveal_strlit("output_aov");
    reveal_strlit("sample_atmosphere");
    reveal_strlit("scene");
    reveal_strlit("secondary_sampling");
    reveal_strlit("seed");
    reveal_strlit("shadow_bias");
    assert("scene"@.len() == 5);
    assert("max_ray_steps"@.len() == 13);
    assert("max_bounces"@.len() == 11);
    assert("hit_tolerance"@.len() == 13);
    assert("shadow_bias"@.len() == 11);
    assert("max_brightness"@.len() == 14);
    assert("seed"@.len() == 4);
    assert("dynamic_level_of_detail"@.len() == 23);
    assert("equiangular_samples"@.len() == 19);
    assert("light_sampling"@.len() == 14);
    assert("max_light_sampling_bounces"@.len() == 26);
    assert("sample_atmosphere"@.len() == 17);
    assert("light_sampling_bias"@.len() == 19);
    assert("secondary_sampling"@.len() == 18);
    assert("output_aov"@.len() == 10);
    assert("max_brightness"@[0] != "light_sampling"@[0]);
    reveal_with_fuel(spec_names_distinct, 9);
    reveal_with_fuel(spec_name_absent, 9);
    reveal_with_fuel(spec_names_apart, 9);
}

proof fn lemma_ray_marcher_names_distinct()
    ensures
        spec_names_distinct(spec_ray_marcher_inputs()),
{
    let s = spec_ray_marcher_inputs();
    let c0 = s.subrange(0, 8);
    lemma_ray_marcher_part_0_distinct();
    let c1 = s.subrange(8, 15);
    lemma_ray_marcher_part_1_distinct();
    let t1 = c1;
    let t0 = c0 + t1;
    lemma_ray_marcher_parts_0_1_apart();
    lemma_distinct_concat(c0, t1);
    assert(t0 =~= s);
}

proof fn lemma_scene_part_0_distinct()
    ensures
        spec_names_distinct(spec_scene_inputs().subrange(0, 4)),
{
    reveal_strlit("atmosphere");
    reveal_strlit("lights");
    reveal_strlit("primitives");
    reveal_strlit("render_camera");
    assert("render_camera"@.len() == 13);
    assert("primitives"@.len() == 10);
    assert("lights"@.len() == 6);
    assert("atmosphere"@.len() == 10);
    assert("primitives"@[0] != "atmosphere"@[0]);
    reveal_with_fuel(spec_names_distinct, 9);
    reveal_with_fuel(spec_name_absent, 9);
    reveal_with_fuel(spec_names_apart, 9);
}

proof fn lemma_scene_names_distinct()
    ensures
        spec_names_distinct(spec_scene_inputs()),
{
    let s = spec_scene_inputs();
    let c0 = s.subrange(0, 4);
    lemma_scene_part_0_distinct();
    let t0 = c0;
    assert(t0 =~= s);
}

proof fn lemma_texture_part_0_distinct()
    ensures
        spec_names_distinct(spec_texture_inputs().subrange(0, 1)),
{
    reveal_strlit("filepath");
    assert("filepath"@.len() == 8);
    reveal_with_fuel(spec_names_distinct, 9);
    reveal_with_fuel(spec_name_absent, 9);
    reveal_with_fuel(spec_names_apart, 9);
}

proof fn lemma_texture_names_distinct()
    ensures
        spec_names_distinct(spec_texture_inputs()),
{
    let s = spec_texture_inputs();
    let c0 = s.subrange(0, 1);
    lemma_texture_part_0_distinct();
    let t0 = c0;
    assert(t0 =~= s);
}

/// No two inputs of a node share a name, so the callbacks that look an
/// input up by name always reach the one input that carries it.
pub proof fn lemma_input_names_are_distinct(template: NodeTemplate)
    ensures
        spec_names_distinct(template.spec_inputs()),
        forall|i: int, j: int|
            0 <= i < j < template.spec_inputs().len() ==> template.spec_inputs()[i].0
                != template.spec_inputs()[j].0,
{
    match template {
        NodeTemplate::Axis => lemma_axis_names_distinct(),
        NodeTemplate::Camera => lemma_camera_names_distinct(),
        NodeTemplate::Light => lemma_light_names_distinct(),
        NodeTemplate::Grade => lemma_grade_names_distinct(),
        NodeTemplate::Material => lemma_material_names_distinct(),
        NodeTemplate::Primitive => lemma_primitive_names_distinct(),
        NodeTemplate::ProceduralTexture => lemma_procedural_texture_names_distinct(),
        NodeTemplate::RayMarcher => lemma_ray_marcher_names_distinct(),
        NodeTemplate::Scene => lemma_scene_names_distinct(),
        NodeTemplate::Texture => lemma_texture_names_distinct(),
    }
    assert forall|i: int, j: int| 0 <= i < j < template.spec_inputs().len() implies template.spec_inputs()[i].0
        != template.spec_inputs()[j].0 by {
        lemma_distinct_names_differ(template.spec_inputs(), i, j);
    }
}

} // verus!

verus! {

/// The names that the visibility callbacks of a node of `template` may
/// show again: none for a node without such callbacks.
pub open spec fn spec_callback_names(template: NodeTemplate) -> Seq<Seq<char>> {
    match template {
        NodeTemplate::Primitive => spec_primitive_callback_names(),
        NodeTemplate::Light => spec_light_callback_names(),
        NodeTemplate::ProceduralTexture => spec_texture_callback_names(),
        _ => Seq::empty(),
    }
}

/// The advanced options of a ray marcher node, which it builds hidden.
pub open spec fn spec_ray_marcher_advanced_names() -> Seq<Seq<char>> {
    seq!["max_light_sampling_bounces"@, "sample_atmosphere"@, "light_sampling_bias"@, "secondary_sampling"@]
}

proof fn lemma_axis_hidden_inputs()
    ensures
        forall|i: int|
            0 <= i < spec_axis_inputs().len() && #[trigger] spec_axis_inputs()[i].4
                ==> Seq::<Seq<char>>::empty().contains(spec_axis_inputs()[i].0),
{
    let inputs = spec_axis_inputs();
    let names = Seq::<Seq<char>>::empty();
    assert forall|i: int| 0 <= i < inputs.len() && inputs[i].4 implies names.contains(inputs[i].0) by {
        if i == 0 {
            assert(!inputs[0].4);
        } else if i == 1 {
            assert(!inputs[1].4);
        } else if i == 2 {
            assert(!inputs[2].4);
        } else if i == 3 {
            assert(!inputs[3].4);
        }
    }
}

proof fn lemma_camera_hidden_inputs()
    ensures
        forall|i: int|
            0 <= i < spec_camera_inputs().len() && #[trigger] spec_camera_inputs()[i].4
                ==> Seq::<Seq<char>>::empty().contains(spec_camera_inputs()[i].0),
{
    let inputs = spec_camera_inputs();
    let names = Seq::<Seq<char>>::empty();
    assert forall|i: int| 0 <= i < inputs.len() && inputs[i].4 implies names.contains(inputs[i].0) by {
        if i == 0 {
            assert(!inputs[0].4);
        } else if i == 1 {
            assert(!inputs[1].4);
        } else if i == 2 {
            assert(!inputs[2].4);
        } else if i == 3 {
            assert(!inputs[3].4);
        } else if i == 4 {
            assert(!inputs[4].4);
        } else if i == 5 {
            assert(!inputs[5].4);
        } else if i == 6 {
            assert(!inputs[6].4);
        } else if i == 7 {
            assert(!inputs[7].4);
        } else if i == 8 {
            assert(!inputs[8].4);
        } else if i == 9 {
            assert(!inputs[9].4);
        }
    }
}

proof fn lemma_light_hidden_inputs()
    ensures
        forall|i: int|
            0 <= i < spec_light_inputs().len() && #[trigger] spec_light_inputs()[i].4
                ==> spec_light_callback_names().contains(spec_light_inputs()[i].0),
{
    let inputs = spec_light_inputs();
    let names = spec_light_callback_names();
    assert forall|i: int| 0 <= i < inputs.len() && inputs[i].4 implies names.contains(inputs[i].0) by {
        if i == 0 {
            assert(!inputs[0].4);
        } else if i == 1 {
            assert(!inputs[1].4);
        } else if i == 2 {
            assert(!inputs[2].4);
        } else if i == 3 {
            assert(names[0] == inputs[3].0);
        } else if i == 4 {
            assert(names[2] == inputs[4].0);
        } else if i == 5 {
            assert(!inputs[5].4);
        } else if i == 6 {
            assert(!inputs[6].4);
        } else if i == 7 {
            assert(!inputs[7].4);
        } else if i == 8 {
            assert(!inputs[8].4);
        } else if i == 9 {
            assert(!inputs[9].4);
        } else if i == 10 {
            assert(!inputs[10].4);
        }
    }
}

proof fn lemma_grade_hidden_inputs()
    ensures
        forall|i: int|
            0 <= i < spec_grade_inputs().len() && #[trigger] spec_grade_inputs()[i].4
                ==> Seq::<Seq<char>>::empty().contains(spec_grade_inputs()[i].0),
{
    let inputs = spec_grade_inputs();
    let names = Seq::<Seq<char>>::empty();
    assert forall|i: int| 0 <= i < inputs.len() && inputs[i].4 implies names.contains(inputs[i].0) by {
        if i == 0 {
            assert(!inputs[0].4);
        } else if i == 1 {
            assert(!inputs[1].4);
        } else if i == 2 {
            assert(!inputs[2].4);
        } else if i == 3 {
            assert(!inputs[3].4);
        } else if i == 4 {
            assert(!inputs[4].4);
        } else if i == 5 {
            assert(!inputs[5].4);
        } else if i == 6 {
            assert(!inputs[6].4);
        }
    }
}

proof fn lemma_material_hidden_inputs()
    ensures
        forall|i: int|
            0 <= i < spec_material_inputs().len() && #[trigger] spec_material_inputs()[i].4
                ==> Seq::<Seq<char>>::empty().contains(spec_material_inputs()[i].0),
{
    let inputs = spec_material_inputs();
    let names = Seq::<Seq<char>>::empty();
    assert forall|i: int| 0 <= i < inputs.len() && inputs[i].4 implies names.contains(inputs[i].0) by {
        if i == 0 {
            assert(!inputs[0].4);
        } else if i == 1 {
            assert(!inputs[1].4);
        } else if i == 2 {
            assert(!inputs[2].4);
        } else if i == 3 {
            assert(!inputs[3].4);
        } else if i == 4 {
            assert(!inputs[4].4);
        } else if i == 5 {
            assert(!inputs[5].4);
        } else if i == 6 {
            assert(!inputs[6].4);
        } else if i == 7 {
            assert(!inputs[7].4);
        } else if i == 8 {
            assert(!inputs[8].4);
        } else if i == 9 {
            assert(!inputs[9].4);
        } else if i == 10 {
            assert(!inputs[10].4);
        } else if i == 11 {
            assert(!inputs[11].4);
        } else if i == 12 {
            assert(!inputs[12].4);
        } else if i == 13 {
            assert(!inputs[13].4);
        } else if i == 14 {
            assert(!inputs[14].4);
        } else if i == 15 {
            assert(!inputs[15].4);
        } else if i == 16 {
            assert(!inputs[16].4);
        } else if i == 17 {
            assert(!inputs[17].4);
        } else if i == 18 {
            assert(!inputs[18].4);
        } else if i == 19 {
            assert(!inputs[19].4);
        } else if i == 20 {
            assert(!inputs[20].4);
        } else if i == 21 {
            assert(!inputs[21].4);
        } else if i == 22 {
            assert(!inputs[22].4);
        }
    }
}

proof fn lemma_primitive_hidden_inputs()
    ensures
        forall|i: int|
            0 <= i < spec_primitive_inputs().len() && #[trigger] spec_primitive_inputs()[i].4
                ==> spec_primitive_callback_names().contains(spec_primitive_inputs()[i].0),
{
    let inputs = spec_primitive_inputs();
    let names = spec_primitive_callback_names();
    assert forall|i: int| 0 <= i < inputs.len() && inputs[i].4 implies names.contains(inputs[i].0) by {
        if i == 0 {
            assert(!inputs[0].4);
        } else if i == 1 {
            assert(!inputs[1].4);
        } else if i == 2 {
            assert(!inputs[2].4);
        } else if i == 3 {
            assert(!inputs[3].4);
        } else if i == 4 {
            assert(!inputs[4].4);
        } else if i == 5 {
            assert(names[1] == inputs[5].0);
        } else if i == 6 {
            assert(names[2] == inputs[6].0);
        } else if i == 7 {
            assert(names[4] == inputs[7].0);
        } else if i == 8 {
            assert(names[5] == inputs[8].0);
        } else if i == 9 {
            assert(names[6] == inputs[9].0);
        } else if i == 10 {
            assert(names[7] == inputs[10].0);
        } else if i == 11 {
            assert(names[8] == inputs[11].0);
        } else if i == 12 {
            assert(names[3] == inputs[12].0);
        } else if i == 13 {
            assert(names[9] == inputs[13].0);
        } else if i == 14 {
            assert(names[10] == inputs[14].0);
        } else if i == 15 {
            assert(names[11] == inputs[15].0);
        } else if i == 16 {
            assert(names[12] == inputs[16].0);
        } else if i == 17 {
            assert(names[13] == inputs[17].0);
        } else if i == 18 {
            assert(names[14] == inputs[18].0);
        } else if i == 19 {
            assert(names[15] == inputs[19].0);
        } else if i == 20 {
            assert(names[16] == inputs[20].0);
        } else if i == 21 {
            assert(names[17] == inputs[21].0);
        } else if i == 22 {
            assert(names[18] == inputs[22].0);
        } else if i == 23 {
            assert(names[19] == inputs[23].0);
        } else if i == 24 {
            assert(names[20] == inputs[24].0);
        } else if i == 25 {
            assert(names[21] == inputs[25].0);
        } else if i == 26 {
            assert(names[22] == inputs[26].0);
        } else if i == 27 {
            assert(names[23] == inputs[27].0);
        } else if i == 28 {
            assert(names[24] == inputs[28].0);
        } else if i == 29 {
            assert(names[25] == inputs[29].0);
        } else if i == 30 {
            assert(names[26] == inputs[30].0);
        } else if i == 31 {
            assert(!inputs[31].4);
        } else if i == 32 {
            assert(!inputs[32].4);
        } else if i == 33 {
            assert(!inputs[33].4);
        } else if i == 34 {
            assert(names[27] == inputs[34].0);
        } else if i == 35 {
            assert(names[28] == inputs[35].0);
        } else if i == 36 {
            assert(names[29] == inputs[36].0);
        } else if i == 37 {
            assert(!inputs[37].4);
        } else if i == 38 {
            assert(!inputs[38].4);
        } else if i == 39 {
            assert(!inputs[39].4);
        } else if i == 40 {
            assert(!inputs[40].4);
        } else if i == 41 {
            assert(!inputs[41].4);
        } else if i == 42 {
            assert(names[30] == inputs[42].0);
        } else if i == 43 {
            assert(!inputs[43].4);
        } else if i == 44 {
            assert(names[31] == inputs[44].0);
        }
    }
}

proof fn lemma_procedural_texture_hidden_inputs()
    ensures
        forall|i: int|
            0 <= i < spec_procedural_texture_inputs().len() && #[trigger] spec_procedural_texture_inputs()[i].4
                ==> spec_texture_callback_names().contains(spec_procedural_texture_inputs()[i].0),
{
    let inputs = spec_procedural_texture_inputs();
    let names = spec_texture_callback_names();
    assert forall|i: int| 0 <= i < inputs.len() && inputs[i].4 implies names.contains(inputs[i].0) by {
        if i == 0 {
            assert(!inputs[0].4);
        } else if i == 1 {
            assert(names[0] == inputs[1].0);
        } else if i == 2 {
            assert(names[1] == inputs[2].0);
        } else if i == 3 {
            assert(names[2] == inputs[3].0);
        } else if i == 4 {
            assert(names[3] == inputs[4].0);
        } else if i == 5 {
            assert(names[4] == inputs[5].0);
        } else if i == 6 {
            assert(names[5] == inputs[6].0);
        } else if i == 7 {
            assert(names[6] == inputs[7].0);
        } else if i == 8 {
            assert(names[7] == inputs[8].0);
        } else if i == 9 {
            assert(names[8] == inputs[9].0);
        } else if i == 10 {
            assert(names[9] == inputs[10].0);
        } else if i == 11 {
            assert(names[10] == inputs[11].0);
        } else if i == 12 {
            assert(names[11] == inputs[12].0);
        } else if i == 13 {
            assert(names[12] == inputs[13].0);
        } else if i == 14 {
            assert(names[13] == inputs[14].0);
        } else if i == 15 {
            assert(names[14] == inputs[15].0);
        } else if i == 16 {
            assert(names[15] == inputs[16].0);
        }
    }
}

proof fn lemma_ray_marcher_hidden_inputs()
    ensures
        forall|i: int|
            0 <= i < spec_ray_marcher_inputs().len() && #[trigger] spec_ray_marcher_inputs()[i].4
                ==> spec_ray_marcher_advanced_names().contains(spec_ray_marcher_inputs()[i].0),
{
    let inputs = spec_ray_marcher_inputs();
    let names = spec_ray_marcher_advanced_names();
    assert forall|i: int| 0 <= i < inputs.len() && inputs[i].4 implies names.contains(inputs[i].0) by {
        if i == 0 {
            assert(!inputs[0].4);
        } else if i == 1 {
            assert(!inputs[1].4);
        } else if i == 2 {
            assert(!inputs[2].4);
        } else if i == 3 {
            assert(!inputs[3].4);
        } else if i == 4 {
            assert(!inputs[4].4);
        } else if i == 5 {
            assert(!inputs[5].4);
        } else if i == 6 {
            assert(!inputs[6].4);
        } else if i == 7 {
            assert(!inputs[7].4);
        } else if i == 8 {
            assert(!inputs[8].4);
        } else if i == 9 {
            assert(!inputs[9].4);
        } else if i == 10 {
            assert(names[0] == inputs[10].0);
        } else if i == 11 {
            assert(names[1] == inputs[11].0);
        } else if i == 12 {
            assert(names[2] == inputs[12].0);
        } else if i == 13 {
            assert(names[3] == inputs[13].0);
        } else if i == 14 {
            assert(!inputs[14].4);
        }
    }
}

proof fn lemma_scene_hidden_inputs()
    ensures
        forall|i: int|
            0 <= i < spec_scene_inputs().len() && #[trigger] spec_scene_inputs()[i].4
                ==> Seq::<Seq<char>>::empty().contains(spec_scene_inputs()[i].0),
{
    let inputs = spec_scene_inputs();
    let names = Seq::<Seq<char>>::empty();
    assert forall|i: int| 0 <= i < inputs.len() && inputs[i].4 implies names.contains(inputs[i].0) by {
        if i == 0 {
            assert(!inputs[0].4);
        } else if i == 1 {
            assert(!inputs[1].4);
        } else if i == 2 {
            assert(!inputs[2].4);
        } else if i == 3 {
            assert(!inputs[3].4);
        }
    }
}

proof fn lemma_texture_hidden_inputs()
    ensures
        forall|i: int|
            0 <= i < spec_texture_inputs().len() && #[trigger] spec_texture_inputs()[i].4
                ==> Seq::<Seq<char>>::empty().contains(spec_texture_inputs()[i].0),
{
    let inputs = spec_texture_inputs();
    let names = Seq::<Seq<char>>::empty();
    assert forall|i: int| 0 <= i < inputs.len() && inputs[i].4 implies names.contains(inputs[i].0) by {
        if i == 0 {
            assert(!inputs[0].4);
        }
    }
}

/// An input starts hidden only where a callback of its node can show it
/// again; the ray marcher, which has no such callbacks, builds only its
/// advanced options hidden. A node with no visibility callbacks (an axis, a
/// camera, a grade, a material, a scene, a texture) starts with every input
/// shown.
pub proof fn lemma_hidden_inputs_can_be_shown(template: NodeTemplate)
    ensures
        template != NodeTemplate::RayMarcher ==> forall|i: int|
            0 <= i < template.spec_inputs().len() && #[trigger] template.spec_inputs()[i].4
                ==> spec_callback_names(template).contains(template.spec_inputs()[i].0),
        template == NodeTemplate::RayMarcher ==> forall|i: int|
            0 <= i < template.spec_inputs().len() && #[trigger] template.spec_inputs()[i].4
                ==> spec_ray_marcher_advanced_names().contains(template.spec_inputs()[i].0),
{
    match template {
        NodeTemplate::Axis => lemma_axis_hidden_inputs(),
        NodeTemplate::Camera => lemma_camera_hidden_inputs(),
        NodeTemplate::Light => lemma_light_hidden_inputs(),
        NodeTemplate::Grade => lemma_grade_hidden_inputs(),
        NodeTemplate::Material => lemma_material_hidden_inputs(),
        NodeTemplate::Primitive => lemma_primitive_hidden_inputs(),
        NodeTemplate::ProceduralTexture => lemma_procedural_texture_hidden_inputs(),
        NodeTemplate::RayMarcher => lemma_ray_marcher_hidden_inputs(),
        NodeTemplate::Scene => lemma_scene_hidden_inputs(),
        NodeTemplate::Texture => lemma_texture_hidden_inputs(),
    }
}

} // verus!
