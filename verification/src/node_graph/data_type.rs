use vstd::prelude::*;

verus! {

/// The data types of node ports; they decide which ports may be connected.
#[derive(Clone, Copy, Debug, PartialEq, Eq, Structural)]
pub enum NodeDataType {
    // Base types
    Bool,
    BVec3,
    ComboBox,
    Integer,
    UnsignedInteger,
    UVec3,
    Float,
    Vec2,
    Vec3,
    Vec4,
    Mat3,
    Mat4,
    Image,
    // Composite types
    Camera,
    Light,
    Material,
    Primitive,
    ProceduralTexture,
    RayMarcher,
    Scene,
    Texture,
}

impl NodeDataType {
    pub open spec fn spec_name(self) -> Seq<char> {
        match self {
            NodeDataType::Bool => "boolean"@,
            NodeDataType::BVec3 => "3d boolean vector"@,
            NodeDataType::ComboBox => "combo box"@,
            NodeDataType::Integer => "integer"@,
            NodeDataType::UnsignedInteger => "unsigned integer"@,
            NodeDataType::UVec3 => "3d unsigned integer vector"@,
            NodeDataType::Float => "scalar float"@,
            NodeDataType::Vec2 => "2d vector"@,
            NodeDataType::Vec3 => "3d vector"@,
            NodeDataType::Vec4 => "4d vector"@,
            NodeDataType::Mat3 => "3x3 matrix"@,
            NodeDataType::Mat4 => "4x4 matrix"@,
            NodeDataType::Image => "image"@,
            NodeDataType::Camera => "camera"@,
            NodeDataType::Light => "light"@,
            NodeDataType::Material => "material"@,
            NodeDataType::Primitive => "primitive"@,
            NodeDataType::ProceduralTexture => "procedural texture"@,
            NodeDataType::RayMarcher => "ray marcher"@,
            NodeDataType::Scene => "scene"@,
            NodeDataType::Texture => "texture"@,
        }
    }

    /// The name the graph shows for ports of this type.
    pub fn name(&self) -> (r: &'static str)
        ensures
            r@ == self.spec_name(),
    {
        match self {
            NodeDataType::Bool => "boolean",
            NodeDataType::BVec3 => "3d boolean vector",
            NodeDataType::ComboBox => "combo box",
            NodeDataType::Integer => "integer",
            NodeDataType::UnsignedInteger => "unsigned integer",
            NodeDataType::UVec3 => "3d unsigned integer vector",
            NodeDataType::Float => "scalar float",
            NodeDataType::Vec2 => "2d vector",
            NodeDataType::Vec3 => "3d vector",
            NodeDataType::Vec4 => "4d vector",
            NodeDataType::Mat3 => "3x3 matrix",
            NodeDataType::Mat4 => "4x4 matrix",
            NodeDataType::Image => "image",
            NodeDataType::Camera => "camera",
            NodeDataType::Light => "light",
            NodeDataType::Material => "material",
            NodeDataType::Primitive => "primitive",
            NodeDataType::ProceduralTexture => "procedural texture",
            NodeDataType::RayMarcher => "ray marcher",
            NodeDataType::Scene => "scene",
            NodeDataType::Texture => "texture",
        }
    }

    pub open spec fn spec_data_type_color(self) -> (u8, u8, u8) {
        match self {
            NodeDataType::Mat4 => (18, 184, 196),
            NodeDataType::Image => (243, 230, 255),
            NodeDataType::Camera => (123, 10, 10),
            NodeDataType::Light => (255, 204, 128),
            NodeDataType::Material => (255, 102, 0),
            NodeDataType::Primitive => (38, 109, 211),
            NodeDataType::ProceduralTexture => (14, 73, 9),
            NodeDataType::RayMarcher => (19, 216, 157),
            NodeDataType::Scene => (153, 0, 77),
            NodeDataType::Texture => (70, 0, 128),
            _ => (255, 255, 255),
        }
    }

    /// The red, green and blue of the ports of this type; white for the
    /// base types but 4x4 matrices and images.
    pub fn data_type_color(&self) -> (r: (u8, u8, u8))
        ensures
            r == self.spec_data_type_color(),
    {
        match self {
            NodeDataType::Mat4 => (18, 184, 196),
            NodeDataType::Image => (243, 230, 255),
            NodeDataType::Camera => (123, 10, 10),
            NodeDataType::Light => (255, 204, 128),
            NodeDataType::Material => (255, 102, 0),
            NodeDataType::Primitive => (38, 109, 211),
            NodeDataType::ProceduralTexture => (14, 73, 9),
            NodeDataType::RayMarcher => (19, 216, 157),
            NodeDataType::Scene => (153, 0, 77),
            NodeDataType::Texture => (70, 0, 128),
            _ => (255, 255, 255),
        }
    }
}

} // verus!
