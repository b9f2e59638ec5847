//! Shape variants of the nodes and meshes, and which primitive each one is
//! built from.
use vstd::prelude::*;

verus! {

/// The three node shapes of the helix.
#[derive(Debug, Clone, Copy, PartialEq, Eq, Structural)]
pub enum ShapeType {
    Alpha,
    Beta,
    Gamma,
}

/// The primitive solids a mesh can be tessellated from.
#[derive(Debug, Clone, Copy, PartialEq, Eq, Structural)]
pub enum ShapeKind {
    Box,
    Sphere,
    Capsule,
    Cylinder,
    Cone,
    Torus,
}

/// What a mesh is requested as: a primitive sized by one length, or the
/// shape of a node, whose dimensions come from its shape type.
#[derive(Debug, Clone, Copy, PartialEq, Eq, Structural)]
pub enum MeshVariant {
    Box,
    Sphere,
    Cylinder,
    Cone,
    Capsule,
    Torus,
    Node(ShapeType),
}

/// Variants of the tridecahedron mesh.
#[derive(Debug, Clone, Copy, PartialEq, Eq, Structural)]
pub enum TridecahedronVariant {
    /// Uniform scaling.
    Alpha,
    /// Stretched vertically.
    Beta,
    /// Compressed horizontally.
    Gamma,
}

/// Node shapes are drawn as capsules, cylinders and cones.
pub open spec fn node_shape_kind(t: ShapeType) -> ShapeKind {
    match t {
        ShapeType::Alpha => ShapeKind::Capsule,
        ShapeType::Beta => ShapeKind::Cylinder,
        ShapeType::Gamma => ShapeKind::Cone,
    }
}

/// The primitive a mesh variant is built from.
pub open spec fn mesh_shape_kind(v: MeshVariant) -> ShapeKind {
    match v {
        MeshVariant::Box => ShapeKind::Box,
        MeshVariant::Sphere => ShapeKind::Sphere,
        MeshVariant::Cylinder => ShapeKind::Cylinder,
        MeshVariant::Cone => ShapeKind::Cone,
        MeshVariant::Capsule => ShapeKind::Capsule,
        MeshVariant::Torus => ShapeKind::Torus,
        MeshVariant::Node(t) => node_shape_kind(t),
    }
}

impl ShapeType {
    /// The primitive this node shape is drawn as.
    pub fn shape_kind(&self) -> (r: ShapeKind)
        ensures
            r == node_shape_kind(*self),
    {
        match self {
            ShapeType::Alpha => ShapeKind::Capsule,
            ShapeType::Beta => ShapeKind::Cylinder,
            ShapeType::Gamma => ShapeKind::Cone,
        }
    }
}

impl MeshVariant {
    /// The primitive this variant is built from.
    pub fn shape_kind(&self) -> (r: ShapeKind)
        ensures
            r == mesh_shape_kind(*self),
    {
        match self {
            MeshVariant::Box => ShapeKind::Box,
            MeshVariant::Sphere => ShapeKind::Sphere,
            MeshVariant::Cylinder => ShapeKind::Cylinder,
            MeshVariant::Cone => ShapeKind::Cone,
            MeshVariant::Capsule => ShapeKind::Capsule,
            MeshVariant::Torus => ShapeKind::Torus,
            MeshVariant::Node(t) => t.shape_kind(),
        }
    }

    /// Whether the requested size determines the mesh: it does for every
    /// variant but a node's, whose dimensions come from its shape type.
    pub fn uses_size(&self) -> (r: bool)
        ensures
            r == !(*self is Node),
    {
        match self {
            MeshVariant::Node(_) => false,
            _ => true,
        }
    }
}

impl Default for TridecahedronVariant {
    fn default() -> (r: Self)
        ensures
            r == TridecahedronVariant::Alpha,
    {
        TridecahedronVariant::Alpha
    }
}

/// Variant codes: `0` is Alpha, `1` Beta, `2` Gamma; any other code is Alpha.
pub open spec fn variant_of_code(value: u32) -> TridecahedronVariant {
    if value == 1 {
        TridecahedronVariant::Beta
    } else if value == 2 {
        TridecahedronVariant::Gamma
    } else {
        TridecahedronVariant::Alpha
    }
}

impl From<u32> for TridecahedronVariant {
    fn from(value: u32) -> (r: Self) {
        match value {
            0 => TridecahedronVariant::Alpha,
            1 => TridecahedronVariant::Beta,
            2 => TridecahedronVariant::Gamma,
            _ => TridecahedronVariant::Alpha,
        }
    }
}

impl vstd::std_specs::convert::FromSpecImpl<u32> for TridecahedronVariant {
    open spec fn obeys_from_spec() -> bool {
        true
    }

    open spec fn from_spec(v: u32) -> TridecahedronVariant {
        variant_of_code(v)
    }
}

} // verus!
