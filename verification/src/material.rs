//! The four texture maps of a material: where their files are found and
//! where the shader expects them.

use vstd::prelude::*;
use vstd::string::*;

verus! {

/// One of the texture maps that describe a surface.
#[derive(Clone, Copy, Debug, PartialEq, Eq, Structural)]
pub enum MapKind {
    /// Base colour.
    Albedo,
    /// How rough the surface is.
    Roughness,
    /// How metallic the surface is.
    Metalness,
    /// The normal map.
    Normal,
}

/// The binding of the per-frame uniform buffer in the descriptor set.
pub const UNIFORM_BINDING: u32 = 0;

/// Number of bindings in the descriptor set: the uniform buffer and the
/// four maps.
pub const BINDING_COUNT: u32 = 5;

impl MapKind {
    /// The binding at which the shader samples this map. The maps follow
    /// the uniform buffer in the order albedo, roughness, metalness, normal.
    pub open spec fn binding_of(self) -> u32 {
        match self {
            MapKind::Albedo => 1,
            MapKind::Roughness => 2,
            MapKind::Metalness => 3,
            MapKind::Normal => 4,
        }
    }

    /// The map sampled at `binding`, if it is the binding of a map.
    pub open spec fn at_binding(binding: u32) -> Option<MapKind> {
        if binding == 1 {
            Some(MapKind::Albedo)
        } else if binding == 2 {
            Some(MapKind::Roughness)
        } else if binding == 3 {
            Some(MapKind::Metalness)
        } else if binding == 4 {
            Some(MapKind::Normal)
        } else {
            None
        }
    }

    /// What follows the base name in the name of this map's file.
    pub open spec fn suffix_of(self) -> Seq<char> {
        match self {
            MapKind::Albedo => "_Color"@,
            MapKind::Roughness => "_Roughness"@,
            MapKind::Metalness => "_Metalness"@,
            MapKind::Normal => "_Normal"@,
        }
    }

    /// The path of this map's file for the material named `base`.
    pub open spec fn path_of(self, base: Seq<char>) -> Seq<char> {
        "./assets/"@ + base + self.suffix_of() + ".png"@
    }

    /// The binding at which the shader samples this map.
    pub fn binding(self) -> (binding: u32)
        ensures
            binding == self.binding_of(),
            UNIFORM_BINDING < binding < BINDING_COUNT,
            MapKind::at_binding(binding) == Some(self),
    {
        match self {
            MapKind::Albedo => 1,
            MapKind::Roughness => 2,
            MapKind::Metalness => 3,
            MapKind::Normal => 4,
        }
    }

    /// The map sampled at `binding`, if it is the binding of a map.
    pub fn from_binding(binding: u32) -> (kind: Option<MapKind>)
        ensures
            kind == MapKind::at_binding(binding),
            kind matches Some(k) ==> k.binding_of() == binding,
            kind is None <==> binding == UNIFORM_BINDING || binding >= BINDING_COUNT,
    {
        match binding {
            1 => Some(MapKind::Albedo),
            2 => Some(MapKind::Roughness),
            3 => Some(MapKind::Metalness),
            4 => Some(MapKind::Normal),
            _ => None,
        }
    }

    /// What follows the base name in the name of this map's file.
    pub fn suffix(self) -> (suffix: &'static str)
        ensures
            suffix@ == self.suffix_of(),
    {
        match self {
            MapKind::Albedo => "_Color",
            MapKind::Roughness => "_Roughness",
            MapKind::Metalness => "_Metalness",
            MapKind::Normal => "_Normal",
        }
    }

    /// The path of this map's file for the material named `base`.
    pub fn texture_path(self, base: &str) -> (path: String)
        ensures
            path@ == self.path_of(base@),
    {
        let mut path = String::from_str("./assets/");
        path.append(base);
        path.append(self.suffix());
        path.append(".png");
        path
    }
}

/// No two maps share a binding, and none takes the binding of the uniform
/// buffer.
pub proof fn lemma_bindings_are_distinct(a: MapKind, b: MapKind)
    ensures
        a.binding_of() == b.binding_of() ==> a == b,
        a.binding_of() != UNIFORM_BINDING,
        a.binding_of() < BINDING_COUNT,
{
}

} // verus!
