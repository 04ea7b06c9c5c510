//! The object on display: one mesh and the four texture maps of its
//! material.

use crate::material::MapKind;
use crate::mesh::{assemble, Mesh, MeshError, MeshView};
use crate::texture::{decoded, prep_texture, Texture, TextureError, TextureView};
use vstd::prelude::*;

verus! {

/// Why an object could not be loaded.
#[derive(Clone, Copy, Debug, PartialEq, Eq, Structural)]
pub enum LoadError {
    /// The mesh was refused.
    Mesh { error: MeshError },
    /// The file of the texture map `map` could not be decoded.
    Texture { map: MapKind, cause: TextureError },
}

/// The object to render.
#[derive(Debug)]
pub struct ObjectData {
    /// The triangles.
    pub mesh: Mesh,
    /// Base colour.
    pub albedo: Texture,
    /// Roughness.
    pub roughness: Texture,
    /// Metalness.
    pub metallness: Texture,
    /// The normal map.
    pub normalmap: Texture,
}

/// What an object is, as plain values.
pub struct ObjectView {
    pub mesh: MeshView,
    pub albedo: TextureView,
    pub roughness: TextureView,
    pub metallness: TextureView,
    pub normalmap: TextureView,
}

impl View for ObjectData {
    type V = ObjectView;

    open spec fn view(&self) -> ObjectView {
        ObjectView {
            mesh: self.mesh@,
            albedo: self.albedo@,
            roughness: self.roughness@,
            metallness: self.metallness@,
            normalmap: self.normalmap@,
        }
    }
}

impl ObjectView {
    /// The texture of the map `map`.
    pub open spec fn texture(self, map: MapKind) -> TextureView {
        match map {
            MapKind::Albedo => self.albedo,
            MapKind::Roughness => self.roughness,
            MapKind::Metalness => self.metallness,
            MapKind::Normal => self.normalmap,
        }
    }

    /// The maps whose texture got the stand-in format, in the order of
    /// their bindings. Each of them is worth a warning.
    pub open spec fn degraded(self) -> Seq<MapKind> {
        let albedo = if self.albedo.recognized {
            Seq::<MapKind>::empty()
        } else {
            seq![MapKind::Albedo]
        };
        let roughness = if self.roughness.recognized {
            Seq::<MapKind>::empty()
        } else {
            seq![MapKind::Roughness]
        };
        let metalness = if self.metallness.recognized {
            Seq::<MapKind>::empty()
        } else {
            seq![MapKind::Metalness]
        };
        let normal = if self.normalmap.recognized {
            Seq::<MapKind>::empty()
        } else {
            seq![MapKind::Normal]
        };
        albedo + roughness + metalness + normal
    }
}

/// The texture of the map `map` decoded from `data`, or the load error that
/// names the map.
pub open spec fn map_texture(map: MapKind, data: Seq<u8>) -> Result<TextureView, LoadError> {
    match decoded(data) {
        Ok(texture) => Ok(texture),
        Err(cause) => Err(LoadError::Texture { map, cause }),
    }
}

/// What loading an object gives. The mesh is assembled first, then the
/// maps are decoded in the order albedo, roughness, metalness, normal; the
/// first failure is the one reported.
pub open spec fn loaded(
    positions: Seq<u32>,
    normals: Seq<u32>,
    texcoords: Seq<u32>,
    indices: Seq<u32>,
    albedo: Seq<u8>,
    roughness: Seq<u8>,
    metalness: Seq<u8>,
    normal: Seq<u8>,
) -> Result<ObjectView, LoadError> {
    match assemble(positions, normals, texcoords, indices) {
        Err(error) => Err(LoadError::Mesh { error }),
        Ok(mesh) => match map_texture(MapKind::Albedo, albedo) {
            Err(error) => Err(error),
            Ok(albedo) => match map_texture(MapKind::Roughness, roughness) {
                Err(error) => Err(error),
                Ok(roughness) => match map_texture(MapKind::Metalness, metalness) {
                    Err(error) => Err(error),
                    Ok(metallness) => match map_texture(MapKind::Normal, normal) {
                        Err(error) => Err(error),
                        Ok(normalmap) => Ok(
                            ObjectView { mesh, albedo, roughness, metallness, normalmap },
                        ),
                    },
                },
            },
        },
    }
}

/// Decodes the file of one texture map.
pub fn load_map(map: MapKind, data: &[u8]) -> (r: Result<Texture, LoadError>)
    ensures
        match r {
            Ok(texture) => map_texture(map, data@) == Ok::<TextureView, LoadError>(texture@),
            Err(error) => map_texture(map, data@) == Err::<TextureView, LoadError>(error),
        },
{
    match prep_texture(data) {
        Ok(texture) => Ok(texture),
        Err(cause) => Err(LoadError::Texture { map, cause }),
    }
}

impl ObjectData {
    /// Loads an object from the flat arrays of its model file and the bytes
    /// of its four texture files.
    pub fn load(
        positions: &[u32],
        normals: &[u32],
        texcoords: &[u32],
        indices: Vec<u32>,
        albedo: &[u8],
        roughness: &[u8],
        metalness: &[u8],
        normal: &[u8],
    ) -> (r: Result<ObjectData, LoadError>)
        ensures
            match r {
                Ok(object) => loaded(
                    positions@,
                    normals@,
                    texcoords@,
                    indices@,
                    albedo@,
                    roughness@,
                    metalness@,
                    normal@,
                ) == Ok::<ObjectView, LoadError>(object@) && object@.mesh.wf(),
                Err(error) => loaded(
                    positions@,
                    normals@,
                    texcoords@,
                    indices@,
                    albedo@,
                    roughness@,
                    metalness@,
                    normal@,
                ) == Err::<ObjectView, LoadError>(error),
            },
    {
        let mesh = match Mesh::load(positions, normals, texcoords, indices) {
            Ok(mesh) => mesh,
            Err(error) => {
                return Err(LoadError::Mesh { error });
            },
        };
        let albedo = match load_map(MapKind::Albedo, albedo) {
            Ok(texture) => texture,
            Err(error) => {
                return Err(error);
            },
        };
        let roughness = match load_map(MapKind::Roughness, roughness) {
            Ok(texture) => texture,
            Err(error) => {
                return Err(error);
            },
        };
        let metallness = match load_map(MapKind::Metalness, metalness) {
            Ok(texture) => texture,
            Err(error) => {
                return Err(error);
            },
        };
        let normalmap = match load_map(MapKind::Normal, normal) {
            Ok(texture) => texture,
            Err(error) => {
                return Err(error);
            },
        };
        Ok(ObjectData { mesh, albedo, roughness, metallness, normalmap })
    }

    /// The texture of the map `map`.
    pub fn texture(&self, map: MapKind) -> (texture: &Texture)
        ensures
            texture@ == self@.texture(map),
    {
        match map {
            MapKind::Albedo => &self.albedo,
            MapKind::Roughness => &self.roughness,
            MapKind::Metalness => &self.metallness,
            MapKind::Normal => &self.normalmap,
        }
    }

    /// The maps whose texture got the stand-in format, in the order of
    /// their bindings. The caller owes a warning for each.
    pub fn degraded_maps(&self) -> (maps: Vec<MapKind>)
        ensures
            maps@ == self@.degraded(),
    {
        let mut maps: Vec<MapKind> = Vec::new();
        if !self.albedo.recognized {
            maps.push(MapKind::Albedo);
        }
        if !self.roughness.recognized {
            maps.push(MapKind::Roughness);
        }
        if !self.metallness.recognized {
            maps.push(MapKind::Metalness);
        }
        if !self.normalmap.recognized {
            maps.push(MapKind::Normal);
        }
        assert(maps@ =~= self@.degraded());
        maps
    }
}

} // verus!
