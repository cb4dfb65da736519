//! Plain records of what the asset parser hands back, the loader's error
//! taxonomy, and the normal-map fallback rule.

use vstd::prelude::*;
use crate::gpu::{CommandBuffer, Texture};

verus! {

/// Why a load call failed. Loading is all-or-nothing: any of these aborts the
/// whole call and no model is returned.
#[derive(Clone, Copy, PartialEq, Eq, Structural, Debug)]
pub enum LoadFailure {
    /// The asset was missing, unreadable or malformed.
    ParseError,
    /// A material has neither a dedicated normal-map reference nor the
    /// conventional fallback field; no default normal map is synthesized.
    MissingNormalMapError,
    /// The texture collaborator failed to load a referenced image.
    TextureLoadError,
}

/// One raw mesh record: flat component arrays (32-bit words, three per
/// position, two per texture coordinate, three per normal), the index array,
/// and the optional material reference.
pub struct MeshRecord {
    pub name: String,
    pub positions: Vec<u32>,
    pub texcoords: Vec<u32>,
    pub normals: Vec<u32>,
    pub indices: Vec<u32>,
    pub material_id: Option<usize>,
}

/// One raw material record: its name, its two image references (either may be
/// empty), and the unrecognized key-value fields kept by the parser.
pub struct MaterialRecord {
    pub name: String,
    pub diffuse_texture: String,
    pub normal_texture: String,
    pub unknown_param: Vec<(String, String)>,
}

/// The value under the first pair whose key is `key`, if any.
pub open spec fn lookup_param(params: Seq<(String, String)>, key: Seq<char>) -> Option<Seq<char>>
    decreases params.len(),
{
    if params.len() == 0 {
        None
    } else if params[0].0@ == key {
        Some(params[0].1@)
    } else {
        lookup_param(params.drop_first(), key)
    }
}

/// Where a material's normal map comes from: the dedicated field if it is
/// non-empty, else the unrecognized-field mapping under the conventional
/// bump-map key, else nowhere.
pub open spec fn normal_source(m: MaterialRecord) -> Option<Seq<char>> {
    if m.normal_texture@.len() > 0 {
        Some(m.normal_texture@)
    } else {
        lookup_param(m.unknown_param@, "map_Bump"@)
    }
}

/// Resolves the normal-map reference of `mat` by the fallback rule:
/// the dedicated field when non-empty, else the `"map_Bump"` entry of the
/// unrecognized-field mapping, else nothing.
pub fn resolve_normal_source(mat: &MaterialRecord) -> (r: Option<String>)
    ensures
        match r {
            Some(s) => normal_source(*mat) == Some(s@),
            None => normal_source(*mat) is None,
        },
{
    if !mat.normal_texture.as_str().is_empty() {
        Some(mat.normal_texture.clone())
    } else {
        let key: String = "map_Bump".to_owned();
        let mut i: usize = 0;
        proof {
            assert(mat.unknown_param@.skip(0) =~= mat.unknown_param@);
        }
        while i < mat.unknown_param.len()
            invariant
                0 <= i <= mat.unknown_param@.len(),
                lookup_param(mat.unknown_param@, key@) == lookup_param(
                    mat.unknown_param@.skip(i as int),
                    key@,
                ),
                key@ == "map_Bump"@,
                mat.normal_texture@.len() == 0,
            decreases mat.unknown_param@.len() - i,
        {
            let pair = &mat.unknown_param[i];
            proof {
                assert(mat.unknown_param@.skip(i as int)[0] == mat.unknown_param@[i as int]);
                assert(mat.unknown_param@.skip(i as int).drop_first() =~= mat.unknown_param@.skip(
                    i as int + 1,
                ));
            }
            if pair.0 == key {
                proof {
                    assert(mat.unknown_param@.skip(i as int).len() > 0);
                    assert(lookup_param(mat.unknown_param@.skip(i as int), key@) == Some(
                        mat.unknown_param@[i as int].1@,
                    ));
                }
                return Some(pair.1.clone());
            }
            i = i + 1;
        }
        proof {
            assert(mat.unknown_param@.skip(mat.unknown_param@.len() as int) =~= Seq::<(
                String,
                String,
            )>::empty());
        }
        None
    }
}

/// Law: a material whose dedicated normal-map field is empty but whose
/// unrecognized-field mapping carries the conventional bump key resolves its
/// normal map to that fallback value.
pub proof fn lemma_fallback_key_resolves(mat: MaterialRecord, v: Seq<char>)
    requires
        mat.normal_texture@.len() == 0,
        lookup_param(mat.unknown_param@, "map_Bump"@) == Some(v),
    ensures
        normal_source(mat) == Some(v),
{
}

/// Law: a material with the dedicated field empty and no conventional bump
/// key has no normal-map source at all; planning a load of it fails.
pub proof fn lemma_missing_normal_map(mat: MaterialRecord)
    requires
        mat.normal_texture@.len() == 0,
        lookup_param(mat.unknown_param@, "map_Bump"@) is None,
    ensures
        normal_source(mat) is None,
{
}

/// A mesh record the loader accepts: component arrays describe the same
/// number of vertices, the index count fits the element counter, and the
/// material reference (0 where unset) falls inside the material list.
pub open spec fn mesh_record_valid(m: MeshRecord, n_materials: nat) -> bool {
    &&& m.positions@.len() % 3 == 0
    &&& m.texcoords@.len() == 2 * (m.positions@.len() / 3)
    &&& m.normals@.len() == m.positions@.len()
    &&& m.indices@.len() <= u32::MAX
    &&& match m.material_id {
        Some(i) => i < n_materials,
        None => n_materials > 0,
    }
}

/// The material index a record resolves to: its own reference if present,
/// else `0`.
pub open spec fn resolved_material_index(m: MeshRecord) -> usize {
    match m.material_id {
        Some(i) => i,
        None => 0,
    }
}

/// Decides `mesh_record_valid` for a record.
pub fn check_mesh_record(m: &MeshRecord, n_materials: usize) -> (b: bool)
    ensures
        b == mesh_record_valid(*m, n_materials as nat),
{
    let n: usize = m.positions.len();
    if n % 3 != 0 {
        return false;
    }
    if m.texcoords.len() != 2 * (n / 3) {
        return false;
    }
    if m.normals.len() != n {
        return false;
    }
    if m.indices.len() > u32::MAX as usize {
        return false;
    }
    match m.material_id {
        Some(i) => i < n_materials,
        None => n_materials > 0,
    }
}

/// The full paths of the two images one material needs, resolved against the
/// asset's directory: the diffuse map and the normal map.
pub struct TextureRequest {
    pub diffuse_path: String,
    pub normal_path: String,
}

/// What the texture collaborator produced for one material: the two texture
/// resources and the two deferred upload commands, in request order.
#[derive(Clone, Copy, PartialEq, Eq, Structural, Debug)]
pub struct MaterialTextures {
    pub diffuse: Texture,
    pub diffuse_upload: CommandBuffer,
    pub normal: Texture,
    pub normal_upload: CommandBuffer,
}

} // verus!
