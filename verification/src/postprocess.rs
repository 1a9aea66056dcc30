//! Bits of the post-processing mask and of the masks that some steps take
//! as a parameter.

use vstd::prelude::*;

verus! {

pub const AIPROCESS_CALC_TANGENT_SPACE: u32 = 0x1;

pub const AIPROCESS_JOIN_IDENTICAL_VERTICES: u32 = 0x2;

pub const AIPROCESS_MAKE_LEFT_HANDED: u32 = 0x4;

pub const AIPROCESS_TRIANGULATE: u32 = 0x8;

pub const AIPROCESS_REMOVE_COMPONENT: u32 = 0x10;

pub const AIPROCESS_GEN_NORMALS: u32 = 0x20;

pub const AIPROCESS_GEN_SMOOTH_NORMALS: u32 = 0x40;

pub const AIPROCESS_SPLIT_LARGE_MESHES: u32 = 0x80;

pub const AIPROCESS_PRE_TRANSFORM_VERTICES: u32 = 0x100;

pub const AIPROCESS_LIMIT_BONE_WEIGHTS: u32 = 0x200;

pub const AIPROCESS_VALIDATE_DATA_STRUCTURE: u32 = 0x400;

pub const AIPROCESS_IMPROVE_CACHE_LOCALITY: u32 = 0x800;

pub const AIPROCESS_REMOVE_REDUNDANT_MATERIALS: u32 = 0x1000;

pub const AIPROCESS_FIX_INFACING_NORMALS: u32 = 0x2000;

pub const AIPROCESS_SORT_BY_PTYPE: u32 = 0x8000;

pub const AIPROCESS_FIND_DEGENERATES: u32 = 0x10000;

pub const AIPROCESS_FIND_INVALID_DATA: u32 = 0x20000;

pub const AIPROCESS_GEN_UV_COORDS: u32 = 0x40000;

pub const AIPROCESS_TRANSFORM_UV_COORDS: u32 = 0x80000;

pub const AIPROCESS_FIND_INSTANCES: u32 = 0x100000;

pub const AIPROCESS_OPTIMIZE_MESHES: u32 = 0x200000;

pub const AIPROCESS_OPTIMIZE_GRAPH: u32 = 0x400000;

pub const AIPROCESS_FLIP_UVS: u32 = 0x800000;

pub const AIPROCESS_FLIP_WINDING_ORDER: u32 = 0x1000000;

pub const AIPROCESS_SPLIT_BY_BONE_COUNT: u32 = 0x2000000;

pub const AIPROCESS_DEBONE: u32 = 0x4000000;

pub const AICOMPONENT_NORMALS: u32 = 0x2;

pub const AICOMPONENT_TANGENTS_AND_BITANGENTS: u32 = 0x4;

pub const AICOMPONENT_COLORS: u32 = 0x8;

pub const AICOMPONENT_TEXCOORDS: u32 = 0x10;

pub const AICOMPONENT_BONE_WEIGHTS: u32 = 0x20;

pub const AICOMPONENT_ANIMATIONS: u32 = 0x40;

pub const AICOMPONENT_TEXTURES: u32 = 0x80;

pub const AICOMPONENT_LIGHTS: u32 = 0x100;

pub const AICOMPONENT_CAMERAS: u32 = 0x200;

pub const AICOMPONENT_MESHES: u32 = 0x400;

pub const AICOMPONENT_MATERIALS: u32 = 0x800;

pub const AIPRIMITIVETYPE_POINT: u32 = 0x1;

pub const AIPRIMITIVETYPE_LINE: u32 = 0x2;

pub const AIPRIMITIVETYPE_TRIANGLE: u32 = 0x4;

pub const AIPRIMITIVETYPE_POLYGON: u32 = 0x8;

/// All four primitive types together.
pub const AIPRIMITIVETYPE_ALL: u32 = 0xF;

pub const AI_UVTRAFO_SCALING: u32 = 0x1;

pub const AI_UVTRAFO_ROTATION: u32 = 0x2;

pub const AI_UVTRAFO_TRANSLATION: u32 = 0x4;

/// Scaling, rotation and translation together.
pub const AI_UVTRAFO_ALL: u32 = 0x7;

/// Whether every bit of `flag` is set in `mask`.
pub open spec fn contains(mask: u32, flag: u32) -> bool {
    mask & flag == flag
}

/// `mask` with the bits of `flag` set when `value` holds, cleared when not.
pub open spec fn with_flag(mask: u32, flag: u32, value: bool) -> u32 {
    if value {
        mask | flag
    } else {
        mask & !flag
    }
}

/// Setting or clearing a flag makes the mask contain it or not, and leaves
/// every flag that shares no bit with it as it was.
pub proof fn lemma_with_flag(mask: u32, flag: u32, value: bool, other: u32)
    requires
        flag != 0,
    ensures
        contains(with_flag(mask, flag, value), flag) == value,
        flag & other == 0 ==> contains(with_flag(mask, flag, value), other) == contains(
            mask,
            other,
        ),
{
    assert(flag != 0 ==> (mask | flag) & flag == flag && (mask & !flag) & flag != flag)
        by (bit_vector);
    assert(flag & other == 0 ==> (mask | flag) & other == mask & other && (mask & !flag) & other
        == mask & other) by (bit_vector);
}

} // verus!
