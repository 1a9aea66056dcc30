//! Arguments of the post-processing steps that take any.
//!
//! Each step has a struct with an `enable` switch and the parameters of the
//! step. `Default::default()` gives the step switched off, with every
//! parameter at its documented default.

use crate::config::{
    AI_DEBONE_THRESHOLD_BITS, AI_LMW_MAX_WEIGHTS, AI_SBBC_DEFAULT_MAX_BONES,
    AI_SLM_DEFAULT_MAX_TRIANGLES, AI_SLM_DEFAULT_MAX_VERTICES, PP_ICL_DEFAULT_PTCACHE_SIZE,
};
use crate::math::scalar::{ONE_BITS, ZERO_BITS};
use crate::math::{Matrix4x4, Scalar};
use crate::postprocess::{
    contains, AICOMPONENT_ANIMATIONS, AICOMPONENT_BONE_WEIGHTS, AICOMPONENT_CAMERAS,
    AICOMPONENT_COLORS, AICOMPONENT_LIGHTS, AICOMPONENT_MATERIALS, AICOMPONENT_MESHES,
    AICOMPONENT_NORMALS, AICOMPONENT_TANGENTS_AND_BITANGENTS, AICOMPONENT_TEXCOORDS,
    AICOMPONENT_TEXTURES, AIPRIMITIVETYPE_ALL, AIPRIMITIVETYPE_LINE, AIPRIMITIVETYPE_POINT,
    AIPRIMITIVETYPE_POLYGON, AIPRIMITIVETYPE_TRIANGLE, AI_UVTRAFO_ALL, AI_UVTRAFO_ROTATION,
    AI_UVTRAFO_SCALING, AI_UVTRAFO_TRANSLATION,
};
use vstd::prelude::*;

verus! {

/// Bits of `45.0`, the default smoothing angle for tangents, in degrees.
pub const DEFAULT_TANGENT_SMOOTHING_ANGLE_BITS: u32 = 0x4234_0000;

/// Bits of `175.0`, the default smoothing angle for normals, in degrees.
pub const DEFAULT_NORMAL_SMOOTHING_ANGLE_BITS: u32 = 0x432F_0000;

/// Parts of a scene and of its meshes that the `remove_component` step can
/// leave out of the import.
#[derive(Clone, Copy, Debug, Eq, PartialEq, Structural)]
pub enum ComponentType {
    Normals,
    TangentsAndBitangents,
    Colors,
    TexCoords,
    BoneWeights,
    Animations,
    Textures,
    Lights,
    Cameras,
    Meshes,
    Materials,
}

impl ComponentType {
    /// The bits that stand for the value in a mask.
    pub open spec fn spec_bits(self) -> u32 {
        match self {
            ComponentType::Normals => AICOMPONENT_NORMALS,
            ComponentType::TangentsAndBitangents => AICOMPONENT_TANGENTS_AND_BITANGENTS,
            ComponentType::Colors => AICOMPONENT_COLORS,
            ComponentType::TexCoords => AICOMPONENT_TEXCOORDS,
            ComponentType::BoneWeights => AICOMPONENT_BONE_WEIGHTS,
            ComponentType::Animations => AICOMPONENT_ANIMATIONS,
            ComponentType::Textures => AICOMPONENT_TEXTURES,
            ComponentType::Lights => AICOMPONENT_LIGHTS,
            ComponentType::Cameras => AICOMPONENT_CAMERAS,
            ComponentType::Meshes => AICOMPONENT_MESHES,
            ComponentType::Materials => AICOMPONENT_MATERIALS,
        }
    }

    /// The bits that stand for the value in a mask.
    #[verifier::when_used_as_spec(spec_bits)]
    pub fn bits(self) -> (r: u32)
        ensures
            r == self.spec_bits(),
    {
        match self {
            ComponentType::Normals => AICOMPONENT_NORMALS,
            ComponentType::TangentsAndBitangents => AICOMPONENT_TANGENTS_AND_BITANGENTS,
            ComponentType::Colors => AICOMPONENT_COLORS,
            ComponentType::TexCoords => AICOMPONENT_TEXCOORDS,
            ComponentType::BoneWeights => AICOMPONENT_BONE_WEIGHTS,
            ComponentType::Animations => AICOMPONENT_ANIMATIONS,
            ComponentType::Textures => AICOMPONENT_TEXTURES,
            ComponentType::Lights => AICOMPONENT_LIGHTS,
            ComponentType::Cameras => AICOMPONENT_CAMERAS,
            ComponentType::Meshes => AICOMPONENT_MESHES,
            ComponentType::Materials => AICOMPONENT_MATERIALS,
        }
    }
}

/// Kinds of UV transform that the `transform_uv_coords` step can evaluate.
/// `All` stands for the other three together.
#[derive(Clone, Copy, Debug, Eq, PartialEq, Structural)]
pub enum UVTransformFlag {
    Scaling,
    Rotation,
    Translation,
    All,
}

impl UVTransformFlag {
    /// The bits that stand for the value in a mask.
    pub open spec fn spec_bits(self) -> u32 {
        match self {
            UVTransformFlag::Scaling => AI_UVTRAFO_SCALING,
            UVTransformFlag::Rotation => AI_UVTRAFO_ROTATION,
            UVTransformFlag::Translation => AI_UVTRAFO_TRANSLATION,
            UVTransformFlag::All => AI_UVTRAFO_ALL,
        }
    }

    /// The bits that stand for the value in a mask.
    #[verifier::when_used_as_spec(spec_bits)]
    pub fn bits(self) -> (r: u32)
        ensures
            r == self.spec_bits(),
    {
        match self {
            UVTransformFlag::Scaling => AI_UVTRAFO_SCALING,
            UVTransformFlag::Rotation => AI_UVTRAFO_ROTATION,
            UVTransformFlag::Translation => AI_UVTRAFO_TRANSLATION,
            UVTransformFlag::All => AI_UVTRAFO_ALL,
        }
    }
}

/// Kinds of primitive that a mesh can be made of.
#[derive(Clone, Copy, Debug, Eq, PartialEq, Structural)]
pub enum PrimitiveType {
    Point,
    Line,
    Triangle,
    Polygon,
}

impl PrimitiveType {
    /// The bits that stand for the value in a mask.
    pub open spec fn spec_bits(self) -> u32 {
        match self {
            PrimitiveType::Point => AIPRIMITIVETYPE_POINT,
            PrimitiveType::Line => AIPRIMITIVETYPE_LINE,
            PrimitiveType::Triangle => AIPRIMITIVETYPE_TRIANGLE,
            PrimitiveType::Polygon => AIPRIMITIVETYPE_POLYGON,
        }
    }

    /// The bits that stand for the value in a mask.
    #[verifier::when_used_as_spec(spec_bits)]
    pub fn bits(self) -> (r: u32)
        ensures
            r == self.spec_bits(),
    {
        match self {
            PrimitiveType::Point => AIPRIMITIVETYPE_POINT,
            PrimitiveType::Line => AIPRIMITIVETYPE_LINE,
            PrimitiveType::Triangle => AIPRIMITIVETYPE_TRIANGLE,
            PrimitiveType::Polygon => AIPRIMITIVETYPE_POLYGON,
        }
    }
}

/// Whether `bit` is a mask with exactly one bit set.
pub open spec fn is_single_bit(bit: u32) -> bool {
    bit != 0 && bit & ((bit - 1) as u32) == 0
}

/// The union of the masks in `masks`.
pub open spec fn union_of(masks: Seq<u32>) -> u32
    decreases masks.len(),
{
    if masks.len() == 0 {
        0
    } else {
        union_of(masks.drop_last()) | masks.last()
    }
}

/// A bit is set in the union of some masks exactly when it is set in one of
/// them.
pub proof fn lemma_union_of_bit(masks: Seq<u32>, bit: u32)
    requires
        is_single_bit(bit),
    ensures
        contains(union_of(masks), bit) <==> exists|i: int|
            0 <= i < masks.len() && contains(#[trigger] masks[i], bit),
    decreases masks.len(),
{
    if masks.len() == 0 {
        assert(bit != 0 ==> 0u32 & bit != bit) by (bit_vector);
    } else {
        let init = masks.drop_last();
        let last = masks.last();
        let u = union_of(init);
        lemma_union_of_bit(init, bit);
        assert(bit != 0 && bit & ((bit - 1) as u32) == 0 ==> ((u | last) & bit == bit <==> (u & bit
            == bit || last & bit == bit))) by (bit_vector);
        if contains(u, bit) {
            let i = choose|i: int| 0 <= i < init.len() && contains(#[trigger] init[i], bit);
            assert(contains(masks[i], bit));
        }
        if contains(last, bit) {
            assert(contains(masks[masks.len() - 1], bit));
        }
        if exists|i: int| 0 <= i < masks.len() && contains(#[trigger] masks[i], bit) {
            let i = choose|i: int| 0 <= i < masks.len() && contains(#[trigger] masks[i], bit);
            if i < init.len() {
                assert(init[i] == masks[i]);
            }
        }
    }
}

/// The mask of a list of components: the union of their bits.
pub open spec fn component_mask(components: Seq<ComponentType>) -> u32 {
    union_of(components.map_values(|c: ComponentType| c.spec_bits()))
}

/// The mask of a list of UV transform kinds: the union of their bits.
pub open spec fn uv_transform_mask(flags: Seq<UVTransformFlag>) -> u32 {
    union_of(flags.map_values(|f: UVTransformFlag| f.spec_bits()))
}

/// The mask of a list of primitive types: the union of their bits.
pub open spec fn primitive_mask(types: Seq<PrimitiveType>) -> u32 {
    union_of(types.map_values(|t: PrimitiveType| t.spec_bits()))
}

/// Whether a list names every primitive type there is.
pub open spec fn names_every_primitive(types: Seq<PrimitiveType>) -> bool {
    &&& types.contains(PrimitiveType::Point)
    &&& types.contains(PrimitiveType::Line)
    &&& types.contains(PrimitiveType::Triangle)
    &&& types.contains(PrimitiveType::Polygon)
}

/// The mask of a list of components has the bit of a component exactly when
/// the list names that component.
pub proof fn lemma_component_mask(components: Seq<ComponentType>, c: ComponentType)
    ensures
        contains(component_mask(components), c.spec_bits()) <==> components.contains(c),
{
    let masks = components.map_values(|c: ComponentType| c.spec_bits());
    let bit = c.spec_bits();
    assert(is_single_bit(bit)) by {
        lemma_bits_are_single();
    }
    lemma_union_of_bit(masks, bit);
    if components.contains(c) {
        let i = choose|i: int| 0 <= i < components.len() && components[i] == c;
        assert(bit & bit == bit) by (bit_vector);
        assert(contains(masks[i], bit));
    }
    if contains(component_mask(components), bit) {
        let i = choose|i: int| 0 <= i < masks.len() && contains(#[trigger] masks[i], bit);
        lemma_component_bits_differ(components[i], c);
        assert(components[i] == c);
    }
}

/// The mask of a list of primitive types has the bit of a type exactly when
/// the list names that type; so the mask is that of all four types exactly
/// when the list names every one.
pub proof fn lemma_primitive_mask(types: Seq<PrimitiveType>, t: PrimitiveType)
    ensures
        contains(primitive_mask(types), t.spec_bits()) <==> types.contains(t),
        primitive_mask(types) == AIPRIMITIVETYPE_ALL <==> names_every_primitive(types),
{
    lemma_primitive_mask_bit(types, t);
    lemma_primitive_mask_bit(types, PrimitiveType::Point);
    lemma_primitive_mask_bit(types, PrimitiveType::Line);
    lemma_primitive_mask_bit(types, PrimitiveType::Triangle);
    lemma_primitive_mask_bit(types, PrimitiveType::Polygon);
    lemma_primitive_mask_bounded(types);
    let m = primitive_mask(types);
    assert(m & !0xFu32 == 0 ==> (m == 0xF <==> (m & 1 == 1 && m & 2 == 2 && m & 4 == 4 && m & 8
        == 8))) by (bit_vector);
}

/// The mask of a list of UV transform kinds has a bit set exactly when the
/// list names a kind that stands for that bit, `All` standing for all three.
pub proof fn lemma_uv_transform_mask(flags: Seq<UVTransformFlag>, f: UVTransformFlag)
    requires
        f != UVTransformFlag::All,
    ensures
        contains(uv_transform_mask(flags), f.spec_bits()) <==> (flags.contains(f)
            || flags.contains(UVTransformFlag::All)),
{
    let masks = flags.map_values(|f: UVTransformFlag| f.spec_bits());
    let bit = f.spec_bits();
    assert(is_single_bit(bit)) by {
        lemma_bits_are_single();
    }
    lemma_union_of_bit(masks, bit);
    assert(1u32 & 1 == 1 && 2u32 & 2 == 2 && 4u32 & 4 == 4 && 7u32 & 1 == 1 && 7u32 & 2 == 2 && 7u32
        & 4 == 4 && 1u32 & 2 != 2 && 1u32 & 4 != 4 && 2u32 & 1 != 1 && 2u32 & 4 != 4 && 4u32 & 1
        != 1 && 4u32 & 2 != 2) by (bit_vector);
    if flags.contains(f) {
        let i = choose|i: int| 0 <= i < flags.len() && flags[i] == f;
        assert(contains(masks[i], bit));
    }
    if flags.contains(UVTransformFlag::All) {
        let i = choose|i: int| 0 <= i < flags.len() && flags[i] == UVTransformFlag::All;
        assert(contains(masks[i], bit));
    }
    if contains(uv_transform_mask(flags), bit) {
        let i = choose|i: int| 0 <= i < masks.len() && contains(#[trigger] masks[i], bit);
        assert(flags[i] == f || flags[i] == UVTransformFlag::All);
    }
}

proof fn lemma_bits_are_single()
    ensures
        forall|c: ComponentType| is_single_bit(#[trigger] c.spec_bits()),
        forall|t: PrimitiveType| is_single_bit(#[trigger] t.spec_bits()),
        forall|f: UVTransformFlag| f != UVTransformFlag::All ==> is_single_bit(#[trigger] f.spec_bits()),
{
    assert(forall|k: u32| 0 <= k < 12 ==> {
        let b = #[trigger] (1u32 << k);
        b != 0 && b & ((b - 1) as u32) == 0
    }) by (bit_vector);
    assert(1u32 << 0 == 0x1 && 1u32 << 1 == 0x2 && 1u32 << 2 == 0x4 && 1u32 << 3 == 0x8 && 1u32 << 4
        == 0x10 && 1u32 << 5 == 0x20 && 1u32 << 6 == 0x40 && 1u32 << 7 == 0x80 && 1u32 << 8 == 0x100
        && 1u32 << 9 == 0x200 && 1u32 << 10 == 0x400 && 1u32 << 11 == 0x800) by (bit_vector);
}

proof fn lemma_component_bits_differ(a: ComponentType, b: ComponentType)
    ensures
        contains(a.spec_bits(), b.spec_bits()) <==> a == b,
{
    assert(forall|j: u32, k: u32|
        0 <= j < 12 && 0 <= k < 12 ==> (((1u32 << j) & (1u32 << k) == (1u32 << k)) <==> j == k))
        by (bit_vector);
    assert(1u32 << 0 == 0x1 && 1u32 << 1 == 0x2 && 1u32 << 2 == 0x4 && 1u32 << 3 == 0x8 && 1u32 << 4
        == 0x10 && 1u32 << 5 == 0x20 && 1u32 << 6 == 0x40 && 1u32 << 7 == 0x80 && 1u32 << 8 == 0x100
        && 1u32 << 9 == 0x200 && 1u32 << 10 == 0x400 && 1u32 << 11 == 0x800) by (bit_vector);
}

proof fn lemma_primitive_mask_bit(types: Seq<PrimitiveType>, t: PrimitiveType)
    ensures
        contains(primitive_mask(types), t.spec_bits()) <==> types.contains(t),
{
    let masks = types.map_values(|t: PrimitiveType| t.spec_bits());
    let bit = t.spec_bits();
    assert(is_single_bit(bit)) by {
        lemma_bits_are_single();
    }
    lemma_union_of_bit(masks, bit);
    assert(1u32 & 1 == 1 && 2u32 & 2 == 2 && 4u32 & 4 == 4 && 8u32 & 8 == 8 && 1u32 & 2 != 2 && 1u32
        & 4 != 4 && 1u32 & 8 != 8 && 2u32 & 1 != 1 && 2u32 & 4 != 4 && 2u32 & 8 != 8 && 4u32 & 1
        != 1 && 4u32 & 2 != 2 && 4u32 & 8 != 8 && 8u32 & 1 != 1 && 8u32 & 2 != 2 && 8u32 & 4 != 4)
        by (bit_vector);
    if types.contains(t) {
        let i = choose|i: int| 0 <= i < types.len() && types[i] == t;
        assert(contains(masks[i], bit));
    }
    if contains(primitive_mask(types), bit) {
        let i = choose|i: int| 0 <= i < masks.len() && contains(#[trigger] masks[i], bit);
        assert(types[i] == t);
    }
}

/// A union of masks that all lie within `all` lies within `all`.
proof fn lemma_union_of_within(masks: Seq<u32>, all: u32)
    requires
        forall|i: int| 0 <= i < masks.len() ==> #[trigger] masks[i] & !all == 0,
    ensures
        union_of(masks) & !all == 0,
    decreases masks.len(),
{
    if masks.len() == 0 {
        assert(0u32 & !all == 0) by (bit_vector);
    } else {
        lemma_union_of_within(masks.drop_last(), all);
        let u = union_of(masks.drop_last());
        let b = masks.last();
        assert(u & !all == 0 && b & !all == 0 ==> (u | b) & !all == 0) by (bit_vector);
    }
}

/// The mask of a list of components has no bit but those of components.
pub proof fn lemma_component_mask_bounded(components: Seq<ComponentType>)
    ensures
        component_mask(components) <= 0xFFE,
{
    let masks = components.map_values(|c: ComponentType| c.spec_bits());
    assert(0x2u32 & !0xFFEu32 == 0 && 0x4u32 & !0xFFEu32 == 0 && 0x8u32 & !0xFFEu32 == 0 && 0x10u32
        & !0xFFEu32 == 0 && 0x20u32 & !0xFFEu32 == 0 && 0x40u32 & !0xFFEu32 == 0 && 0x80u32
        & !0xFFEu32 == 0 && 0x100u32 & !0xFFEu32 == 0 && 0x200u32 & !0xFFEu32 == 0 && 0x400u32
        & !0xFFEu32 == 0 && 0x800u32 & !0xFFEu32 == 0) by (bit_vector);
    lemma_union_of_within(masks, 0xFFE);
    let m = union_of(masks);
    assert(m & !0xFFEu32 == 0 ==> m <= 0xFFE) by (bit_vector);
}

/// The mask of a list of UV transform kinds has no bit but the three of
/// scaling, rotation and translation.
pub proof fn lemma_uv_transform_mask_bounded(flags: Seq<UVTransformFlag>)
    ensures
        uv_transform_mask(flags) <= AI_UVTRAFO_ALL,
{
    let masks = flags.map_values(|f: UVTransformFlag| f.spec_bits());
    assert(0x1u32 & !0x7u32 == 0 && 0x2u32 & !0x7u32 == 0 && 0x4u32 & !0x7u32 == 0 && 0x7u32
        & !0x7u32 == 0) by (bit_vector);
    lemma_union_of_within(masks, 0x7);
    let m = union_of(masks);
    assert(m & !0x7u32 == 0 ==> m <= 0x7) by (bit_vector);
}

/// The mask of a list of primitive types has no bit but those of the four
/// types.
pub proof fn lemma_primitive_mask_bounded(types: Seq<PrimitiveType>)
    ensures
        primitive_mask(types) & !0xFu32 == 0,
        primitive_mask(types) <= AIPRIMITIVETYPE_ALL,
{
    let masks = types.map_values(|t: PrimitiveType| t.spec_bits());
    assert(0x1u32 & !0xFu32 == 0 && 0x2u32 & !0xFu32 == 0 && 0x4u32 & !0xFu32 == 0 && 0x8u32
        & !0xFu32 == 0) by (bit_vector);
    lemma_union_of_within(masks, 0xF);
    let m = union_of(masks);
    assert(m & !0xFu32 == 0 ==> m <= 0xF) by (bit_vector);
}

/// Computes the union of the bits of a list of components.
pub fn component_flags(components: &Vec<ComponentType>) -> (mask: u32)
    ensures
        mask == component_mask(components@),
        mask <= 0xFFE,
{
    let ghost masks = components@.map_values(|c: ComponentType| c.spec_bits());
    let mut mask: u32 = 0;
    let mut i: usize = 0;
    while i < components.len()
        invariant
            i <= components.len(),
            masks == components@.map_values(|c: ComponentType| c.spec_bits()),
            mask == union_of(masks.take(i as int)),
        decreases components.len() - i,
    {
        proof {
            assert(masks.take(i + 1).drop_last() =~= masks.take(i as int));
        }
        mask = mask | components[i].bits();
        i += 1;
    }
    proof {
        assert(masks.take(i as int) =~= masks);
        lemma_component_mask_bounded(components@);
    }
    mask
}

/// Computes the union of the bits of a list of UV transform kinds.
pub fn uv_transform_flags(flags: &Vec<UVTransformFlag>) -> (mask: u32)
    ensures
        mask == uv_transform_mask(flags@),
        mask <= AI_UVTRAFO_ALL,
{
    let ghost masks = flags@.map_values(|f: UVTransformFlag| f.spec_bits());
    let mut mask: u32 = 0;
    let mut i: usize = 0;
    while i < flags.len()
        invariant
            i <= flags.len(),
            masks == flags@.map_values(|f: UVTransformFlag| f.spec_bits()),
            mask == union_of(masks.take(i as int)),
        decreases flags.len() - i,
    {
        proof {
            assert(masks.take(i + 1).drop_last() =~= masks.take(i as int));
        }
        mask = mask | flags[i].bits();
        i += 1;
    }
    proof {
        assert(masks.take(i as int) =~= masks);
        lemma_uv_transform_mask_bounded(flags@);
    }
    mask
}

/// Computes the union of the bits of a list of primitive types.
pub fn primitive_flags(types: &Vec<PrimitiveType>) -> (mask: u32)
    ensures
        mask == primitive_mask(types@),
        mask <= AIPRIMITIVETYPE_ALL,
{
    let ghost masks = types@.map_values(|t: PrimitiveType| t.spec_bits());
    let mut mask: u32 = 0;
    let mut i: usize = 0;
    while i < types.len()
        invariant
            i <= types.len(),
            masks == types@.map_values(|t: PrimitiveType| t.spec_bits()),
            mask == union_of(masks.take(i as int)),
        decreases types.len() - i,
    {
        proof {
            assert(masks.take(i + 1).drop_last() =~= masks.take(i as int));
        }
        mask = mask | types[i].bits();
        i += 1;
    }
    proof {
        assert(masks.take(i as int) =~= masks);
        lemma_primitive_mask_bounded(types@);
    }
    mask
}

/// Arguments for the `calc_tangent_space` step.
pub struct CalcTangentSpace {
    /// Whether to enable the step. Default: false
    pub enable: bool,
    /// Maximum angle between two vertex tangents used for smoothing. Default: 45.0
    pub max_smoothing_angle: Scalar,
    /// Source UV channel for tangent space computation. Default: 0
    pub texture_channel: i32,
}

impl Default for CalcTangentSpace {
    /// The step switched off, with its parameters at their defaults.
    fn default() -> (r: CalcTangentSpace)
        ensures
            !r.enable,
            r.max_smoothing_angle.bits == DEFAULT_TANGENT_SMOOTHING_ANGLE_BITS,
            r.texture_channel == 0,
    {
        CalcTangentSpace {
            enable: false,
            max_smoothing_angle: Scalar::from_bits(DEFAULT_TANGENT_SMOOTHING_ANGLE_BITS),
            texture_channel: 0,
        }
    }
}

/// Arguments for the `remove_component` step.
pub struct RemoveComponent {
    /// Whether to enable the step. Default: false
    pub enable: bool,
    /// Which components to remove. Default: none
    pub components: Vec<ComponentType>,
}

impl Default for RemoveComponent {
    /// The step switched off, with its parameters at their defaults.
    fn default() -> (r: RemoveComponent)
        ensures
            !r.enable,
            r.components@ == Seq::<ComponentType>::empty(),
    {
        RemoveComponent {
            enable: false,
            components: Vec::new(),
        }
    }
}

/// Arguments for the `generate_normals` step.
pub struct GenerateNormals {
    /// Whether to enable the step. Default: false
    pub enable: bool,
    /// Whether the generated normals are smoothed or not. Default: false
    pub smooth: bool,
    /// Maximum angle between two vertex normals used for smoothing; only used
    /// when `smooth` is set. Default: 175.0
    pub max_smoothing_angle: Scalar,
}

impl Default for GenerateNormals {
    /// The step switched off, with its parameters at their defaults.
    fn default() -> (r: GenerateNormals)
        ensures
            !r.enable,
            !r.smooth,
            r.max_smoothing_angle.bits == DEFAULT_NORMAL_SMOOTHING_ANGLE_BITS,
    {
        GenerateNormals {
            enable: false,
            smooth: false,
            max_smoothing_angle: Scalar::from_bits(DEFAULT_NORMAL_SMOOTHING_ANGLE_BITS),
        }
    }
}

/// Arguments for the `split_large_meshes` step.
pub struct SplitLargeMeshes {
    /// Whether to enable the step. Default: false
    pub enable: bool,
    /// Maximum number of vertices per mesh. Default: 1000000
    pub vertex_limit: i32,
    /// Maximum number of triangles per mesh. Default: 1000000
    pub triangle_limit: i32,
}

impl Default for SplitLargeMeshes {
    /// The step switched off, with its parameters at their defaults.
    fn default() -> (r: SplitLargeMeshes)
        ensures
            !r.enable,
            r.vertex_limit == AI_SLM_DEFAULT_MAX_VERTICES,
            r.triangle_limit == AI_SLM_DEFAULT_MAX_TRIANGLES,
    {
        SplitLargeMeshes {
            enable: false,
            vertex_limit: AI_SLM_DEFAULT_MAX_VERTICES,
            triangle_limit: AI_SLM_DEFAULT_MAX_TRIANGLES,
        }
    }
}

/// Arguments for the `pre_transform_vertices` step.
pub struct PreTransformVertices {
    /// Whether to enable the step. Default: false
    pub enable: bool,
    /// Whether to keep the existing scene hierarchy. Default: false
    pub keep_hierarchy: bool,
    /// Whether to normalize all vertices into the [-1, 1] range. Default: false
    pub normalize: bool,
    /// Whether to pre-transform all vertices using the matrix in
    /// `root_transformation`. Default: false
    pub add_root_transformation: bool,
    /// Transformation matrix to use. Default: the identity
    pub root_transformation: Matrix4x4,
}

impl Default for PreTransformVertices {
    /// The step switched off, with its parameters at their defaults.
    fn default() -> (r: PreTransformVertices)
        ensures
            !r.enable,
            !r.keep_hierarchy,
            !r.normalize,
            !r.add_root_transformation,
            forall|row: int, col: int|
                0 <= row < 4 && 0 <= col < 4 ==> (#[trigger] r.root_transformation.at(
                    row,
                    col,
                )).bits == (if row == col {
                    ONE_BITS
                } else {
                    ZERO_BITS
                }),
    {
        PreTransformVertices {
            enable: false,
            keep_hierarchy: false,
            normalize: false,
            add_root_transformation: false,
            root_transformation: Matrix4x4::identity(),
        }
    }
}

/// Arguments for the `limit_bone_weights` step.
pub struct LimitBoneWeights {
    /// Whether to enable the step. Default: false
    pub enable: bool,
    /// Maximum number of bones that affect a single vertex. Default: 4
    pub max_weights: i32,
}

impl Default for LimitBoneWeights {
    /// The step switched off, with its parameters at their defaults.
    fn default() -> (r: LimitBoneWeights)
        ensures
            !r.enable,
            r.max_weights == AI_LMW_MAX_WEIGHTS,
    {
        LimitBoneWeights {
            enable: false,
            max_weights: AI_LMW_MAX_WEIGHTS,
        }
    }
}

/// Arguments for the `improve_cache_locality` step.
pub struct ImproveCacheLocality {
    /// Whether to enable the step. Default: false
    pub enable: bool,
    /// Size of the post-transform vertex cache. Default: 12
    pub cache_size: i32,
}

impl Default for ImproveCacheLocality {
    /// The step switched off, with its parameters at their defaults.
    fn default() -> (r: ImproveCacheLocality)
        ensures
            !r.enable,
            r.cache_size == PP_ICL_DEFAULT_PTCACHE_SIZE,
    {
        ImproveCacheLocality {
            enable: false,
            cache_size: PP_ICL_DEFAULT_PTCACHE_SIZE,
        }
    }
}

/// Arguments for the `remove_redudant_materials` step.
pub struct RemoveRedundantMaterials {
    /// Whether to enable the step. Default: false
    pub enable: bool,
    /// Space-delimited list of materials to keep. Identifiers containing
    /// whitespace must be enclosed in single quotes, as in
    /// `material1 'material 2' material3`. Default: empty
    pub exclude_list: String,
}

impl Default for RemoveRedundantMaterials {
    /// The step switched off, with its parameters at their defaults.
    fn default() -> (r: RemoveRedundantMaterials)
        ensures
            !r.enable,
            r.exclude_list@ == Seq::<char>::empty(),
    {
        RemoveRedundantMaterials {
            enable: false,
            exclude_list: String::new(),
        }
    }
}

/// Arguments for the `sort_by_primitive_type` step.
pub struct SortByPrimitiveType {
    /// Whether to enable the step. Default: false
    pub enable: bool,
    /// Primitive types to remove. Default: none
    pub remove: Vec<PrimitiveType>,
}

impl Default for SortByPrimitiveType {
    /// The step switched off, with its parameters at their defaults.
    fn default() -> (r: SortByPrimitiveType)
        ensures
            !r.enable,
            r.remove@ == Seq::<PrimitiveType>::empty(),
    {
        SortByPrimitiveType {
            enable: false,
            remove: Vec::new(),
        }
    }
}

/// Arguments for the `find_degenerates` step.
pub struct FindDegenerates {
    /// Whether to enable the step. Default: false
    pub enable: bool,
    /// Whether to remove any found degenerates. Default: false
    pub remove: bool,
}

impl Default for FindDegenerates {
    /// The step switched off, with its parameters at their defaults.
    fn default() -> (r: FindDegenerates)
        ensures
            !r.enable,
            !r.remove,
    {
        FindDegenerates {
            enable: false,
            remove: false,
        }
    }
}

/// Arguments for the `find_invalid_data` step.
pub struct FindInvalidData {
    /// Whether to enable the step. Default: false
    pub enable: bool,
    /// Accuracy for considering animation values as invalid. Default: 0.0
    pub accuracy: Scalar,
}

impl Default for FindInvalidData {
    /// The step switched off, with its parameters at their defaults.
    fn default() -> (r: FindInvalidData)
        ensures
            !r.enable,
            r.accuracy.bits == ZERO_BITS,
    {
        FindInvalidData {
            enable: false,
            accuracy: Scalar::zero(),
        }
    }
}

/// Arguments for the `transform_uv_coords` step.
pub struct TransformUVCoords {
    /// Whether to enable the step. Default: false
    pub enable: bool,
    /// Which UV transforms to evaluate. Default: all
    pub flags: Vec<UVTransformFlag>,
}

impl Default for TransformUVCoords {
    /// The step switched off, with its parameters at their defaults.
    fn default() -> (r: TransformUVCoords)
        ensures
            !r.enable,
            r.flags@ == seq![UVTransformFlag::All],
    {
        let mut flags: Vec<UVTransformFlag> = Vec::new();
        flags.push(UVTransformFlag::All);
        TransformUVCoords { enable: false, flags }
    }
}

/// Arguments for the `optimize_graph` step.
pub struct OptimizeGraph {
    /// Whether to enable the step. Default: false
    pub enable: bool,
    /// Space-delimited list of nodes to keep. Identifiers containing
    /// whitespace must be enclosed in single quotes, as in
    /// `node1 'node 2' node3`. Default: empty
    pub exclude_list: String,
}

impl Default for OptimizeGraph {
    /// The step switched off, with its parameters at their defaults.
    fn default() -> (r: OptimizeGraph)
        ensures
            !r.enable,
            r.exclude_list@ == Seq::<char>::empty(),
    {
        OptimizeGraph {
            enable: false,
            exclude_list: String::new(),
        }
    }
}

/// Arguments for the `split_by_bone_count` step.
pub struct SplitByBoneCount {
    /// Whether to enable the step. Default: false
    pub enable: bool,
    /// Maximum number of bones per mesh. Default: 60
    pub max_bones: i32,
}

impl Default for SplitByBoneCount {
    /// The step switched off, with its parameters at their defaults.
    fn default() -> (r: SplitByBoneCount)
        ensures
            !r.enable,
            r.max_bones == AI_SBBC_DEFAULT_MAX_BONES,
    {
        SplitByBoneCount {
            enable: false,
            max_bones: AI_SBBC_DEFAULT_MAX_BONES,
        }
    }
}

/// Arguments for the `debone` step.
pub struct Debone {
    /// Whether to enable the step. Default: false
    pub enable: bool,
    /// Threshold for considering a bone necessary. Default: 1.0
    pub threshold: Scalar,
    /// Whether to require all bones to meet the threshold before removing any.
    /// Default: false
    pub all_or_none: bool,
}

impl Default for Debone {
    /// The step switched off, with its parameters at their defaults.
    fn default() -> (r: Debone)
        ensures
            !r.enable,
            r.threshold.bits == AI_DEBONE_THRESHOLD_BITS,
            !r.all_or_none,
    {
        Debone {
            enable: false,
            threshold: Scalar::from_bits(AI_DEBONE_THRESHOLD_BITS),
            all_or_none: false,
        }
    }
}

} // verus!
