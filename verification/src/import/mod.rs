//! Import configuration.
//!
//! An [`Importer`] collects what an import is to be run with: the mask of the
//! post-processing steps to apply, and the values given to named properties.
//! Nothing here talks to the import engine. The importer records each
//! property value in the order in which it was set; whoever runs the import
//! hands the mask to the engine and writes the recorded values into the
//! engine's property store, first to last, so that of two values set under
//! one name and type the later one counts.
//!
//! Switching a step on sets its bit in the mask and records its parameters.
//! Switching a step off clears the bit and records nothing: parameters
//! recorded earlier stay as they are.
//!
//! Re-running the post-processing on a scene that is already imported hands
//! the engine the mask only. A property changed after the import takes effect
//! only if its step is switched off and on again in the mask between two
//! runs.

pub mod extensions;
pub mod structs;

use self::structs::{
    component_flags, component_mask, names_every_primitive, primitive_flags, primitive_mask,
    uv_transform_flags, uv_transform_mask, CalcTangentSpace, Debone, FindDegenerates,
    FindInvalidData, GenerateNormals, ImproveCacheLocality, LimitBoneWeights, OptimizeGraph,
    PreTransformVertices, RemoveComponent, RemoveRedundantMaterials, SortByPrimitiveType,
    SplitByBoneCount, SplitLargeMeshes, TransformUVCoords,
};
use self::structs::{lemma_primitive_mask, PrimitiveType};
use crate::config::{
    PropertyNameBool, PropertyNameFloat, PropertyNameInteger, PropertyNameMatrix,
    PropertyNameString,
};
use crate::config::{
    FAVOUR_SPEED, GLOB_MEASURE_TIME, IMPORT_AC_EVAL_SUBDIVISION, IMPORT_AC_SEPARATE_BFCULL,
    IMPORT_ASE_RECONSTRUCT_NORMALS, IMPORT_COLLADA_IGNORE_UP_DIRECTION,
    IMPORT_FBX_OPTIMIZE_EMPTY_ANIMATION_CURVES, IMPORT_FBX_PRESERVE_PIVOTS,
    IMPORT_FBX_READ_ALL_GEOMETRY_LAYERS, IMPORT_FBX_READ_ALL_MATERIALS,
    IMPORT_FBX_READ_ANIMATIONS, IMPORT_FBX_READ_CAMERAS, IMPORT_FBX_READ_LIGHTS,
    IMPORT_FBX_READ_MATERIALS, IMPORT_FBX_STRICT_MODE, IMPORT_GLOBAL_KEYFRAME,
    IMPORT_IFC_CUSTOM_TRIANGULATION, IMPORT_IFC_SKIP_CURVE_REPRESENTATIONS,
    IMPORT_IFC_SKIP_SPACE_REPRESENTATIONS, IMPORT_IRR_ANIM_FPS, IMPORT_LWO_ONE_LAYER_ONLY,
    IMPORT_LWS_ANIM_END, IMPORT_LWS_ANIM_START, IMPORT_MD2_KEYFRAME, IMPORT_MD3_HANDLE_MULTIPART,
    IMPORT_MD3_KEYFRAME, IMPORT_MD3_SHADER_SRC, IMPORT_MD3_SKIN_NAME, IMPORT_MD5_NO_ANIM_AUTOLOAD,
    IMPORT_MDC_KEYFRAME, IMPORT_MDL_COLORMAP, IMPORT_MDL_KEYFRAME, IMPORT_NO_SKELETON_MESHES,
    IMPORT_OGRE_MATERIAL_FILE, IMPORT_OGRE_TEXTURETYPE_FROM_FILENAME, IMPORT_SMD_KEYFRAME,
    IMPORT_TER_MAKE_UVS, IMPORT_UNREAL_KEYFRAME, PP_CT_MAX_SMOOTHING_ANGLE,
    PP_CT_TEXTURE_CHANNEL_INDEX, PP_DB_ALL_OR_NONE, PP_DB_THRESHOLD, PP_FD_REMOVE,
    PP_FID_ANIM_ACCURACY, PP_GSN_MAX_SMOOTHING_ANGLE, PP_ICL_PTCACHE_SIZE, PP_LBW_MAX_WEIGHTS,
    PP_OG_EXCLUDE_LIST, PP_PTV_ADD_ROOT_TRANSFORMATION, PP_PTV_KEEP_HIERARCHY, PP_PTV_NORMALIZE,
    PP_PTV_ROOT_TRANSFORMATION, PP_RRM_EXCLUDE_LIST, PP_RVC_FLAGS, PP_SBBC_MAX_BONES,
    PP_SBP_REMOVE, PP_SLM_TRIANGLE_LIMIT, PP_SLM_VERTEX_LIMIT, PP_TUV_EVALUATE,
    UNREAL_HANDLE_FLAGS,
};
use crate::math::{Matrix4x4, Scalar};
use crate::postprocess::{
    with_flag, AIPRIMITIVETYPE_ALL, AIPROCESS_CALC_TANGENT_SPACE, AIPROCESS_DEBONE,
    AIPROCESS_FIND_DEGENERATES, AIPROCESS_FIND_INSTANCES, AIPROCESS_FIND_INVALID_DATA,
    AIPROCESS_FIX_INFACING_NORMALS, AIPROCESS_FLIP_UVS, AIPROCESS_FLIP_WINDING_ORDER,
    AIPROCESS_GEN_NORMALS, AIPROCESS_GEN_SMOOTH_NORMALS, AIPROCESS_GEN_UV_COORDS,
    AIPROCESS_IMPROVE_CACHE_LOCALITY, AIPROCESS_JOIN_IDENTICAL_VERTICES,
    AIPROCESS_LIMIT_BONE_WEIGHTS, AIPROCESS_MAKE_LEFT_HANDED, AIPROCESS_OPTIMIZE_GRAPH,
    AIPROCESS_OPTIMIZE_MESHES, AIPROCESS_PRE_TRANSFORM_VERTICES, AIPROCESS_REMOVE_COMPONENT,
    AIPROCESS_REMOVE_REDUNDANT_MATERIALS, AIPROCESS_SORT_BY_PTYPE, AIPROCESS_SPLIT_BY_BONE_COUNT,
    AIPROCESS_SPLIT_LARGE_MESHES, AIPROCESS_TRANSFORM_UV_COORDS, AIPROCESS_TRIANGULATE,
    AIPROCESS_VALIDATE_DATA_STRUCTURE,
};
use crate::string::{str_from_utf8, AiString, MAXLEN};
use vstd::prelude::*;
use vstd::string::StringSliceAdditionalSpecFns;
use vstd::utf8::*;

verus! {

/// A value as the property store takes it. A boolean is stored as the
/// integer 1 or 0.
#[derive(Clone, Copy, Debug)]
pub enum PropertyValue {
    Integer(i32),
    Float(Scalar),
    String(AiString),
    Matrix(Matrix4x4),
}

/// One write into the property store: a value under a name.
#[derive(Clone, Copy, Debug)]
pub struct PropertyWrite {
    pub name: &'static str,
    pub value: PropertyValue,
}

/// What a [`PropertyWrite`] says: the text of the name, and the value.
pub struct Setting {
    pub name: Seq<char>,
    pub value: PropertyValue,
}

impl View for PropertyWrite {
    type V = Setting;

    open spec fn view(&self) -> Setting {
        Setting { name: self.name@, value: self.value }
    }
}

/// The setting of an integer property.
pub open spec fn int_setting(name: Seq<char>, value: i32) -> Setting {
    Setting { name, value: PropertyValue::Integer(value) }
}

/// The setting of a boolean property: the integer 1 for true, 0 for false.
pub open spec fn bool_setting(name: Seq<char>, value: bool) -> Setting {
    int_setting(
        name,
        if value {
            1
        } else {
            0
        },
    )
}

/// The setting of a floating-point property.
pub open spec fn float_setting(name: Seq<char>, value: Scalar) -> Setting {
    Setting { name, value: PropertyValue::Float(value) }
}

/// The setting of a string property: the fixed-length string made from the
/// text.
pub open spec fn string_setting(name: Seq<char>, text: Seq<char>) -> Setting {
    Setting { name, value: PropertyValue::String(AiString::spec_from_str(text)) }
}

/// The setting of a matrix property.
pub open spec fn matrix_setting(name: Seq<char>, value: Matrix4x4) -> Setting {
    Setting { name, value: PropertyValue::Matrix(value) }
}

/// Whether `text` is short enough to be the value of a string property.
pub open spec fn fits_in_string(text: Seq<char>) -> bool {
    encode_utf8(text).len() < MAXLEN
}

/// A property with its value; the type of the name fixes that of the value.
pub enum Property<'a> {
    Bool(PropertyNameBool, bool),
    Integer(PropertyNameInteger, i32),
    Float(PropertyNameFloat, Scalar),
    String(PropertyNameString, &'a str),
    Matrix(PropertyNameMatrix, Matrix4x4),
}

impl<'a> Property<'a> {
    /// The setting that stores this property.
    pub open spec fn setting(self) -> Setting {
        match self {
            Property::Bool(name, b) => bool_setting(name.0@, b),
            Property::Integer(name, i) => int_setting(name.0@, i),
            Property::Float(name, f) => float_setting(name.0@, f),
            Property::String(name, s) => string_setting(name.0@, s@),
            Property::Matrix(name, m) => matrix_setting(name.0@, m),
        }
    }

    /// Whether the property can be stored: a string value must be short
    /// enough.
    pub open spec fn storable(self) -> bool {
        match self {
            Property::String(_, s) => fits_in_string(s@),
            _ => true,
        }
    }
}

/// What an importer holds: the mask of the steps switched on, and the
/// settings made so far, oldest first.
pub struct ImporterView {
    pub flags: u32,
    pub settings: Seq<Setting>,
}

impl ImporterView {
    /// This configuration with `flag` switched on or off.
    pub open spec fn flag(self, flag: u32, value: bool) -> ImporterView {
        ImporterView { flags: with_flag(self.flags, flag, value), settings: self.settings }
    }

    /// This configuration with one more setting.
    pub open spec fn set(self, setting: Setting) -> ImporterView {
        ImporterView { flags: self.flags, settings: self.settings.push(setting) }
    }

    /// This configuration after `generate_normals` with the given arguments.
    pub open spec fn generate_normals(self, args: GenerateNormals) -> ImporterView {
        if args.enable {
            if args.smooth {
                self.flag(AIPROCESS_GEN_SMOOTH_NORMALS, true).set(
                    float_setting(PP_GSN_MAX_SMOOTHING_ANGLE@, args.max_smoothing_angle),
                )
            } else {
                self.flag(AIPROCESS_GEN_NORMALS, true)
            }
        } else {
            self.flag(AIPROCESS_GEN_NORMALS | AIPROCESS_GEN_SMOOTH_NORMALS, false)
        }
    }

    /// This configuration after `sort_by_primitive_type` with the given
    /// arguments.
    pub open spec fn sort_by_primitive_type(self, args: SortByPrimitiveType) -> ImporterView {
        if args.enable {
            self.flag(AIPROCESS_SORT_BY_PTYPE, true).set(
                int_setting(PP_SBP_REMOVE@, primitive_mask(args.remove@) as i32),
            )
        } else {
            self.flag(AIPROCESS_SORT_BY_PTYPE, false)
        }
    }
}

/// Whether `sort_by_primitive_type` takes these arguments: the step may not
/// be asked to remove every primitive type there is.
pub open spec fn sort_by_primitive_type_legal(args: SortByPrimitiveType) -> bool {
    !(args.enable && names_every_primitive(args.remove@))
}

/// The configuration of an import.
pub struct Importer {
    flags: u32,
    writes: Vec<PropertyWrite>,
}

impl View for Importer {
    type V = ImporterView;

    closed spec fn view(&self) -> ImporterView {
        ImporterView {
            flags: self.flags,
            settings: self.writes@.map_values(|w: PropertyWrite| w@),
        }
    }
}

/// The message of a failed import for which the engine gave no readable
/// reason.
pub const UNKNOWN_ERROR: &'static str = "Unknown error";

/// The message of a failed import: the reason that the engine gave, if it
/// gave one and it is UTF-8, else [`UNKNOWN_ERROR`].
pub open spec fn error_message(reason: Option<Seq<u8>>) -> Seq<char> {
    match reason {
        Some(bytes) => if valid_utf8(bytes) {
            decode_utf8(bytes)
        } else {
            UNKNOWN_ERROR@
        },
        None => UNKNOWN_ERROR@,
    }
}

/// Decides how an import ended. `scene` is what the engine returned, `None`
/// standing for no scene; `reason` is the engine's last error text, `None`
/// standing for no text. With a scene the import succeeded and the scene is
/// handed on; without one it failed with [`error_message`].
pub fn import_outcome<S>(scene: Option<S>, reason: Option<&[u8]>) -> (r: Result<S, String>)
    ensures
        match scene {
            Some(s) => r == Ok::<S, String>(s),
            None => r is Err && r->Err_0@ == error_message(
                match reason {
                    Some(bytes) => Some(bytes@),
                    None => None,
                },
            ),
        },
{
    match scene {
        Some(s) => Ok(s),
        None => {
            let text: &str = match reason {
                Some(bytes) => match str_from_utf8(bytes) {
                    Some(s) => {
                        proof {
                            encode_utf8_decode_utf8(s@);
                        }
                        s
                    },
                    None => UNKNOWN_ERROR,
                },
                None => UNKNOWN_ERROR,
            };
            Err(text.to_owned())
        },
    }
}

impl Importer {
    /// A configuration with no step switched on and no property set.
    pub fn new() -> (r: Importer)
        ensures
            r@ == (ImporterView { flags: 0, settings: Seq::empty() }),
    {
        let r = Importer { flags: 0, writes: Vec::new() };
        proof {
            assert(r@.settings =~= Seq::empty());
        }
        r
    }

    /// The mask of the steps switched on.
    pub fn flags(&self) -> (r: u32)
        ensures
            r == self@.flags,
    {
        self.flags
    }

    /// The writes to make into the property store, in order.
    pub fn writes(&self) -> (r: &[PropertyWrite])
        ensures
            r@.map_values(|w: PropertyWrite| w@) == self@.settings,
    {
        self.writes.as_slice()
    }

    /// Records `property`. A string value must be short enough to be
    /// stored.
    pub fn set_import_property(&mut self, property: Property)
        requires
            property.storable(),
        ensures
            final(self)@ == old(self)@.set(property.setting()),
    {
        match property {
            Property::Bool(PropertyNameBool(name), b) => {
                self.set_bool_property(name, b);
            },
            Property::Integer(PropertyNameInteger(name), i) => {
                self.set_int_property(name, i);
            },
            Property::Float(PropertyNameFloat(name), f) => {
                self.set_float_property(name, f);
            },
            Property::String(PropertyNameString(name), s) => {
                self.set_string_property(name, s);
            },
            Property::Matrix(PropertyNameMatrix(name), m) => {
                self.set_matrix_property(name, m);
            },
        }
    }

    /// Sets or clears the bits of `flag` in the mask.
    fn set_import_flag(&mut self, flag: u32, value: bool)
        ensures
            final(self)@ == old(self)@.flag(flag, value),
    {
        if value {
            self.flags = self.flags | flag;
        } else {
            self.flags = self.flags & !flag;
        }
    }

    /// Records one write.
    fn record(&mut self, name: &'static str, value: PropertyValue)
        ensures
            final(self)@ == old(self)@.set(Setting { name: name@, value }),
    {
        self.writes.push(PropertyWrite { name, value });
        proof {
            assert(self@.settings =~= old(self)@.settings.push(Setting { name: name@, value }));
        }
    }

    /// Records a boolean property.
    fn set_bool_property(&mut self, name: &'static str, value: bool)
        ensures
            final(self)@ == old(self)@.set(bool_setting(name@, value)),
    {
        self.set_int_property(
            name,
            if value {
                1
            } else {
                0
            },
        )
    }

    /// Records an integer property.
    fn set_int_property(&mut self, name: &'static str, value: i32)
        ensures
            final(self)@ == old(self)@.set(int_setting(name@, value)),
    {
        self.record(name, PropertyValue::Integer(value));
    }

    /// Records a floating-point property.
    fn set_float_property(&mut self, name: &'static str, value: Scalar)
        ensures
            final(self)@ == old(self)@.set(float_setting(name@, value)),
    {
        self.record(name, PropertyValue::Float(value));
    }

    /// Records a 4x4 matrix property.
    fn set_matrix_property(&mut self, name: &'static str, value: Matrix4x4)
        ensures
            final(self)@ == old(self)@.set(matrix_setting(name@, value)),
    {
        self.record(name, PropertyValue::Matrix(value));
    }

    /// Records a string property.
    fn set_string_property(&mut self, name: &'static str, value: &str)
        requires
            fits_in_string(value@),
        ensures
            final(self)@ == old(self)@.set(string_setting(name@, value@)),
    {
        let aistr = AiString::from_str(value);
        self.record(name, PropertyValue::String(aistr));
    }

    /// Asks for the time taken by each part of the import to be measured and
    /// logged.
    pub fn measure_time(&mut self, enable: bool)
        ensures
            final(self)@ == old(self)@.set(bool_setting(GLOB_MEASURE_TIME@, enable)),
    {
        self.set_bool_property(GLOB_MEASURE_TIME, enable);
    }

    /// Hints that speed is to be favoured over the quality of the import.
    pub fn favour_speed(&mut self, enable: bool)
        ensures
            final(self)@ == old(self)@.set(bool_setting(FAVOUR_SPEED@, enable)),
    {
        self.set_bool_property(FAVOUR_SPEED, enable);
    }

    /// Computes tangents and bitangents for the imported meshes.
    pub fn calc_tangent_space(&mut self, args: CalcTangentSpace)
        ensures
            final(self)@ == (if args.enable {
                old(self)@.flag(AIPROCESS_CALC_TANGENT_SPACE, true).set(
                    float_setting(PP_CT_MAX_SMOOTHING_ANGLE@, args.max_smoothing_angle),
                ).set(
                    int_setting(PP_CT_TEXTURE_CHANNEL_INDEX@, args.texture_channel),
                )
            } else {
                old(self)@.flag(AIPROCESS_CALC_TANGENT_SPACE, false)
            }),
    {
        self.set_import_flag(AIPROCESS_CALC_TANGENT_SPACE, args.enable);
        if args.enable {
            self.set_float_property(PP_CT_MAX_SMOOTHING_ANGLE, args.max_smoothing_angle);
            self.set_int_property(PP_CT_TEXTURE_CHANNEL_INDEX, args.texture_channel);
        }
    }

    /// Joins identical vertex data within every mesh, so that a vertex may be
    /// shared by several faces.
    pub fn join_identical_vertices(&mut self, enable: bool)
        ensures
            final(self)@ == old(self)@.flag(AIPROCESS_JOIN_IDENTICAL_VERTICES, enable),
    {
        self.set_import_flag(AIPROCESS_JOIN_IDENTICAL_VERTICES, enable);
    }

    /// Converts the imported data to a left-handed coordinate space.
    pub fn make_left_handed(&mut self, enable: bool)
        ensures
            final(self)@ == old(self)@.flag(AIPROCESS_MAKE_LEFT_HANDED, enable),
    {
        self.set_import_flag(AIPROCESS_MAKE_LEFT_HANDED, enable);
    }

    /// Splits every face with more than three indices into triangles. Points
    /// and lines are left alone.
    pub fn triangulate(&mut self, enable: bool)
        ensures
            final(self)@ == old(self)@.flag(AIPROCESS_TRIANGULATE, enable),
    {
        self.set_import_flag(AIPROCESS_TRIANGULATE, enable);
    }

    /// Leaves the named components out of the imported data.
    pub fn remove_component(&mut self, args: RemoveComponent)
        ensures
            final(self)@ == (if args.enable {
                old(self)@.flag(AIPROCESS_REMOVE_COMPONENT, true).set(
                    int_setting(PP_RVC_FLAGS@, component_mask(args.components@) as i32),
                )
            } else {
                old(self)@.flag(AIPROCESS_REMOVE_COMPONENT, false)
            }),
    {
        self.set_import_flag(AIPROCESS_REMOVE_COMPONENT, args.enable);
        if args.enable {
            let flags: u32 = component_flags(&args.components);
            self.set_int_property(PP_RVC_FLAGS, flags as i32);
        }
    }

    /// Generates normals for meshes that have none: smooth ones, one per
    /// vertex, when `smooth` is set, else flat ones, one per face. Switching
    /// the step on sets the bit of the kind asked for and leaves the bit of
    /// the other kind as it was; switching it off clears both.
    pub fn generate_normals(&mut self, args: GenerateNormals)
        ensures
            final(self)@ == old(self)@.generate_normals(args),
    {
        if args.enable {
            if args.smooth {
                self.set_import_flag(AIPROCESS_GEN_SMOOTH_NORMALS, true);
                self.set_float_property(PP_GSN_MAX_SMOOTHING_ANGLE, args.max_smoothing_angle);
            } else {
                self.set_import_flag(AIPROCESS_GEN_NORMALS, true);
            }
        } else {
            self.set_import_flag(AIPROCESS_GEN_NORMALS | AIPROCESS_GEN_SMOOTH_NORMALS, false);
        }
    }

    /// Splits meshes that exceed the triangle or the vertex limit into smaller
    /// ones.
    pub fn split_large_meshes(&mut self, args: SplitLargeMeshes)
        ensures
            final(self)@ == (if args.enable {
                old(self)@.flag(AIPROCESS_SPLIT_LARGE_MESHES, true).set(
                    int_setting(PP_SLM_TRIANGLE_LIMIT@, args.triangle_limit),
                ).set(
                    int_setting(PP_SLM_VERTEX_LIMIT@, args.vertex_limit),
                )
            } else {
                old(self)@.flag(AIPROCESS_SPLIT_LARGE_MESHES, false)
            }),
    {
        self.set_import_flag(AIPROCESS_SPLIT_LARGE_MESHES, args.enable);
        if args.enable {
            self.set_int_property(PP_SLM_TRIANGLE_LIMIT, args.triangle_limit);
            self.set_int_property(PP_SLM_VERTEX_LIMIT, args.vertex_limit);
        }
    }

    /// Removes the node graph and transforms every vertex by the
    /// transformation of its node.
    pub fn pre_transform_vertices(&mut self, args: PreTransformVertices)
        ensures
            final(self)@ == (if args.enable {
                old(self)@.flag(AIPROCESS_PRE_TRANSFORM_VERTICES, true).set(
                    bool_setting(PP_PTV_KEEP_HIERARCHY@, args.keep_hierarchy),
                ).set(
                    bool_setting(PP_PTV_NORMALIZE@, args.normalize),
                ).set(
                    bool_setting(PP_PTV_ADD_ROOT_TRANSFORMATION@, args.add_root_transformation),
                ).set(
                    matrix_setting(PP_PTV_ROOT_TRANSFORMATION@, args.root_transformation),
                )
            } else {
                old(self)@.flag(AIPROCESS_PRE_TRANSFORM_VERTICES, false)
            }),
    {
        self.set_import_flag(AIPROCESS_PRE_TRANSFORM_VERTICES, args.enable);
        if args.enable {
            self.set_bool_property(PP_PTV_KEEP_HIERARCHY, args.keep_hierarchy);
            self.set_bool_property(PP_PTV_NORMALIZE, args.normalize);
            self.set_bool_property(PP_PTV_ADD_ROOT_TRANSFORMATION, args.add_root_transformation);
            self.set_matrix_property(PP_PTV_ROOT_TRANSFORMATION, args.root_transformation);
        }
    }

    /// Limits the number of bones that affect a single vertex.
    pub fn limit_bone_weights(&mut self, args: LimitBoneWeights)
        ensures
            final(self)@ == (if args.enable {
                old(self)@.flag(AIPROCESS_LIMIT_BONE_WEIGHTS, true).set(
                    int_setting(PP_LBW_MAX_WEIGHTS@, args.max_weights),
                )
            } else {
                old(self)@.flag(AIPROCESS_LIMIT_BONE_WEIGHTS, false)
            }),
    {
        self.set_import_flag(AIPROCESS_LIMIT_BONE_WEIGHTS, args.enable);
        if args.enable {
            self.set_int_property(PP_LBW_MAX_WEIGHTS, args.max_weights);
        }
    }

    /// Validates the imported scene: indices, links between animations and
    /// bones, references to materials.
    pub fn validate_data_structure(&mut self, enable: bool)
        ensures
            final(self)@ == old(self)@.flag(AIPROCESS_VALIDATE_DATA_STRUCTURE, enable),
    {
        self.set_import_flag(AIPROCESS_VALIDATE_DATA_STRUCTURE, enable);
    }

    /// Reorders triangles for better use of the vertex cache.
    pub fn improve_cache_locality(&mut self, args: ImproveCacheLocality)
        ensures
            final(self)@ == (if args.enable {
                old(self)@.flag(AIPROCESS_IMPROVE_CACHE_LOCALITY, true).set(
                    int_setting(PP_ICL_PTCACHE_SIZE@, args.cache_size),
                )
            } else {
                old(self)@.flag(AIPROCESS_IMPROVE_CACHE_LOCALITY, false)
            }),
    {
        self.set_import_flag(AIPROCESS_IMPROVE_CACHE_LOCALITY, args.enable);
        if args.enable {
            self.set_int_property(PP_ICL_PTCACHE_SIZE, args.cache_size);
        }
    }

    /// Removes materials that are redundant or never referenced. The list of
    /// materials to keep must be short enough to be stored when the step is
    /// switched on.
    pub fn remove_redudant_materials(&mut self, args: RemoveRedundantMaterials)
        requires
            args.enable ==> fits_in_string(args.exclude_list@),
        ensures
            final(self)@ == (if args.enable {
                old(self)@.flag(AIPROCESS_REMOVE_REDUNDANT_MATERIALS, true).set(
                    string_setting(PP_RRM_EXCLUDE_LIST@, args.exclude_list@),
                )
            } else {
                old(self)@.flag(AIPROCESS_REMOVE_REDUNDANT_MATERIALS, false)
            }),
    {
        self.set_import_flag(AIPROCESS_REMOVE_REDUNDANT_MATERIALS, args.enable);
        if args.enable {
            self.set_string_property(PP_RRM_EXCLUDE_LIST, args.exclude_list.as_str());
        }
    }

    /// Inverts normals that face inwards.
    pub fn fix_infacing_normals(&mut self, enable: bool)
        ensures
            final(self)@ == old(self)@.flag(AIPROCESS_FIX_INFACING_NORMALS, enable),
    {
        self.set_import_flag(AIPROCESS_FIX_INFACING_NORMALS, enable);
    }

    /// Splits meshes with more than one primitive type into meshes of one
    /// type each, and removes the primitive types named in `remove`.
    ///
    /// Asking for every primitive type to be removed is not allowed:
    /// [`Importer::checked_sort_by_primitive_type`] tests for it.
    pub fn sort_by_primitive_type(&mut self, args: SortByPrimitiveType)
        requires
            sort_by_primitive_type_legal(args),
        ensures
            final(self)@ == old(self)@.sort_by_primitive_type(args),
    {
        self.set_import_flag(AIPROCESS_SORT_BY_PTYPE, args.enable);
        if args.enable {
            let flags: u32 = primitive_flags(&args.remove);
            self.set_int_property(PP_SBP_REMOVE, flags as i32);
        }
    }

    /// As [`Importer::sort_by_primitive_type`], but tests the arguments
    /// first. Returns whether they were accepted; if not, nothing is
    /// recorded and the mask is unchanged.
    pub fn checked_sort_by_primitive_type(&mut self, args: SortByPrimitiveType) -> (accepted: bool)
        ensures
            accepted == sort_by_primitive_type_legal(args),
            final(self)@ == (if accepted {
                old(self)@.sort_by_primitive_type(args)
            } else {
                old(self)@
            }),
    {
        if args.enable {
            let flags: u32 = primitive_flags(&args.remove);
            proof {
                lemma_primitive_mask(args.remove@, PrimitiveType::Point);
            }
            if flags == AIPRIMITIVETYPE_ALL {
                return false;
            }
        }
        self.sort_by_primitive_type(args);
        true
    }

    /// Finds degenerate primitives and turns them into points or lines, or
    /// removes them when `remove` is set.
    pub fn find_degenerates(&mut self, args: FindDegenerates)
        ensures
            final(self)@ == (if args.enable {
                old(self)@.flag(AIPROCESS_FIND_DEGENERATES, true).set(
                    bool_setting(PP_FD_REMOVE@, args.remove),
                )
            } else {
                old(self)@.flag(AIPROCESS_FIND_DEGENERATES, false)
            }),
    {
        self.set_import_flag(AIPROCESS_FIND_DEGENERATES, args.enable);
        if args.enable {
            self.set_bool_property(PP_FD_REMOVE, args.remove);
        }
    }

    /// Finds and removes or repairs invalid normals and UV coordinates.
    pub fn find_invalid_data(&mut self, args: FindInvalidData)
        ensures
            final(self)@ == (if args.enable {
                old(self)@.flag(AIPROCESS_FIND_INVALID_DATA, true).set(
                    float_setting(PP_FID_ANIM_ACCURACY@, args.accuracy),
                )
            } else {
                old(self)@.flag(AIPROCESS_FIND_INVALID_DATA, false)
            }),
    {
        self.set_import_flag(AIPROCESS_FIND_INVALID_DATA, args.enable);
        if args.enable {
            self.set_float_property(PP_FID_ANIM_ACCURACY, args.accuracy);
        }
    }

    /// Converts mappings that are not UV mappings to proper texture
    /// coordinate channels.
    pub fn gen_uv_coords(&mut self, enable: bool)
        ensures
            final(self)@ == old(self)@.flag(AIPROCESS_GEN_UV_COORDS, enable),
    {
        self.set_import_flag(AIPROCESS_GEN_UV_COORDS, enable);
    }

    /// Applies the UV transformations of each texture to its coordinates.
    pub fn transform_uv_coords(&mut self, args: TransformUVCoords)
        ensures
            final(self)@ == (if args.enable {
                old(self)@.flag(AIPROCESS_TRANSFORM_UV_COORDS, true).set(
                    int_setting(PP_TUV_EVALUATE@, uv_transform_mask(args.flags@) as i32),
                )
            } else {
                old(self)@.flag(AIPROCESS_TRANSFORM_UV_COORDS, false)
            }),
    {
        self.set_import_flag(AIPROCESS_TRANSFORM_UV_COORDS, args.enable);
        if args.enable {
            let flags: u32 = uv_transform_flags(&args.flags);
            self.set_int_property(PP_TUV_EVALUATE, flags as i32);
        }
    }

    /// Finds duplicate meshes and replaces them with references to the first.
    pub fn find_instances(&mut self, enable: bool)
        ensures
            final(self)@ == old(self)@.flag(AIPROCESS_FIND_INSTANCES, enable),
    {
        self.set_import_flag(AIPROCESS_FIND_INSTANCES, enable);
    }

    /// Joins small meshes to reduce the number of draw calls.
    pub fn optimize_meshes(&mut self, enable: bool)
        ensures
            final(self)@ == old(self)@.flag(AIPROCESS_OPTIMIZE_MESHES, enable),
    {
        self.set_import_flag(AIPROCESS_OPTIMIZE_MESHES, enable);
    }

    /// Joins nodes without animations, bones, lights or cameras. The list of
    /// nodes to keep must be short enough to be stored when the step is
    /// switched on.
    pub fn optimize_graph(&mut self, args: OptimizeGraph)
        requires
            args.enable ==> fits_in_string(args.exclude_list@),
        ensures
            final(self)@ == (if args.enable {
                old(self)@.flag(AIPROCESS_OPTIMIZE_GRAPH, true).set(
                    string_setting(PP_OG_EXCLUDE_LIST@, args.exclude_list@),
                )
            } else {
                old(self)@.flag(AIPROCESS_OPTIMIZE_GRAPH, false)
            }),
    {
        self.set_import_flag(AIPROCESS_OPTIMIZE_GRAPH, args.enable);
        if args.enable {
            self.set_string_property(PP_OG_EXCLUDE_LIST, args.exclude_list.as_str());
        }
    }

    /// Flips all UV coordinates along the y-axis.
    pub fn flip_uvs(&mut self, enable: bool)
        ensures
            final(self)@ == old(self)@.flag(AIPROCESS_FLIP_UVS, enable),
    {
        self.set_import_flag(AIPROCESS_FLIP_UVS, enable);
    }

    /// Changes the winding order of faces from counter-clockwise to
    /// clockwise.
    pub fn flip_winding_order(&mut self, enable: bool)
        ensures
            final(self)@ == old(self)@.flag(AIPROCESS_FLIP_WINDING_ORDER, enable),
    {
        self.set_import_flag(AIPROCESS_FLIP_WINDING_ORDER, enable);
    }

    /// Splits meshes with many bones into meshes with at most `max_bones`
    /// bones each.
    pub fn split_by_bone_count(&mut self, args: SplitByBoneCount)
        ensures
            final(self)@ == (if args.enable {
                old(self)@.flag(AIPROCESS_SPLIT_BY_BONE_COUNT, true).set(
                    int_setting(PP_SBBC_MAX_BONES@, args.max_bones),
                )
            } else {
                old(self)@.flag(AIPROCESS_SPLIT_BY_BONE_COUNT, false)
            }),
    {
        self.set_import_flag(AIPROCESS_SPLIT_BY_BONE_COUNT, args.enable);
        if args.enable {
            self.set_int_property(PP_SBBC_MAX_BONES, args.max_bones);
        }
    }

    /// Removes bones losslessly, or according to a threshold.
    pub fn debone(&mut self, args: Debone)
        ensures
            final(self)@ == (if args.enable {
                old(self)@.flag(AIPROCESS_DEBONE, true).set(
                    float_setting(PP_DB_THRESHOLD@, args.threshold),
                ).set(
                    bool_setting(PP_DB_ALL_OR_NONE@, args.all_or_none),
                )
            } else {
                old(self)@.flag(AIPROCESS_DEBONE, false)
            }),
    {
        self.set_import_flag(AIPROCESS_DEBONE, args.enable);
        if args.enable {
            self.set_float_property(PP_DB_THRESHOLD, args.threshold);
            self.set_bool_property(PP_DB_ALL_OR_NONE, args.all_or_none);
        }
    }

    /// Asks that no dummy skeleton mesh be made for files with animations
    /// and no geometry.
    pub fn import_no_skeleton_meshes(&mut self, enable: bool)
        ensures
            final(self)@ == old(self)@.set(bool_setting(IMPORT_NO_SKELETON_MESHES@, enable)),
    {
        self.set_bool_property(IMPORT_NO_SKELETON_MESHES, enable);
    }

    /// Sets the colour map to use for textures of MDL files that have none.
    pub fn import_mdl_colormap(&mut self, path: &str)
        requires
            fits_in_string(path@),
        ensures
            final(self)@ == old(self)@.set(string_setting(IMPORT_MDL_COLORMAP@, path@)),
    {
        self.set_string_property(IMPORT_MDL_COLORMAP, path);
    }

    /// Whether the FBX importer merges all geometry layers or reads only
    /// the first.
    pub fn fbx_read_all_geometry_layers(&mut self, enable: bool)
        ensures
            final(self)@ == old(self)@.set(bool_setting(IMPORT_FBX_READ_ALL_GEOMETRY_LAYERS@, enable)),
    {
        self.set_bool_property(IMPORT_FBX_READ_ALL_GEOMETRY_LAYERS, enable);
    }

    /// Whether the FBX importer reads all materials, or only those that a
    /// mesh references.
    pub fn fbx_read_all_materials(&mut self, enable: bool)
        ensures
            final(self)@ == old(self)@.set(bool_setting(IMPORT_FBX_READ_ALL_MATERIALS@, enable)),
    {
        self.set_bool_property(IMPORT_FBX_READ_ALL_MATERIALS, enable);
    }

    /// Whether the FBX importer reads materials.
    pub fn fbx_read_materials(&mut self, enable: bool)
        ensures
            final(self)@ == old(self)@.set(bool_setting(IMPORT_FBX_READ_MATERIALS@, enable)),
    {
        self.set_bool_property(IMPORT_FBX_READ_MATERIALS, enable);
    }

    /// Whether the FBX importer reads cameras.
    pub fn fbx_read_cameras(&mut self, enable: bool)
        ensures
            final(self)@ == old(self)@.set(bool_setting(IMPORT_FBX_READ_CAMERAS@, enable)),
    {
        self.set_bool_property(IMPORT_FBX_READ_CAMERAS, enable);
    }

    /// Whether the FBX importer reads light sources.
    pub fn fbx_read_lights(&mut self, enable: bool)
        ensures
            final(self)@ == old(self)@.set(bool_setting(IMPORT_FBX_READ_LIGHTS@, enable)),
    {
        self.set_bool_property(IMPORT_FBX_READ_LIGHTS, enable);
    }

    /// Whether the FBX importer reads animations.
    pub fn fbx_read_animations(&mut self, enable: bool)
        ensures
            final(self)@ == old(self)@.set(bool_setting(IMPORT_FBX_READ_ANIMATIONS@, enable)),
    {
        self.set_bool_property(IMPORT_FBX_READ_ANIMATIONS, enable);
    }

    /// Whether the FBX importer accepts only the file versions it knows.
    pub fn fbx_strict_mode(&mut self, enable: bool)
        ensures
            final(self)@ == old(self)@.set(bool_setting(IMPORT_FBX_STRICT_MODE@, enable)),
    {
        self.set_bool_property(IMPORT_FBX_STRICT_MODE, enable);
    }

    /// Whether the FBX importer keeps pivot points as helper nodes.
    pub fn fbx_preserve_pivots(&mut self, enable: bool)
        ensures
            final(self)@ == old(self)@.set(bool_setting(IMPORT_FBX_PRESERVE_PIVOTS@, enable)),
    {
        self.set_bool_property(IMPORT_FBX_PRESERVE_PIVOTS, enable);
    }

    /// Whether the FBX importer drops animation curves that are empty or
    /// constant.
    pub fn fbx_optimize_empty_animation_curves(&mut self, enable: bool)
        ensures
            final(self)@ == old(self)@.set(bool_setting(IMPORT_FBX_OPTIMIZE_EMPTY_ANIMATION_CURVES@, enable)),
    {
        self.set_bool_property(IMPORT_FBX_OPTIMIZE_EMPTY_ANIMATION_CURVES, enable);
    }

    /// Sets the keyframe to import from formats that store vertex
    /// animations, for every such format.
    pub fn global_keyframe(&mut self, value: i32)
        ensures
            final(self)@ == old(self)@.set(int_setting(IMPORT_GLOBAL_KEYFRAME@, value)),
    {
        self.set_int_property(IMPORT_GLOBAL_KEYFRAME, value);
    }

    /// Sets the keyframe to import from MD3 files.
    pub fn md3_keyframe(&mut self, value: i32)
        ensures
            final(self)@ == old(self)@.set(int_setting(IMPORT_MD3_KEYFRAME@, value)),
    {
        self.set_int_property(IMPORT_MD3_KEYFRAME, value);
    }

    /// Sets the keyframe to import from MD2 files.
    pub fn md2_keyframe(&mut self, value: i32)
        ensures
            final(self)@ == old(self)@.set(int_setting(IMPORT_MD2_KEYFRAME@, value)),
    {
        self.set_int_property(IMPORT_MD2_KEYFRAME, value);
    }

    /// Sets the keyframe to import from MDL files.
    pub fn mdl_keyframe(&mut self, value: i32)
        ensures
            final(self)@ == old(self)@.set(int_setting(IMPORT_MDL_KEYFRAME@, value)),
    {
        self.set_int_property(IMPORT_MDL_KEYFRAME, value);
    }

    /// Sets the keyframe to import from MDC files.
    pub fn mdc_keyframe(&mut self, value: i32)
        ensures
            final(self)@ == old(self)@.set(int_setting(IMPORT_MDC_KEYFRAME@, value)),
    {
        self.set_int_property(IMPORT_MDC_KEYFRAME, value);
    }

    /// Sets the keyframe to import from SMD files.
    pub fn smd_keyframe(&mut self, value: i32)
        ensures
            final(self)@ == old(self)@.set(int_setting(IMPORT_SMD_KEYFRAME@, value)),
    {
        self.set_int_property(IMPORT_SMD_KEYFRAME, value);
    }

    /// Sets the keyframe to import from Unreal files.
    pub fn unreal_keyframe(&mut self, value: i32)
        ensures
            final(self)@ == old(self)@.set(int_setting(IMPORT_UNREAL_KEYFRAME@, value)),
    {
        self.set_int_property(IMPORT_UNREAL_KEYFRAME, value);
    }

    /// Whether the AC importer collects surfaces with the back-face-cull flag
    /// in separate meshes.
    pub fn ac_separate_bf_cull(&mut self, enable: bool)
        ensures
            final(self)@ == old(self)@.set(bool_setting(IMPORT_AC_SEPARATE_BFCULL@, enable)),
    {
        self.set_bool_property(IMPORT_AC_SEPARATE_BFCULL, enable);
    }

    /// Whether the AC importer evaluates subdivision surfaces.
    pub fn ac_eval_subdivision(&mut self, enable: bool)
        ensures
            final(self)@ == old(self)@.set(bool_setting(IMPORT_AC_EVAL_SUBDIVISION@, enable)),
    {
        self.set_bool_property(IMPORT_AC_EVAL_SUBDIVISION, enable);
    }

    /// Whether the Unreal importer separates faces by their surface flags.
    pub fn unreal_handle_flags(&mut self, enable: bool)
        ensures
            final(self)@ == old(self)@.set(bool_setting(UNREAL_HANDLE_FLAGS@, enable)),
    {
        self.set_bool_property(UNREAL_HANDLE_FLAGS, enable);
    }

    /// Whether the terragen importer computes UV coordinates for terrains.
    pub fn ter_make_uvs(&mut self, enable: bool)
        ensures
            final(self)@ == old(self)@.set(bool_setting(IMPORT_TER_MAKE_UVS@, enable)),
    {
        self.set_bool_property(IMPORT_TER_MAKE_UVS, enable);
    }

    /// Whether the ASE importer always recomputes normals.
    pub fn ase_reconstruct_normals(&mut self, enable: bool)
        ensures
            final(self)@ == old(self)@.set(bool_setting(IMPORT_ASE_RECONSTRUCT_NORMALS@, enable)),
    {
        self.set_bool_property(IMPORT_ASE_RECONSTRUCT_NORMALS, enable);
    }

    /// Whether the MD3 importer loads multi-part player models as one
    /// scene.
    pub fn md3_handle_multipart(&mut self, enable: bool)
        ensures
            final(self)@ == old(self)@.set(bool_setting(IMPORT_MD3_HANDLE_MULTIPART@, enable)),
    {
        self.set_bool_property(IMPORT_MD3_HANDLE_MULTIPART, enable);
    }

    /// Sets the skin that the MD3 importer resolves textures with.
    pub fn md3_skin_name(&mut self, name: &str)
        requires
            fits_in_string(name@),
        ensures
            final(self)@ == old(self)@.set(string_setting(IMPORT_MD3_SKIN_NAME@, name@)),
    {
        self.set_string_property(IMPORT_MD3_SKIN_NAME, name);
    }

    /// Sets where the MD3 importer looks for shader files.
    pub fn md3_shader_src(&mut self, path: &str)
        requires
            fits_in_string(path@),
        ensures
            final(self)@ == old(self)@.set(string_setting(IMPORT_MD3_SHADER_SRC@, path@)),
    {
        self.set_string_property(IMPORT_MD3_SHADER_SRC, path);
    }

    /// Makes the LWO importer load the one layer with this name.
    pub fn lwo_one_layer_only_str(&mut self, name: &str)
        requires
            fits_in_string(name@),
        ensures
            final(self)@ == old(self)@.set(string_setting(IMPORT_LWO_ONE_LAYER_ONLY@, name@)),
    {
        self.set_string_property(IMPORT_LWO_ONE_LAYER_ONLY, name);
    }

    /// Makes the LWO importer load the one layer with this index.
    pub fn lwo_one_layer_only_int(&mut self, index: i32)
        ensures
            final(self)@ == old(self)@.set(int_setting(IMPORT_LWO_ONE_LAYER_ONLY@, index)),
    {
        self.set_int_property(IMPORT_LWO_ONE_LAYER_ONLY, index);
    }

    /// Whether the MD5 importer refrains from loading the animation file
    /// that goes with a mesh file.
    pub fn md5_no_anim_autoload(&mut self, enable: bool)
        ensures
            final(self)@ == old(self)@.set(bool_setting(IMPORT_MD5_NO_ANIM_AUTOLOAD@, enable)),
    {
        self.set_bool_property(IMPORT_MD5_NO_ANIM_AUTOLOAD, enable);
    }

    /// Sets the first frame of the range in which the LWS importer evaluates
    /// animations.
    pub fn lws_anim_start(&mut self, frame: i32)
        ensures
            final(self)@ == old(self)@.set(int_setting(IMPORT_LWS_ANIM_START@, frame)),
    {
        self.set_int_property(IMPORT_LWS_ANIM_START, frame);
    }

    /// Sets the last frame of the range in which the LWS importer evaluates
    /// animations.
    pub fn lws_anim_end(&mut self, frame: i32)
        ensures
            final(self)@ == old(self)@.set(int_setting(IMPORT_LWS_ANIM_END@, frame)),
    {
        self.set_int_property(IMPORT_LWS_ANIM_END, frame);
    }

    /// Sets the output frame rate of the IRR importer.
    pub fn irr_anim_fps(&mut self, fps: i32)
        ensures
            final(self)@ == old(self)@.set(int_setting(IMPORT_IRR_ANIM_FPS@, fps)),
    {
        self.set_int_property(IMPORT_IRR_ANIM_FPS, fps);
    }

    /// Sets the material file that the Ogre importer falls back to.
    pub fn ogre_material_file(&mut self, file: &str)
        requires
            fits_in_string(file@),
        ensures
            final(self)@ == old(self)@.set(string_setting(IMPORT_OGRE_MATERIAL_FILE@, file@)),
    {
        self.set_string_property(IMPORT_OGRE_MATERIAL_FILE, file);
    }

    /// Whether the Ogre importer detects the type of a texture from its file
    /// name.
    pub fn ogre_texture_type_from_filename(&mut self, enable: bool)
        ensures
            final(self)@ == old(self)@.set(bool_setting(IMPORT_OGRE_TEXTURETYPE_FROM_FILENAME@, enable)),
    {
        self.set_bool_property(IMPORT_OGRE_TEXTURETYPE_FROM_FILENAME, enable);
    }

    /// Whether the IFC importer skips space representations.
    pub fn ifc_skip_space_representations(&mut self, enable: bool)
        ensures
            final(self)@ == old(self)@.set(bool_setting(IMPORT_IFC_SKIP_SPACE_REPRESENTATIONS@, enable)),
    {
        self.set_bool_property(IMPORT_IFC_SKIP_SPACE_REPRESENTATIONS, enable);
    }

    /// Whether the IFC importer skips curve representations.
    pub fn ifc_skip_curve_representations(&mut self, enable: bool)
        ensures
            final(self)@ == old(self)@.set(bool_setting(IMPORT_IFC_SKIP_CURVE_REPRESENTATIONS@, enable)),
    {
        self.set_bool_property(IMPORT_IFC_SKIP_CURVE_REPRESENTATIONS, enable);
    }

    /// Whether the IFC importer uses its own triangulation for wall and floor
    /// meshes.
    pub fn ifc_custom_triangulation(&mut self, enable: bool)
        ensures
            final(self)@ == old(self)@.set(bool_setting(IMPORT_IFC_CUSTOM_TRIANGULATION@, enable)),
    {
        self.set_bool_property(IMPORT_IFC_CUSTOM_TRIANGULATION, enable);
    }

    /// Whether the Collada importer ignores the up direction given in the
    /// file.
    pub fn collada_ignore_up_direction(&mut self, enable: bool)
        ensures
            final(self)@ == old(self)@.set(bool_setting(IMPORT_COLLADA_IGNORE_UP_DIRECTION@, enable)),
    {
        self.set_bool_property(IMPORT_COLLADA_IGNORE_UP_DIRECTION, enable);
    }
}

} // verus!
