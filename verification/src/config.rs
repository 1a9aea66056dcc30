//! Names of the import properties.
//!
//! Every property has a name, under which its value is stored, and a type.
//! The constants below are the names; the key enums list the properties of
//! each type and hand out names that carry that type.

use vstd::prelude::*;

verus! {

/// Name of a property that holds a boolean.
pub struct PropertyNameBool(pub &'static str);

/// Name of a property that holds a floating-point number.
pub struct PropertyNameFloat(pub &'static str);

/// Name of a property that holds an integer.
pub struct PropertyNameInteger(pub &'static str);

/// Name of a property that holds a string.
pub struct PropertyNameString(pub &'static str);

/// Name of a property that holds a 4x4 matrix.
pub struct PropertyNameMatrix(pub &'static str);

pub const GLOB_MEASURE_TIME: &'static str = "GLOB_MEASURE_TIME";

pub const IMPORT_NO_SKELETON_MESHES: &'static str = "IMPORT_NO_SKELETON_MESHES";

pub const GLOB_MULTITHREADING: &'static str = "GLOB_MULTITHREADING";

pub const PP_SBBC_MAX_BONES: &'static str = "PP_SBBC_MAX_BONES";

pub const PP_CT_MAX_SMOOTHING_ANGLE: &'static str = "PP_CT_MAX_SMOOTHING_ANGLE";

pub const PP_CT_TEXTURE_CHANNEL_INDEX: &'static str = "PP_CT_TEXTURE_CHANNEL_INDEX";

pub const PP_GSN_MAX_SMOOTHING_ANGLE: &'static str = "PP_GSN_MAX_SMOOTHING_ANGLE";

pub const IMPORT_MDL_COLORMAP: &'static str = "IMPORT_MDL_COLORMAP";

pub const PP_RRM_EXCLUDE_LIST: &'static str = "PP_RRM_EXCLUDE_LIST";

pub const PP_PTV_KEEP_HIERARCHY: &'static str = "PP_PTV_KEEP_HIERARCHY";

pub const PP_PTV_NORMALIZE: &'static str = "PP_PTV_NORMALIZE";

pub const PP_PTV_ADD_ROOT_TRANSFORMATION: &'static str = "PP_PTV_ADD_ROOT_TRANSFORMATION";

pub const PP_PTV_ROOT_TRANSFORMATION: &'static str = "PP_PTV_ROOT_TRANSFORMATION";

pub const PP_FD_REMOVE: &'static str = "PP_FD_REMOVE";

pub const PP_OG_EXCLUDE_LIST: &'static str = "PP_OG_EXCLUDE_LIST";

pub const PP_SLM_TRIANGLE_LIMIT: &'static str = "PP_SLM_TRIANGLE_LIMIT";

pub const PP_SLM_VERTEX_LIMIT: &'static str = "PP_SLM_VERTEX_LIMIT";

pub const PP_LBW_MAX_WEIGHTS: &'static str = "PP_LBW_MAX_WEIGHTS";

pub const PP_DB_THRESHOLD: &'static str = "PP_DB_THRESHOLD";

pub const PP_DB_ALL_OR_NONE: &'static str = "PP_DB_ALL_OR_NONE";

pub const PP_ICL_PTCACHE_SIZE: &'static str = "PP_ICL_PTCACHE_SIZE";

pub const PP_RVC_FLAGS: &'static str = "PP_RVC_FLAGS";

pub const PP_SBP_REMOVE: &'static str = "PP_SBP_REMOVE";

pub const PP_FID_ANIM_ACCURACY: &'static str = "PP_FID_ANIM_ACCURACY";

pub const PP_TUV_EVALUATE: &'static str = "PP_TUV_EVALUATE";

pub const FAVOUR_SPEED: &'static str = "FAVOUR_SPEED";

pub const IMPORT_FBX_READ_ALL_GEOMETRY_LAYERS: &'static str = "IMPORT_FBX_READ_ALL_GEOMETRY_LAYERS";

pub const IMPORT_FBX_READ_ALL_MATERIALS: &'static str = "IMPORT_FBX_READ_ALL_MATERIALS";

pub const IMPORT_FBX_READ_MATERIALS: &'static str = "IMPORT_FBX_READ_MATERIALS";

pub const IMPORT_FBX_READ_CAMERAS: &'static str = "IMPORT_FBX_READ_CAMERAS";

pub const IMPORT_FBX_READ_LIGHTS: &'static str = "IMPORT_FBX_READ_LIGHTS";

pub const IMPORT_FBX_READ_ANIMATIONS: &'static str = "IMPORT_FBX_READ_ANIMATIONS";

pub const IMPORT_FBX_STRICT_MODE: &'static str = "IMPORT_FBX_STRICT_MODE";

pub const IMPORT_FBX_PRESERVE_PIVOTS: &'static str = "IMPORT_FBX_PRESERVE_PIVOTS";

pub const IMPORT_FBX_OPTIMIZE_EMPTY_ANIMATION_CURVES: &'static str = "IMPORT_FBX_OPTIMIZE_EMPTY_ANIMATION_CURVES";

pub const IMPORT_GLOBAL_KEYFRAME: &'static str = "IMPORT_GLOBAL_KEYFRAME";

pub const IMPORT_MD3_KEYFRAME: &'static str = "IMPORT_MD3_KEYFRAME";

pub const IMPORT_MD2_KEYFRAME: &'static str = "IMPORT_MD2_KEYFRAME";

pub const IMPORT_MDL_KEYFRAME: &'static str = "IMPORT_MDL_KEYFRAME";

pub const IMPORT_MDC_KEYFRAME: &'static str = "IMPORT_MDC_KEYFRAME";

pub const IMPORT_SMD_KEYFRAME: &'static str = "IMPORT_SMD_KEYFRAME";

pub const IMPORT_UNREAL_KEYFRAME: &'static str = "IMPORT_UNREAL_KEYFRAME";

pub const IMPORT_AC_SEPARATE_BFCULL: &'static str = "IMPORT_AC_SEPARATE_BFCULL";

pub const IMPORT_AC_EVAL_SUBDIVISION: &'static str = "IMPORT_AC_EVAL_SUBDIVISION";

pub const UNREAL_HANDLE_FLAGS: &'static str = "UNREAL_HANDLE_FLAGS";

pub const IMPORT_TER_MAKE_UVS: &'static str = "IMPORT_TER_MAKE_UVS";

pub const IMPORT_ASE_RECONSTRUCT_NORMALS: &'static str = "IMPORT_ASE_RECONSTRUCT_NORMALS";

pub const IMPORT_MD3_HANDLE_MULTIPART: &'static str = "IMPORT_MD3_HANDLE_MULTIPART";

pub const IMPORT_MD3_SKIN_NAME: &'static str = "IMPORT_MD3_SKIN_NAME";

pub const IMPORT_MD3_SHADER_SRC: &'static str = "IMPORT_MD3_SHADER_SRC";

pub const IMPORT_LWO_ONE_LAYER_ONLY: &'static str = "IMPORT_LWO_ONE_LAYER_ONLY";

pub const IMPORT_MD5_NO_ANIM_AUTOLOAD: &'static str = "IMPORT_MD5_NO_ANIM_AUTOLOAD";

pub const IMPORT_LWS_ANIM_START: &'static str = "IMPORT_LWS_ANIM_START";

pub const IMPORT_LWS_ANIM_END: &'static str = "IMPORT_LWS_ANIM_END";

pub const IMPORT_IRR_ANIM_FPS: &'static str = "IMPORT_IRR_ANIM_FPS";

pub const IMPORT_OGRE_MATERIAL_FILE: &'static str = "IMPORT_OGRE_MATERIAL_FILE";

pub const IMPORT_OGRE_TEXTURETYPE_FROM_FILENAME: &'static str = "IMPORT_OGRE_TEXTURETYPE_FROM_FILENAME";

pub const IMPORT_IFC_SKIP_SPACE_REPRESENTATIONS: &'static str = "IMPORT_IFC_SKIP_SPACE_REPRESENTATIONS";

pub const IMPORT_IFC_SKIP_CURVE_REPRESENTATIONS: &'static str = "IMPORT_IFC_SKIP_CURVE_REPRESENTATIONS";

pub const IMPORT_IFC_CUSTOM_TRIANGULATION: &'static str = "IMPORT_IFC_CUSTOM_TRIANGULATION";

pub const IMPORT_COLLADA_IGNORE_UP_DIRECTION: &'static str = "IMPORT_COLLADA_IGNORE_UP_DIRECTION";

/// Default for the largest number of bones per mesh.
pub const AI_SBBC_DEFAULT_MAX_BONES: i32 = 60;

/// Default for the largest number of triangles per mesh.
pub const AI_SLM_DEFAULT_MAX_TRIANGLES: i32 = 1000000;

/// Default for the largest number of vertices per mesh.
pub const AI_SLM_DEFAULT_MAX_VERTICES: i32 = 1000000;

/// Default for the largest number of bones that affect one vertex.
pub const AI_LMW_MAX_WEIGHTS: i32 = 4;

/// Default size of the post-transform vertex cache.
pub const PP_ICL_DEFAULT_PTCACHE_SIZE: i32 = 12;

/// Bits of `1.0`, the default threshold below which a bone is removed.
pub const AI_DEBONE_THRESHOLD_BITS: u32 = 0x3F80_0000;

/// The properties that hold a boolean.
#[derive(Clone, Copy, Debug, PartialEq, Eq, Structural)]
pub enum BoolKey {
    GlobMeasureTime,
    ImportNoSkeletonMeshes,
    PpPtvKeepHierarchy,
    PpPtvNormalize,
    PpPtvAddRootTransformation,
    PpFdRemove,
    PpDbAllOrNone,
    FavourSpeed,
    ImportFbxReadAllGeometryLayers,
    ImportFbxReadAllMaterials,
    ImportFbxReadMaterials,
    ImportFbxReadCameras,
    ImportFbxReadLights,
    ImportFbxReadAnimations,
    ImportFbxStrictMode,
    ImportFbxPreservePivots,
    ImportFbxOptimizeEmptyAnimationCurves,
    ImportAcSeparateBfcull,
    ImportAcEvalSubdivision,
    UnrealHandleFlags,
    ImportTerMakeUvs,
    ImportAseReconstructNormals,
    ImportMd3HandleMultipart,
    ImportMd5NoAnimAutoload,
    ImportOgreTexturetypeFromFilename,
    ImportIfcSkipSpaceRepresentations,
    ImportIfcSkipCurveRepresentations,
    ImportIfcCustomTriangulation,
    ImportColladaIgnoreUpDirection,
}

impl BoolKey {
    /// The name under which the property is stored.
    pub open spec fn key(self) -> Seq<char> {
        match self {
            BoolKey::GlobMeasureTime => GLOB_MEASURE_TIME@,
            BoolKey::ImportNoSkeletonMeshes => IMPORT_NO_SKELETON_MESHES@,
            BoolKey::PpPtvKeepHierarchy => PP_PTV_KEEP_HIERARCHY@,
            BoolKey::PpPtvNormalize => PP_PTV_NORMALIZE@,
            BoolKey::PpPtvAddRootTransformation => PP_PTV_ADD_ROOT_TRANSFORMATION@,
            BoolKey::PpFdRemove => PP_FD_REMOVE@,
            BoolKey::PpDbAllOrNone => PP_DB_ALL_OR_NONE@,
            BoolKey::FavourSpeed => FAVOUR_SPEED@,
            BoolKey::ImportFbxReadAllGeometryLayers => IMPORT_FBX_READ_ALL_GEOMETRY_LAYERS@,
            BoolKey::ImportFbxReadAllMaterials => IMPORT_FBX_READ_ALL_MATERIALS@,
            BoolKey::ImportFbxReadMaterials => IMPORT_FBX_READ_MATERIALS@,
            BoolKey::ImportFbxReadCameras => IMPORT_FBX_READ_CAMERAS@,
            BoolKey::ImportFbxReadLights => IMPORT_FBX_READ_LIGHTS@,
            BoolKey::ImportFbxReadAnimations => IMPORT_FBX_READ_ANIMATIONS@,
            BoolKey::ImportFbxStrictMode => IMPORT_FBX_STRICT_MODE@,
            BoolKey::ImportFbxPreservePivots => IMPORT_FBX_PRESERVE_PIVOTS@,
            BoolKey::ImportFbxOptimizeEmptyAnimationCurves => IMPORT_FBX_OPTIMIZE_EMPTY_ANIMATION_CURVES@,
            BoolKey::ImportAcSeparateBfcull => IMPORT_AC_SEPARATE_BFCULL@,
            BoolKey::ImportAcEvalSubdivision => IMPORT_AC_EVAL_SUBDIVISION@,
            BoolKey::UnrealHandleFlags => UNREAL_HANDLE_FLAGS@,
            BoolKey::ImportTerMakeUvs => IMPORT_TER_MAKE_UVS@,
            BoolKey::ImportAseReconstructNormals => IMPORT_ASE_RECONSTRUCT_NORMALS@,
            BoolKey::ImportMd3HandleMultipart => IMPORT_MD3_HANDLE_MULTIPART@,
            BoolKey::ImportMd5NoAnimAutoload => IMPORT_MD5_NO_ANIM_AUTOLOAD@,
            BoolKey::ImportOgreTexturetypeFromFilename => IMPORT_OGRE_TEXTURETYPE_FROM_FILENAME@,
            BoolKey::ImportIfcSkipSpaceRepresentations => IMPORT_IFC_SKIP_SPACE_REPRESENTATIONS@,
            BoolKey::ImportIfcSkipCurveRepresentations => IMPORT_IFC_SKIP_CURVE_REPRESENTATIONS@,
            BoolKey::ImportIfcCustomTriangulation => IMPORT_IFC_CUSTOM_TRIANGULATION@,
            BoolKey::ImportColladaIgnoreUpDirection => IMPORT_COLLADA_IGNORE_UP_DIRECTION@,
        }
    }

    /// The typed name of the property.
    pub fn name(self) -> (r: PropertyNameBool)
        ensures
            r.0@ == self.key(),
    {
        let name: &'static str = match self {
            BoolKey::GlobMeasureTime => GLOB_MEASURE_TIME,
            BoolKey::ImportNoSkeletonMeshes => IMPORT_NO_SKELETON_MESHES,
            BoolKey::PpPtvKeepHierarchy => PP_PTV_KEEP_HIERARCHY,
            BoolKey::PpPtvNormalize => PP_PTV_NORMALIZE,
            BoolKey::PpPtvAddRootTransformation => PP_PTV_ADD_ROOT_TRANSFORMATION,
            BoolKey::PpFdRemove => PP_FD_REMOVE,
            BoolKey::PpDbAllOrNone => PP_DB_ALL_OR_NONE,
            BoolKey::FavourSpeed => FAVOUR_SPEED,
            BoolKey::ImportFbxReadAllGeometryLayers => IMPORT_FBX_READ_ALL_GEOMETRY_LAYERS,
            BoolKey::ImportFbxReadAllMaterials => IMPORT_FBX_READ_ALL_MATERIALS,
            BoolKey::ImportFbxReadMaterials => IMPORT_FBX_READ_MATERIALS,
            BoolKey::ImportFbxReadCameras => IMPORT_FBX_READ_CAMERAS,
            BoolKey::ImportFbxReadLights => IMPORT_FBX_READ_LIGHTS,
            BoolKey::ImportFbxReadAnimations => IMPORT_FBX_READ_ANIMATIONS,
            BoolKey::ImportFbxStrictMode => IMPORT_FBX_STRICT_MODE,
            BoolKey::ImportFbxPreservePivots => IMPORT_FBX_PRESERVE_PIVOTS,
            BoolKey::ImportFbxOptimizeEmptyAnimationCurves => IMPORT_FBX_OPTIMIZE_EMPTY_ANIMATION_CURVES,
            BoolKey::ImportAcSeparateBfcull => IMPORT_AC_SEPARATE_BFCULL,
            BoolKey::ImportAcEvalSubdivision => IMPORT_AC_EVAL_SUBDIVISION,
            BoolKey::UnrealHandleFlags => UNREAL_HANDLE_FLAGS,
            BoolKey::ImportTerMakeUvs => IMPORT_TER_MAKE_UVS,
            BoolKey::ImportAseReconstructNormals => IMPORT_ASE_RECONSTRUCT_NORMALS,
            BoolKey::ImportMd3HandleMultipart => IMPORT_MD3_HANDLE_MULTIPART,
            BoolKey::ImportMd5NoAnimAutoload => IMPORT_MD5_NO_ANIM_AUTOLOAD,
            BoolKey::ImportOgreTexturetypeFromFilename => IMPORT_OGRE_TEXTURETYPE_FROM_FILENAME,
            BoolKey::ImportIfcSkipSpaceRepresentations => IMPORT_IFC_SKIP_SPACE_REPRESENTATIONS,
            BoolKey::ImportIfcSkipCurveRepresentations => IMPORT_IFC_SKIP_CURVE_REPRESENTATIONS,
            BoolKey::ImportIfcCustomTriangulation => IMPORT_IFC_CUSTOM_TRIANGULATION,
            BoolKey::ImportColladaIgnoreUpDirection => IMPORT_COLLADA_IGNORE_UP_DIRECTION,
        };
        PropertyNameBool(name)
    }
}

/// The properties that hold an integer.
#[derive(Clone, Copy, Debug, PartialEq, Eq, Structural)]
pub enum IntegerKey {
    GlobMultithreading,
    PpSbbcMaxBones,
    PpCtTextureChannelIndex,
    PpSlmTriangleLimit,
    PpSlmVertexLimit,
    PpLbwMaxWeights,
    PpIclPtcacheSize,
    PpRvcFlags,
    PpSbpRemove,
    PpTuvEvaluate,
    ImportGlobalKeyframe,
    ImportMd3Keyframe,
    ImportMd2Keyframe,
    ImportMdlKeyframe,
    ImportMdcKeyframe,
    ImportSmdKeyframe,
    ImportUnrealKeyframe,
    ImportLwoOneLayerOnly,
    ImportLwsAnimStart,
    ImportLwsAnimEnd,
    ImportIrrAnimFps,
}

impl IntegerKey {
    /// The name under which the property is stored.
    pub open spec fn key(self) -> Seq<char> {
        match self {
            IntegerKey::GlobMultithreading => GLOB_MULTITHREADING@,
            IntegerKey::PpSbbcMaxBones => PP_SBBC_MAX_BONES@,
            IntegerKey::PpCtTextureChannelIndex => PP_CT_TEXTURE_CHANNEL_INDEX@,
            IntegerKey::PpSlmTriangleLimit => PP_SLM_TRIANGLE_LIMIT@,
            IntegerKey::PpSlmVertexLimit => PP_SLM_VERTEX_LIMIT@,
            IntegerKey::PpLbwMaxWeights => PP_LBW_MAX_WEIGHTS@,
            IntegerKey::PpIclPtcacheSize => PP_ICL_PTCACHE_SIZE@,
            IntegerKey::PpRvcFlags => PP_RVC_FLAGS@,
            IntegerKey::PpSbpRemove => PP_SBP_REMOVE@,
            IntegerKey::PpTuvEvaluate => PP_TUV_EVALUATE@,
            IntegerKey::ImportGlobalKeyframe => IMPORT_GLOBAL_KEYFRAME@,
            IntegerKey::ImportMd3Keyframe => IMPORT_MD3_KEYFRAME@,
            IntegerKey::ImportMd2Keyframe => IMPORT_MD2_KEYFRAME@,
            IntegerKey::ImportMdlKeyframe => IMPORT_MDL_KEYFRAME@,
            IntegerKey::ImportMdcKeyframe => IMPORT_MDC_KEYFRAME@,
            IntegerKey::ImportSmdKeyframe => IMPORT_SMD_KEYFRAME@,
            IntegerKey::ImportUnrealKeyframe => IMPORT_UNREAL_KEYFRAME@,
            IntegerKey::ImportLwoOneLayerOnly => IMPORT_LWO_ONE_LAYER_ONLY@,
            IntegerKey::ImportLwsAnimStart => IMPORT_LWS_ANIM_START@,
            IntegerKey::ImportLwsAnimEnd => IMPORT_LWS_ANIM_END@,
            IntegerKey::ImportIrrAnimFps => IMPORT_IRR_ANIM_FPS@,
        }
    }

    /// The typed name of the property.
    pub fn name(self) -> (r: PropertyNameInteger)
        ensures
            r.0@ == self.key(),
    {
        let name: &'static str = match self {
            IntegerKey::GlobMultithreading => GLOB_MULTITHREADING,
            IntegerKey::PpSbbcMaxBones => PP_SBBC_MAX_BONES,
            IntegerKey::PpCtTextureChannelIndex => PP_CT_TEXTURE_CHANNEL_INDEX,
            IntegerKey::PpSlmTriangleLimit => PP_SLM_TRIANGLE_LIMIT,
            IntegerKey::PpSlmVertexLimit => PP_SLM_VERTEX_LIMIT,
            IntegerKey::PpLbwMaxWeights => PP_LBW_MAX_WEIGHTS,
            IntegerKey::PpIclPtcacheSize => PP_ICL_PTCACHE_SIZE,
            IntegerKey::PpRvcFlags => PP_RVC_FLAGS,
            IntegerKey::PpSbpRemove => PP_SBP_REMOVE,
            IntegerKey::PpTuvEvaluate => PP_TUV_EVALUATE,
            IntegerKey::ImportGlobalKeyframe => IMPORT_GLOBAL_KEYFRAME,
            IntegerKey::ImportMd3Keyframe => IMPORT_MD3_KEYFRAME,
            IntegerKey::ImportMd2Keyframe => IMPORT_MD2_KEYFRAME,
            IntegerKey::ImportMdlKeyframe => IMPORT_MDL_KEYFRAME,
            IntegerKey::ImportMdcKeyframe => IMPORT_MDC_KEYFRAME,
            IntegerKey::ImportSmdKeyframe => IMPORT_SMD_KEYFRAME,
            IntegerKey::ImportUnrealKeyframe => IMPORT_UNREAL_KEYFRAME,
            IntegerKey::ImportLwoOneLayerOnly => IMPORT_LWO_ONE_LAYER_ONLY,
            IntegerKey::ImportLwsAnimStart => IMPORT_LWS_ANIM_START,
            IntegerKey::ImportLwsAnimEnd => IMPORT_LWS_ANIM_END,
            IntegerKey::ImportIrrAnimFps => IMPORT_IRR_ANIM_FPS,
        };
        PropertyNameInteger(name)
    }
}

/// The properties that hold a floating-point number.
#[derive(Clone, Copy, Debug, PartialEq, Eq, Structural)]
pub enum FloatKey {
    PpCtMaxSmoothingAngle,
    PpGsnMaxSmoothingAngle,
    PpDbThreshold,
    PpFidAnimAccuracy,
}

impl FloatKey {
    /// The name under which the property is stored.
    pub open spec fn key(self) -> Seq<char> {
        match self {
            FloatKey::PpCtMaxSmoothingAngle => PP_CT_MAX_SMOOTHING_ANGLE@,
            FloatKey::PpGsnMaxSmoothingAngle => PP_GSN_MAX_SMOOTHING_ANGLE@,
            FloatKey::PpDbThreshold => PP_DB_THRESHOLD@,
            FloatKey::PpFidAnimAccuracy => PP_FID_ANIM_ACCURACY@,
        }
    }

    /// The typed name of the property.
    pub fn name(self) -> (r: PropertyNameFloat)
        ensures
            r.0@ == self.key(),
    {
        let name: &'static str = match self {
            FloatKey::PpCtMaxSmoothingAngle => PP_CT_MAX_SMOOTHING_ANGLE,
            FloatKey::PpGsnMaxSmoothingAngle => PP_GSN_MAX_SMOOTHING_ANGLE,
            FloatKey::PpDbThreshold => PP_DB_THRESHOLD,
            FloatKey::PpFidAnimAccuracy => PP_FID_ANIM_ACCURACY,
        };
        PropertyNameFloat(name)
    }
}

/// The properties that hold a string.
#[derive(Clone, Copy, Debug, PartialEq, Eq, Structural)]
pub enum StringKey {
    ImportMdlColormap,
    PpRrmExcludeList,
    PpOgExcludeList,
    ImportMd3SkinName,
    ImportMd3ShaderSrc,
    ImportOgreMaterialFile,
}

impl StringKey {
    /// The name under which the property is stored.
    pub open spec fn key(self) -> Seq<char> {
        match self {
            StringKey::ImportMdlColormap => IMPORT_MDL_COLORMAP@,
            StringKey::PpRrmExcludeList => PP_RRM_EXCLUDE_LIST@,
            StringKey::PpOgExcludeList => PP_OG_EXCLUDE_LIST@,
            StringKey::ImportMd3SkinName => IMPORT_MD3_SKIN_NAME@,
            StringKey::ImportMd3ShaderSrc => IMPORT_MD3_SHADER_SRC@,
            StringKey::ImportOgreMaterialFile => IMPORT_OGRE_MATERIAL_FILE@,
        }
    }

    /// The typed name of the property.
    pub fn name(self) -> (r: PropertyNameString)
        ensures
            r.0@ == self.key(),
    {
        let name: &'static str = match self {
            StringKey::ImportMdlColormap => IMPORT_MDL_COLORMAP,
            StringKey::PpRrmExcludeList => PP_RRM_EXCLUDE_LIST,
            StringKey::PpOgExcludeList => PP_OG_EXCLUDE_LIST,
            StringKey::ImportMd3SkinName => IMPORT_MD3_SKIN_NAME,
            StringKey::ImportMd3ShaderSrc => IMPORT_MD3_SHADER_SRC,
            StringKey::ImportOgreMaterialFile => IMPORT_OGRE_MATERIAL_FILE,
        };
        PropertyNameString(name)
    }
}

/// The properties that hold a 4x4 matrix.
#[derive(Clone, Copy, Debug, PartialEq, Eq, Structural)]
pub enum MatrixKey {
    PpPtvRootTransformation,
}

impl MatrixKey {
    /// The name under which the property is stored.
    pub open spec fn key(self) -> Seq<char> {
        match self {
            MatrixKey::PpPtvRootTransformation => PP_PTV_ROOT_TRANSFORMATION@,
        }
    }

    /// The typed name of the property.
    pub fn name(self) -> (r: PropertyNameMatrix)
        ensures
            r.0@ == self.key(),
    {
        let name: &'static str = match self {
            MatrixKey::PpPtvRootTransformation => PP_PTV_ROOT_TRANSFORMATION,
        };
        PropertyNameMatrix(name)
    }
}

} // verus!
