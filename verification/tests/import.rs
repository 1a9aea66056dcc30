use assimp::config::{
    BoolKey, FloatKey, IntegerKey, MatrixKey, PropertyNameString, StringKey,
};
use assimp::import::extensions::parse_extension_list;
use assimp::import::structs::{
    component_flags, primitive_flags, uv_transform_flags, CalcTangentSpace, ComponentType, Debone,
    FindDegenerates, FindInvalidData, GenerateNormals, ImproveCacheLocality, LimitBoneWeights,
    OptimizeGraph, PreTransformVertices, PrimitiveType, RemoveComponent,
    RemoveRedundantMaterials, SortByPrimitiveType, SplitByBoneCount, SplitLargeMeshes,
    TransformUVCoords, UVTransformFlag,
};
use assimp::import::{import_outcome, Importer, Property, PropertyValue, PropertyWrite};
use assimp::math::{Matrix4x4, Scalar};
use assimp::string::AiString;

fn bits_of(x: f32) -> Scalar {
    Scalar::from_bits(x.to_bits())
}

fn int_at(writes: &[PropertyWrite], i: usize) -> (&'static str, i32) {
    match writes[i].value {
        PropertyValue::Integer(v) => (writes[i].name, v),
        _ => panic!("write {} is no integer", i),
    }
}

fn float_at(writes: &[PropertyWrite], i: usize) -> (&'static str, f32) {
    match writes[i].value {
        PropertyValue::Float(v) => (writes[i].name, f32::from_bits(v.to_bits())),
        _ => panic!("write {} is no float", i),
    }
}

fn string_at(writes: &[PropertyWrite], i: usize) -> (&'static str, String) {
    match writes[i].value {
        PropertyValue::String(v) => (writes[i].name, v.as_str().to_owned()),
        _ => panic!("write {} is no string", i),
    }
}

fn matrix_at(writes: &[PropertyWrite], i: usize) -> (&'static str, Matrix4x4) {
    match writes[i].value {
        PropertyValue::Matrix(v) => (writes[i].name, v),
        _ => panic!("write {} is no matrix", i),
    }
}

#[test]
fn test_get_extension_list() {
    let extensions = parse_extension_list("*.3ds;*.obj;*.dae;*.blend");
    println!("{:?}", extensions);
    assert!(extensions.len() > 0);
    assert_eq!(extensions, vec!["3ds", "obj", "dae", "blend"]);
}

#[test]
fn extension_list_edge_cases() {
    assert_eq!(parse_extension_list(""), vec![""]);
    assert_eq!(parse_extension_list(";"), vec!["", ""]);
    assert_eq!(parse_extension_list("*.obj"), vec!["obj"]);
    assert_eq!(parse_extension_list("obj"), vec!["obj"]);
    assert_eq!(parse_extension_list("*.obj;"), vec!["obj", ""]);
    assert_eq!(parse_extension_list(";*.obj"), vec!["", "obj"]);
    assert_eq!(parse_extension_list("*.*.tar;*.a*.b"), vec!["tar", "a*.b"]);
    assert_eq!(parse_extension_list("*.;*;.;**."), vec!["", "*", ".", "**."]);
    assert_eq!(parse_extension_list("*.b\u{fc}ro;*.x"), vec!["b\u{fc}ro", "x"]);
}

#[test]
fn extension_list_agrees_with_split_and_trim() {
    for list in ["*.3ds;*.obj", "a;;b", "*.*.*.x;y;*.", "no separators", ";;;", "*.a;*b;.c"] {
        let expected: Vec<String> =
            list.split(';').map(|x| x.trim_start_matches("*.").to_owned()).collect();
        assert_eq!(parse_extension_list(list), expected);
    }
}

#[test]
fn test_import_from_file_success() {
    let scene = import_outcome(Some("examples/box.obj"), None);
    assert!(scene.is_ok());
    assert_eq!(scene, Ok("examples/box.obj"));
    // a scene wins over a stale error text
    assert_eq!(import_outcome(Some(7u8), Some(&b"old error"[..])), Ok(7u8));
}

#[test]
fn test_import_from_file_failure() {
    let reason = b"Unable to open file \"examples/non_existent_file.obj\".";
    let scene: Result<(), String> = import_outcome(None, Some(&reason[..]));
    assert!(scene.is_err());
    let message = scene.unwrap_err();
    assert!(!message.is_empty());
    assert_eq!(message, "Unable to open file \"examples/non_existent_file.obj\".");
}

#[test]
fn import_failure_without_readable_reason() {
    let none: Result<(), String> = import_outcome(None, None);
    assert_eq!(none, Err("Unknown error".to_owned()));
    let garbled: Result<(), String> = import_outcome(None, Some(&[0x80u8, 0x41][..]));
    assert_eq!(garbled, Err("Unknown error".to_owned()));
    let empty: Result<(), String> = import_outcome(None, Some(&b""[..]));
    assert_eq!(empty, Err(String::new()));
    let utf8: Result<(), String> = import_outcome(None, Some("fichier absent \u{e9}".as_bytes()));
    assert_eq!(utf8, Err("fichier absent \u{e9}".to_owned()));
}

#[test]
fn new_importer_is_empty() {
    let importer = Importer::new();
    assert_eq!(importer.flags(), 0);
    assert!(importer.writes().is_empty());
}

#[test]
fn flags_are_set_and_cleared() {
    let mut importer = Importer::new();
    importer.triangulate(true);
    assert_eq!(importer.flags(), 0x8);
    importer.join_identical_vertices(true);
    assert_eq!(importer.flags(), 0xA);
    importer.triangulate(true);
    assert_eq!(importer.flags(), 0xA);
    importer.triangulate(false);
    assert_eq!(importer.flags(), 0x2);
    importer.triangulate(false);
    assert_eq!(importer.flags(), 0x2);
    importer.join_identical_vertices(false);
    assert_eq!(importer.flags(), 0);
    assert!(importer.writes().is_empty());
}

#[test]
fn every_plain_step_has_its_bit() {
    let mut importer = Importer::new();
    importer.join_identical_vertices(true);
    assert_eq!(importer.flags(), 0x2);
    importer.make_left_handed(true);
    assert_eq!(importer.flags(), 0x2 | 0x4);
    importer.triangulate(true);
    assert_eq!(importer.flags(), 0xE);
    importer.validate_data_structure(true);
    assert_eq!(importer.flags(), 0x40E);
    importer.fix_infacing_normals(true);
    assert_eq!(importer.flags(), 0x240E);
    importer.gen_uv_coords(true);
    assert_eq!(importer.flags(), 0x4240E);
    importer.find_instances(true);
    assert_eq!(importer.flags(), 0x14240E);
    importer.optimize_meshes(true);
    assert_eq!(importer.flags(), 0x34240E);
    importer.flip_uvs(true);
    assert_eq!(importer.flags(), 0xB4240E);
    importer.flip_winding_order(true);
    assert_eq!(importer.flags(), 0x1B4240E);
    importer.make_left_handed(false);
    importer.validate_data_structure(false);
    importer.fix_infacing_normals(false);
    importer.gen_uv_coords(false);
    importer.find_instances(false);
    importer.optimize_meshes(false);
    importer.flip_uvs(false);
    importer.flip_winding_order(false);
    assert_eq!(importer.flags(), 0xA);
    assert!(importer.writes().is_empty());
}

#[test]
fn defaults_of_the_steps() {
    let a = CalcTangentSpace::default();
    assert!(!a.enable);
    assert_eq!(f32::from_bits(a.max_smoothing_angle.to_bits()), 45.0);
    assert_eq!(a.texture_channel, 0);
    let a = RemoveComponent::default();
    assert!(!a.enable && a.components.is_empty());
    let a = GenerateNormals::default();
    assert!(!a.enable && !a.smooth);
    assert_eq!(f32::from_bits(a.max_smoothing_angle.to_bits()), 175.0);
    let a = SplitLargeMeshes::default();
    assert!(!a.enable);
    assert_eq!((a.vertex_limit, a.triangle_limit), (1000000, 1000000));
    let a = PreTransformVertices::default();
    assert!(!a.enable && !a.keep_hierarchy && !a.normalize && !a.add_root_transformation);
    assert_eq!(a.root_transformation, Matrix4x4::identity());
    let a = LimitBoneWeights::default();
    assert!(!a.enable);
    assert_eq!(a.max_weights, 4);
    let a = ImproveCacheLocality::default();
    assert!(!a.enable);
    assert_eq!(a.cache_size, 12);
    let a = RemoveRedundantMaterials::default();
    assert!(!a.enable);
    assert_eq!(a.exclude_list, "");
    let a = SortByPrimitiveType::default();
    assert!(!a.enable && a.remove.is_empty());
    let a = FindDegenerates::default();
    assert!(!a.enable && !a.remove);
    let a = FindInvalidData::default();
    assert!(!a.enable);
    assert_eq!(f32::from_bits(a.accuracy.to_bits()), 0.0);
    let a = TransformUVCoords::default();
    assert!(!a.enable);
    assert_eq!(a.flags, vec![UVTransformFlag::All]);
    let a = OptimizeGraph::default();
    assert!(!a.enable);
    assert_eq!(a.exclude_list, "");
    let a = SplitByBoneCount::default();
    assert!(!a.enable);
    assert_eq!(a.max_bones, 60);
    let a = Debone::default();
    assert!(!a.enable && !a.all_or_none);
    assert_eq!(f32::from_bits(a.threshold.to_bits()), 1.0);
}

#[test]
fn calc_tangent_space_records_its_parameters() {
    let mut importer = Importer::new();
    let mut args = CalcTangentSpace::default();
    args.enable = true;
    args.max_smoothing_angle = bits_of(30.0);
    args.texture_channel = 2;
    importer.calc_tangent_space(args);
    assert_eq!(importer.flags(), 0x1);
    let writes = importer.writes();
    assert_eq!(writes.len(), 2);
    assert_eq!(float_at(writes, 0), ("PP_CT_MAX_SMOOTHING_ANGLE", 30.0));
    assert_eq!(int_at(writes, 1), ("PP_CT_TEXTURE_CHANNEL_INDEX", 2));
}

#[test]
fn disabling_a_step_clears_the_bit_only() {
    let mut importer = Importer::new();
    let mut on = LimitBoneWeights::default();
    on.enable = true;
    on.max_weights = 8;
    importer.limit_bone_weights(on);
    assert_eq!(importer.flags(), 0x200);
    assert_eq!(importer.writes().len(), 1);
    assert_eq!(int_at(importer.writes(), 0), ("PP_LBW_MAX_WEIGHTS", 8));

    let mut off = LimitBoneWeights::default();
    off.max_weights = 2;
    importer.limit_bone_weights(off);
    assert_eq!(importer.flags(), 0);
    assert_eq!(importer.writes().len(), 1);
    assert_eq!(int_at(importer.writes(), 0), ("PP_LBW_MAX_WEIGHTS", 8));
}

#[test]
fn later_settings_follow_earlier_ones() {
    let mut importer = Importer::new();
    importer.md3_keyframe(3);
    importer.md3_keyframe(5);
    let writes = importer.writes();
    assert_eq!(writes.len(), 2);
    assert_eq!(int_at(writes, 0), ("IMPORT_MD3_KEYFRAME", 3));
    assert_eq!(int_at(writes, 1), ("IMPORT_MD3_KEYFRAME", 5));
}

#[test]
fn remove_component_folds_the_components() {
    let mut importer = Importer::new();
    let mut args = RemoveComponent::default();
    args.enable = true;
    args.components = vec![ComponentType::Normals, ComponentType::Cameras, ComponentType::Normals];
    importer.remove_component(args);
    assert_eq!(importer.flags(), 0x10);
    assert_eq!(int_at(importer.writes(), 0), ("PP_RVC_FLAGS", 0x202));

    let mut none = RemoveComponent::default();
    none.enable = true;
    importer.remove_component(none);
    assert_eq!(int_at(importer.writes(), 1), ("PP_RVC_FLAGS", 0));
    assert_eq!(importer.writes().len(), 2);
}

#[test]
fn masks_of_lists() {
    assert_eq!(component_flags(&vec![]), 0);
    assert_eq!(
        component_flags(&vec![
            ComponentType::Normals, ComponentType::TangentsAndBitangents, ComponentType::Colors, ComponentType::TexCoords, ComponentType::BoneWeights, ComponentType::Animations, ComponentType::Textures,
            ComponentType::Lights, ComponentType::Cameras, ComponentType::Meshes, ComponentType::Materials
        ]),
        0xFFE
    );
    assert_eq!(ComponentType::Normals.bits(), 0x2);
    assert_eq!(ComponentType::TangentsAndBitangents.bits(), 0x4);
    assert_eq!(ComponentType::Colors.bits(), 0x8);
    assert_eq!(ComponentType::TexCoords.bits(), 0x10);
    assert_eq!(ComponentType::BoneWeights.bits(), 0x20);
    assert_eq!(ComponentType::Animations.bits(), 0x40);
    assert_eq!(ComponentType::Textures.bits(), 0x80);
    assert_eq!(ComponentType::Lights.bits(), 0x100);
    assert_eq!(ComponentType::Cameras.bits(), 0x200);
    assert_eq!(ComponentType::Meshes.bits(), 0x400);
    assert_eq!(ComponentType::Materials.bits(), 0x800);
    assert_eq!(primitive_flags(&vec![PrimitiveType::Line, PrimitiveType::Polygon]), 0xA);
    assert_eq!(primitive_flags(&vec![PrimitiveType::Point, PrimitiveType::Triangle]), 0x5);
    assert_eq!(uv_transform_flags(&vec![UVTransformFlag::Scaling]), 0x1);
    assert_eq!(uv_transform_flags(&vec![UVTransformFlag::Rotation]), 0x2);
    assert_eq!(uv_transform_flags(&vec![UVTransformFlag::Translation]), 0x4);
    assert_eq!(uv_transform_flags(&vec![UVTransformFlag::All]), 0x7);
    assert_eq!(
        uv_transform_flags(&vec![UVTransformFlag::Rotation, UVTransformFlag::Translation]),
        0x6
    );
}

#[test]
fn generate_normals_flat_and_smooth() {
    let mut importer = Importer::new();
    let mut flat = GenerateNormals::default();
    flat.enable = true;
    importer.generate_normals(flat);
    assert_eq!(importer.flags(), 0x20);
    assert!(importer.writes().is_empty());

    let mut smooth = GenerateNormals::default();
    smooth.enable = true;
    smooth.smooth = true;
    smooth.max_smoothing_angle = bits_of(80.0);
    importer.generate_normals(smooth);
    // the bit of the flat normals stays
    assert_eq!(importer.flags(), 0x60);
    assert_eq!(importer.writes().len(), 1);
    assert_eq!(float_at(importer.writes(), 0), ("PP_GSN_MAX_SMOOTHING_ANGLE", 80.0));

    importer.triangulate(true);
    importer.generate_normals(GenerateNormals::default());
    assert_eq!(importer.flags(), 0x8);
    assert_eq!(importer.writes().len(), 1);
}

#[test]
fn generate_normals_default_angle() {
    let mut importer = Importer::new();
    let mut smooth = GenerateNormals::default();
    smooth.enable = true;
    smooth.smooth = true;
    importer.generate_normals(smooth);
    assert_eq!(importer.flags(), 0x40);
    assert_eq!(float_at(importer.writes(), 0), ("PP_GSN_MAX_SMOOTHING_ANGLE", 175.0));
}

#[test]
fn split_large_meshes_records_triangles_then_vertices() {
    let mut importer = Importer::new();
    let mut args = SplitLargeMeshes::default();
    args.enable = true;
    args.vertex_limit = 1000;
    args.triangle_limit = 2000;
    importer.split_large_meshes(args);
    assert_eq!(importer.flags(), 0x80);
    assert_eq!(int_at(importer.writes(), 0), ("PP_SLM_TRIANGLE_LIMIT", 2000));
    assert_eq!(int_at(importer.writes(), 1), ("PP_SLM_VERTEX_LIMIT", 1000));
    assert_eq!(importer.writes().len(), 2);
}

#[test]
fn pre_transform_vertices_records_four_properties() {
    let mut importer = Importer::new();
    let mut args = PreTransformVertices::default();
    args.enable = true;
    args.normalize = true;
    let m = Matrix4x4::from_columns([[bits_of(2.0); 4]; 4]);
    args.root_transformation = m;
    importer.pre_transform_vertices(args);
    assert_eq!(importer.flags(), 0x100);
    let writes = importer.writes();
    assert_eq!(writes.len(), 4);
    assert_eq!(int_at(writes, 0), ("PP_PTV_KEEP_HIERARCHY", 0));
    assert_eq!(int_at(writes, 1), ("PP_PTV_NORMALIZE", 1));
    assert_eq!(int_at(writes, 2), ("PP_PTV_ADD_ROOT_TRANSFORMATION", 0));
    assert_eq!(matrix_at(writes, 3), ("PP_PTV_ROOT_TRANSFORMATION", m));
}

#[test]
fn steps_with_one_parameter() {
    let mut importer = Importer::new();
    let mut a = ImproveCacheLocality::default();
    a.enable = true;
    importer.improve_cache_locality(a);
    let mut a = RemoveRedundantMaterials::default();
    a.enable = true;
    a.exclude_list = "material1 'material 2' material3".to_owned();
    importer.remove_redudant_materials(a);
    let mut a = FindDegenerates::default();
    a.enable = true;
    a.remove = true;
    importer.find_degenerates(a);
    let mut a = FindInvalidData::default();
    a.enable = true;
    a.accuracy = bits_of(0.5);
    importer.find_invalid_data(a);
    let mut a = TransformUVCoords::default();
    a.enable = true;
    importer.transform_uv_coords(a);
    let mut a = OptimizeGraph::default();
    a.enable = true;
    a.exclude_list = "node1".to_owned();
    importer.optimize_graph(a);
    let mut a = SplitByBoneCount::default();
    a.enable = true;
    importer.split_by_bone_count(a);
    let mut a = Debone::default();
    a.enable = true;
    a.all_or_none = true;
    importer.debone(a);
    assert_eq!(
        importer.flags(),
        0x800 | 0x1000 | 0x10000 | 0x20000 | 0x80000 | 0x400000 | 0x2000000 | 0x4000000
    );
    let w = importer.writes();
    assert_eq!(w.len(), 9);
    assert_eq!(int_at(w, 0), ("PP_ICL_PTCACHE_SIZE", 12));
    assert_eq!(string_at(w, 1), ("PP_RRM_EXCLUDE_LIST", "material1 'material 2' material3".to_owned()));
    assert_eq!(int_at(w, 2), ("PP_FD_REMOVE", 1));
    assert_eq!(float_at(w, 3), ("PP_FID_ANIM_ACCURACY", 0.5));
    assert_eq!(int_at(w, 4), ("PP_TUV_EVALUATE", 7));
    assert_eq!(string_at(w, 5), ("PP_OG_EXCLUDE_LIST", "node1".to_owned()));
    assert_eq!(int_at(w, 6), ("PP_SBBC_MAX_BONES", 60));
    assert_eq!(float_at(w, 7), ("PP_DB_THRESHOLD", 1.0));
    assert_eq!(int_at(w, 8), ("PP_DB_ALL_OR_NONE", 1));
}

#[test]
fn sort_by_primitive_type_records_the_mask() {
    let mut importer = Importer::new();
    let mut args = SortByPrimitiveType::default();
    args.enable = true;
    args.remove = vec![PrimitiveType::Point, PrimitiveType::Line];
    importer.sort_by_primitive_type(args);
    assert_eq!(importer.flags(), 0x8000);
    assert_eq!(int_at(importer.writes(), 0), ("PP_SBP_REMOVE", 0x3));
}

#[test]
fn test_sort_by_primitive_type_rejected() {
    let mut importer = Importer::new();
    importer.triangulate(true);
    importer.md2_keyframe(1);
    let all = vec![PrimitiveType::Point, PrimitiveType::Line, PrimitiveType::Triangle, PrimitiveType::Polygon];
    let mut args = SortByPrimitiveType::default();
    args.enable = true;
    args.remove = all.clone();
    assert!(!importer.checked_sort_by_primitive_type(args));
    // nothing was recorded and no bit was touched
    assert_eq!(importer.flags(), 0x8);
    assert_eq!(importer.writes().len(), 1);

    // in any order, and with repetitions
    let mut args = SortByPrimitiveType::default();
    args.enable = true;
    args.remove = vec![PrimitiveType::Polygon, PrimitiveType::Point, PrimitiveType::Polygon, PrimitiveType::Triangle, PrimitiveType::Line];
    assert!(!importer.checked_sort_by_primitive_type(args));
    assert_eq!(importer.flags(), 0x8);
}

#[test]
fn checked_sort_by_primitive_type_accepts_the_rest() {
    let mut importer = Importer::new();
    let mut args = SortByPrimitiveType::default();
    args.enable = true;
    args.remove = vec![PrimitiveType::Point, PrimitiveType::Line, PrimitiveType::Triangle];
    assert!(importer.checked_sort_by_primitive_type(args));
    assert_eq!(importer.flags(), 0x8000);
    assert_eq!(int_at(importer.writes(), 0), ("PP_SBP_REMOVE", 0x7));

    // a step that is switched off removes nothing, whatever the list says
    let mut off = SortByPrimitiveType::default();
    off.remove = vec![PrimitiveType::Point, PrimitiveType::Line, PrimitiveType::Triangle, PrimitiveType::Polygon];
    assert!(importer.checked_sort_by_primitive_type(off));
    assert_eq!(importer.flags(), 0);
    assert_eq!(importer.writes().len(), 1);
}

#[test]
fn boolean_properties() {
    let mut importer = Importer::new();
    importer.measure_time(true);
    importer.favour_speed(false);
    importer.import_no_skeleton_meshes(true);
    importer.fbx_read_all_geometry_layers(true);
    importer.fbx_read_all_materials(false);
    importer.fbx_read_materials(true);
    importer.fbx_read_cameras(true);
    importer.fbx_read_lights(true);
    importer.fbx_read_animations(true);
    importer.fbx_strict_mode(false);
    importer.fbx_preserve_pivots(true);
    importer.fbx_optimize_empty_animation_curves(true);
    importer.ac_separate_bf_cull(true);
    importer.ac_eval_subdivision(true);
    importer.unreal_handle_flags(true);
    importer.ter_make_uvs(true);
    importer.ase_reconstruct_normals(true);
    importer.md3_handle_multipart(true);
    importer.md5_no_anim_autoload(false);
    importer.ogre_texture_type_from_filename(true);
    importer.ifc_skip_space_representations(true);
    importer.ifc_skip_curve_representations(true);
    importer.ifc_custom_triangulation(true);
    importer.collada_ignore_up_direction(true);
    assert_eq!(importer.flags(), 0);
    let expected = [
        ("GLOB_MEASURE_TIME", 1),
        ("FAVOUR_SPEED", 0),
        ("IMPORT_NO_SKELETON_MESHES", 1),
        ("IMPORT_FBX_READ_ALL_GEOMETRY_LAYERS", 1),
        ("IMPORT_FBX_READ_ALL_MATERIALS", 0),
        ("IMPORT_FBX_READ_MATERIALS", 1),
        ("IMPORT_FBX_READ_CAMERAS", 1),
        ("IMPORT_FBX_READ_LIGHTS", 1),
        ("IMPORT_FBX_READ_ANIMATIONS", 1),
        ("IMPORT_FBX_STRICT_MODE", 0),
        ("IMPORT_FBX_PRESERVE_PIVOTS", 1),
        ("IMPORT_FBX_OPTIMIZE_EMPTY_ANIMATION_CURVES", 1),
        ("IMPORT_AC_SEPARATE_BFCULL", 1),
        ("IMPORT_AC_EVAL_SUBDIVISION", 1),
        ("UNREAL_HANDLE_FLAGS", 1),
        ("IMPORT_TER_MAKE_UVS", 1),
        ("IMPORT_ASE_RECONSTRUCT_NORMALS", 1),
        ("IMPORT_MD3_HANDLE_MULTIPART", 1),
        ("IMPORT_MD5_NO_ANIM_AUTOLOAD", 0),
        ("IMPORT_OGRE_TEXTURETYPE_FROM_FILENAME", 1),
        ("IMPORT_IFC_SKIP_SPACE_REPRESENTATIONS", 1),
        ("IMPORT_IFC_SKIP_CURVE_REPRESENTATIONS", 1),
        ("IMPORT_IFC_CUSTOM_TRIANGULATION", 1),
        ("IMPORT_COLLADA_IGNORE_UP_DIRECTION", 1),
    ];
    let writes = importer.writes();
    assert_eq!(writes.len(), expected.len());
    for (i, e) in expected.iter().enumerate() {
        assert_eq!(int_at(writes, i), *e);
    }
}

#[test]
fn integer_and_string_properties() {
    let mut importer = Importer::new();
    importer.global_keyframe(1);
    importer.md3_keyframe(2);
    importer.md2_keyframe(3);
    importer.mdl_keyframe(4);
    importer.mdc_keyframe(5);
    importer.smd_keyframe(6);
    importer.unreal_keyframe(7);
    importer.lwo_one_layer_only_int(-8);
    importer.lws_anim_start(9);
    importer.lws_anim_end(10);
    importer.irr_anim_fps(100);
    importer.import_mdl_colormap("colormap.lmp");
    importer.md3_skin_name("default");
    importer.md3_shader_src("shaders/");
    importer.lwo_one_layer_only_str("layer");
    importer.ogre_material_file("Scene.material");
    let w = importer.writes();
    assert_eq!(w.len(), 16);
    assert_eq!(int_at(w, 0), ("IMPORT_GLOBAL_KEYFRAME", 1));
    assert_eq!(int_at(w, 1), ("IMPORT_MD3_KEYFRAME", 2));
    assert_eq!(int_at(w, 2), ("IMPORT_MD2_KEYFRAME", 3));
    assert_eq!(int_at(w, 3), ("IMPORT_MDL_KEYFRAME", 4));
    assert_eq!(int_at(w, 4), ("IMPORT_MDC_KEYFRAME", 5));
    assert_eq!(int_at(w, 5), ("IMPORT_SMD_KEYFRAME", 6));
    assert_eq!(int_at(w, 6), ("IMPORT_UNREAL_KEYFRAME", 7));
    assert_eq!(int_at(w, 7), ("IMPORT_LWO_ONE_LAYER_ONLY", -8));
    assert_eq!(int_at(w, 8), ("IMPORT_LWS_ANIM_START", 9));
    assert_eq!(int_at(w, 9), ("IMPORT_LWS_ANIM_END", 10));
    assert_eq!(int_at(w, 10), ("IMPORT_IRR_ANIM_FPS", 100));
    assert_eq!(string_at(w, 11), ("IMPORT_MDL_COLORMAP", "colormap.lmp".to_owned()));
    assert_eq!(string_at(w, 12), ("IMPORT_MD3_SKIN_NAME", "default".to_owned()));
    assert_eq!(string_at(w, 13), ("IMPORT_MD3_SHADER_SRC", "shaders/".to_owned()));
    assert_eq!(string_at(w, 14), ("IMPORT_LWO_ONE_LAYER_ONLY", "layer".to_owned()));
    assert_eq!(string_at(w, 15), ("IMPORT_OGRE_MATERIAL_FILE", "Scene.material".to_owned()));
    assert_eq!(importer.flags(), 0);
}

#[test]
fn typed_properties() {
    let mut importer = Importer::new();
    importer.set_import_property(Property::Bool(BoolKey::FavourSpeed.name(), true));
    importer.set_import_property(Property::Bool(BoolKey::PpFdRemove.name(), false));
    importer.set_import_property(Property::Integer(IntegerKey::GlobMultithreading.name(), -1));
    importer.set_import_property(Property::Float(
        FloatKey::PpDbThreshold.name(),
        bits_of(0.25),
    ));
    importer.set_import_property(Property::String(
        StringKey::ImportMd3SkinName.name(),
        "red",
    ));
    let m = Matrix4x4::identity();
    importer.set_import_property(Property::Matrix(MatrixKey::PpPtvRootTransformation.name(), m));
    importer.set_import_property(Property::String(PropertyNameString("CUSTOM"), ""));
    let w = importer.writes();
    assert_eq!(w.len(), 7);
    assert_eq!(int_at(w, 0), ("FAVOUR_SPEED", 1));
    assert_eq!(int_at(w, 1), ("PP_FD_REMOVE", 0));
    assert_eq!(int_at(w, 2), ("GLOB_MULTITHREADING", -1));
    assert_eq!(float_at(w, 3), ("PP_DB_THRESHOLD", 0.25));
    assert_eq!(string_at(w, 4), ("IMPORT_MD3_SKIN_NAME", "red".to_owned()));
    assert_eq!(matrix_at(w, 5), ("PP_PTV_ROOT_TRANSFORMATION", m));
    assert_eq!(string_at(w, 6), ("CUSTOM", String::new()));
    assert_eq!(importer.flags(), 0);
    match w[4].value {
        PropertyValue::String(a) => assert_eq!(a, AiString::from_str("red")),
        _ => panic!("no string"),
    }
}

#[test]
fn names_of_the_keys() {
    assert_eq!(BoolKey::GlobMeasureTime.name().0, "GLOB_MEASURE_TIME");
    assert_eq!(BoolKey::ImportColladaIgnoreUpDirection.name().0, "IMPORT_COLLADA_IGNORE_UP_DIRECTION");
    assert_eq!(BoolKey::UnrealHandleFlags.name().0, "UNREAL_HANDLE_FLAGS");
    assert_eq!(IntegerKey::PpSlmTriangleLimit.name().0, "PP_SLM_TRIANGLE_LIMIT");
    assert_eq!(IntegerKey::PpSlmVertexLimit.name().0, "PP_SLM_VERTEX_LIMIT");
    assert_eq!(IntegerKey::ImportLwoOneLayerOnly.name().0, "IMPORT_LWO_ONE_LAYER_ONLY");
    assert_eq!(FloatKey::PpCtMaxSmoothingAngle.name().0, "PP_CT_MAX_SMOOTHING_ANGLE");
    assert_eq!(FloatKey::PpGsnMaxSmoothingAngle.name().0, "PP_GSN_MAX_SMOOTHING_ANGLE");
    assert_eq!(FloatKey::PpFidAnimAccuracy.name().0, "PP_FID_ANIM_ACCURACY");
    assert_eq!(StringKey::PpRrmExcludeList.name().0, "PP_RRM_EXCLUDE_LIST");
    assert_eq!(StringKey::ImportOgreMaterialFile.name().0, "IMPORT_OGRE_MATERIAL_FILE");
    assert_eq!(MatrixKey::PpPtvRootTransformation.name().0, "PP_PTV_ROOT_TRANSFORMATION");
}
