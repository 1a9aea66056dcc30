use assimp::export::{blob_outcome, export_outcome, find_format, ExportError, ExportFormatDesc};

fn format(id: &str, extension: &str) -> ExportFormatDesc {
    ExportFormatDesc {
        id: id.to_owned(),
        description: format!("{} files", id),
        file_extension: extension.to_owned(),
    }
}

#[test]
fn export_format_is_found_by_identifier() {
    let formats =
        vec![format("collada", "dae"), format("obj", "obj"), format("stl", "stl"), format("obj", "o")];
    assert_eq!(find_format(&formats, "collada"), Ok(0));
    assert_eq!(find_format(&formats, "obj"), Ok(1));
    assert_eq!(find_format(&formats, "stl"), Ok(2));
    assert_eq!(find_format(&formats, "ply"), Err(ExportError::UnknownFormat));
    assert_eq!(find_format(&formats, "OBJ"), Err(ExportError::UnknownFormat));
    assert_eq!(find_format(&formats, ""), Err(ExportError::UnknownFormat));
    assert_eq!(find_format(&formats, "dae"), Err(ExportError::UnknownFormat));
    assert_eq!(find_format(&Vec::new(), "obj"), Err(ExportError::UnknownFormat));
}

#[test]
fn export_status() {
    assert_eq!(export_outcome(0), Ok(()));
    assert_eq!(export_outcome(-1), Err(ExportError::Failure));
    assert_eq!(export_outcome(-3), Err(ExportError::OutOfMemory));
    assert_eq!(export_outcome(1), Err(ExportError::Failure));
    assert_eq!(export_outcome(i32::MIN), Err(ExportError::Failure));
}

#[test]
fn export_to_memory() {
    assert_eq!(blob_outcome(Some(vec![1u8, 2, 3])), Ok(vec![1u8, 2, 3]));
    assert_eq!(blob_outcome::<Vec<u8>>(None), Err(ExportError::Failure));
}
