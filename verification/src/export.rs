//! Exporting scenes.
//!
//! The import engine can also write a scene out, to a file or to memory, in
//! one of the formats that it lists. What is decided here is which entry of
//! that list an identifier names, and how an export ended.

use vstd::prelude::*;

verus! {

/// One of the formats that the engine can export to.
#[derive(Debug)]
pub struct ExportFormatDesc {
    /// Short identifier of the format, by which an export asks for it.
    pub id: String,
    /// What the format is, in a sentence.
    pub description: String,
    /// The file extension that goes with the format.
    pub file_extension: String,
}

/// The status that the engine gives for a call that succeeded.
pub const AI_SUCCESS: i32 = 0;

/// The status that the engine gives for a call that failed.
pub const AI_FAILURE: i32 = -1;

/// The status that the engine gives for a call that ran out of memory.
pub const AI_OUTOFMEMORY: i32 = -3;

/// Why an export gave nothing.
#[derive(Clone, Copy, Debug, PartialEq, Eq, Structural)]
pub enum ExportError {
    /// The engine lists no format under the identifier asked for.
    UnknownFormat,
    /// The engine ran out of memory.
    OutOfMemory,
    /// The engine failed.
    Failure,
}

/// Whether `index` is the first place in `formats` of a format with the
/// identifier `id`.
pub open spec fn is_first_with_id(formats: Seq<ExportFormatDesc>, id: Seq<char>, index: int) -> bool {
    &&& 0 <= index < formats.len()
    &&& formats[index].id@ == id
    &&& forall|j: int| 0 <= j < index ==> (#[trigger] formats[j]).id@ != id
}

/// Whether `formats` has a format with the identifier `id`.
pub open spec fn lists_id(formats: Seq<ExportFormatDesc>, id: Seq<char>) -> bool {
    exists|j: int| 0 <= j < formats.len() && (#[trigger] formats[j]).id@ == id
}

/// Finds the format that `id` names: the first in the list with that
/// identifier. An export for an identifier that is not listed fails with
/// `UnknownFormat`, and the engine is not asked.
pub fn find_format(formats: &Vec<ExportFormatDesc>, id: &str) -> (r: Result<usize, ExportError>)
    ensures
        r is Ok <==> lists_id(formats@, id@),
        r is Ok ==> is_first_with_id(formats@, id@, r->Ok_0 as int),
        r is Err ==> r->Err_0 == ExportError::UnknownFormat,
{
    let wanted = id.to_owned();
    let mut i: usize = 0;
    while i < formats.len()
        invariant
            i <= formats@.len(),
            wanted@ == id@,
            forall|j: int| 0 <= j < i ==> (#[trigger] formats@[j]).id@ != id@,
        decreases formats@.len() - i,
    {
        if formats[i].id == wanted {
            return Ok(i);
        }
        i += 1;
    }
    Err(ExportError::UnknownFormat)
}

/// Decides how an export to a file ended, from the status that the engine
/// gave.
pub fn export_outcome(status: i32) -> (r: Result<(), ExportError>)
    ensures
        r == (if status == AI_SUCCESS {
            Ok::<(), ExportError>(())
        } else if status == AI_OUTOFMEMORY {
            Err::<(), ExportError>(ExportError::OutOfMemory)
        } else {
            Err::<(), ExportError>(ExportError::Failure)
        }),
{
    if status == AI_SUCCESS {
        Ok(())
    } else if status == AI_OUTOFMEMORY {
        Err(ExportError::OutOfMemory)
    } else {
        Err(ExportError::Failure)
    }
}

/// Decides how an export to memory ended. `blob` is what the engine
/// returned, `None` standing for nothing.
pub fn blob_outcome<B>(blob: Option<B>) -> (r: Result<B, ExportError>)
    ensures
        r == (match blob {
            Some(b) => Ok::<B, ExportError>(b),
            None => Err::<B, ExportError>(ExportError::Failure),
        }),
{
    match blob {
        Some(b) => Ok(b),
        None => Err(ExportError::Failure),
    }
}

} // verus!
