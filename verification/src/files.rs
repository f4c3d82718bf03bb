use vstd::prelude::*;

use crate::clock::rfc3339_of;
use crate::models::FileInfo;
use crate::models::MAX_UNIX_TIME;
use crate::store::has_file_id;
use crate::store::only_files_differ;
use crate::store::user_files;
use crate::store::Store;

verus! {

/// Handles a file listing request: the caller's files in store order, each
/// upload time rendered as RFC 3339 text.
pub fn get_files_handler(store: &Store, user_uuid: u128) -> (r: Vec<FileInfo>)
    requires
        store.wf(),
    ensures
        ({
            let sel = user_files(store.files@, user_uuid);
            &&& r@.len() == sel.len()
            &&& forall|k: int|
                0 <= k < sel.len() ==> (#[trigger] r@[k]).filename@ == sel[k].filename@
                    && r@[k].file_id == sel[k].file_id && r@[k].upload_time@ == rfc3339_of(
                    sel[k].upload_time,
                )
        }),
{
    store.get_files_by_user_uuid(user_uuid)
}

/// How one upload attempt ended at the transport layer. The socket handler
/// walks the multipart form and reports the first decisive event.
pub enum UploadEvent {
    /// The multipart form data could not be parsed.
    FormDataFailed,
    /// The file part carries no filename.
    FilenameMissing,
    /// The destination file could not be created.
    FileCreateFailed,
    /// A chunk of the upload could not be read.
    ChunkReadFailed,
    /// A chunk could not be written to the destination file.
    WriteFailed,
    /// The named file was fully written to disk.
    FileWritten(String),
    /// The form held no file part at all.
    NoFilePart,
}

/// An upload outcome: an HTTP status with its message.
pub struct UploadReply {
    pub status: u16,
    pub message: String,
}

/// Handles an upload outcome: a fully written file is recorded best-effort
/// (a clashing identifier is dropped, as a failed insert is only logged) and
/// acknowledged; every transport failure maps to its status and message, and
/// none of them touches the store.
pub fn upload_handler(
    store: &mut Store,
    event: UploadEvent,
    user_uuid: u128,
    file_id: u128,
    now: i64,
) -> (r: UploadReply)
    requires
        old(store).wf(),
        0 <= now <= MAX_UNIX_TIME,
    ensures
        final(store).wf(),
        only_files_differ(*final(store), *old(store)),
        event matches UploadEvent::FileWritten(name) ==> {
            &&& r.status == 200
            &&& r.message@ == "Uploaded succesfully!"@
            &&& (!has_file_id(old(store).files@, file_id) ==> {
                &&& final(store).files@.len() == old(store).files@.len() + 1
                &&& final(store).files@.subrange(0, old(store).files@.len() as int) == old(
                    store,
                ).files@
                &&& final(store).files@.last().filename@ == name@
                &&& final(store).files@.last().user_uuid == user_uuid
                &&& final(store).files@.last().file_id == file_id
                &&& final(store).files@.last().upload_time == now
            })
            &&& (has_file_id(old(store).files@, file_id) ==> *final(store) == *old(store))
        },
        !(event matches UploadEvent::FileWritten(_)) ==> *final(store) == *old(store),
        event is FormDataFailed ==> r.status == 400 && r.message@ == "Failed to parse form data"@,
        event is FilenameMissing ==> r.status == 400 && r.message@
            == "Failed to extract filename"@,
        event is FileCreateFailed ==> r.status == 500 && r.message@ == "Failed to create file."@,
        event is ChunkReadFailed ==> r.status == 500 && r.message@ == "Failed to read chunk"@,
        event is WriteFailed ==> r.status == 500 && r.message@ == "Failed to write to file"@,
        event is NoFilePart ==> r.status == 400 && r.message@ == "No file found in the form data"@,
{
    match event {
        UploadEvent::FileWritten(name) => {
            let _ = store.save_file_info(name.as_str(), user_uuid, file_id, now);
            UploadReply { status: 200, message: String::from_str("Uploaded succesfully!") }
        },
        UploadEvent::FormDataFailed => UploadReply {
            status: 400,
            message: String::from_str("Failed to parse form data"),
        },
        UploadEvent::FilenameMissing => UploadReply {
            status: 400,
            message: String::from_str("Failed to extract filename"),
        },
        UploadEvent::FileCreateFailed => UploadReply {
            status: 500,
            message: String::from_str("Failed to create file."),
        },
        UploadEvent::ChunkReadFailed => UploadReply {
            status: 500,
            message: String::from_str("Failed to read chunk"),
        },
        UploadEvent::WriteFailed => UploadReply {
            status: 500,
            message: String::from_str("Failed to write to file"),
        },
        UploadEvent::NoFilePart => UploadReply {
            status: 400,
            message: String::from_str("No file found in the form data"),
        },
    }
}

} // verus!
