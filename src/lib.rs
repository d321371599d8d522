//! File intake: the verified decisions of a small upload service.
//!
//! The library holds what the service decides: which file names a client may
//! send, where an upload lands on disk, how the upload handler steps through a
//! multipart request, how a client reads the server's answer, and how the
//! stored records are rendered as a page. The network, the disk and the
//! database are driven by the program around it.
pub mod client;
pub mod effects;
pub mod ingest;
pub mod listing;
pub mod naming;
pub mod validate;

pub use client::{is_success_status, upload_outcome, TransferError};
pub use ingest::{
    upload_file, upload_start, UploadAction, UploadEvent, UploadState, STATUS_OK,
    STATUS_SERVER_ERROR,
};
pub use listing::{append_decimal, get_files_html, render_record, FileRecord, StoreError};
pub use naming::{declared_name, in_upload_dir, upload_path};
pub use validate::is_valid_file;
