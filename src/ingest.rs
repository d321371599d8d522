use vstd::prelude::*;

use crate::naming::{
    declared_name, declared_name_of, option_view, placeholder_name, upload_path, upload_path_of,
};

verus! {

/// HTTP status of an accepted upload.
pub const STATUS_OK: u16 = 200;

/// HTTP status of an upload that failed on the server.
pub const STATUS_SERVER_ERROR: u16 = 500;

/// Where the handler of one upload request stands.
#[derive(Debug, Clone, PartialEq, Eq)]
pub enum UploadState {
    /// Waiting for the next part of the multipart body; `seen` tells
    /// whether a part has already been stored and recorded.
    AwaitPart { seen: bool },
    /// The file for the part `name` is being created.
    AwaitCreate { name: String },
    /// Waiting for the next chunk of the part `name`.
    AwaitChunk { name: String },
    /// A chunk of the part `name` is being written.
    AwaitWrite { name: String },
    /// The record of the finished part is being inserted.
    AwaitInsert,
    /// The body held no part: the placeholder's record is being inserted.
    AwaitPlaceholderInsert,
    /// The response has been decided.
    Finished,
}

/// What the driver of the request reports after doing the last action.
#[derive(Debug, Clone, PartialEq, Eq)]
pub enum UploadEvent {
    /// A part arrived, with the file name its content disposition declares.
    Part { filename: Option<String> },
    /// The multipart stream yielded an error instead of a part.
    PartError,
    /// The multipart stream has no more parts.
    StreamEnd,
    /// The file was created (or truncated).
    Created,
    /// The file could not be created.
    CreateFailed,
    /// A chunk of the current part arrived.
    Chunk { data: Vec<u8> },
    /// The part's stream yielded an error instead of a chunk.
    ChunkError,
    /// The current part has no more chunks.
    PartEnd,
    /// The chunk was written in full.
    Written,
    /// Writing the chunk failed.
    WriteFailed,
    /// The record was inserted.
    Inserted,
    /// Inserting the record failed.
    InsertFailed,
}

/// What the driver of the request must do next.
#[derive(Debug, Clone, PartialEq, Eq)]
pub enum UploadAction {
    /// Read the next part of the multipart body.
    NextPart,
    /// Create (or truncate) the file at `path` and keep it open.
    CreateFile { path: String },
    /// Read the next chunk of the current part.
    NextChunk,
    /// Append `data` to the open file.
    WriteChunk { data: Vec<u8> },
    /// Insert a record with this file name into the metadata store.
    InsertRecord { name: String },
    /// Answer the request; nothing more is done for it.
    Respond { status: u16, body: String },
}

/// The state of the handler, over mathematical values.
pub enum UploadStateView {
    AwaitPart { seen: bool },
    AwaitCreate { name: Seq<char> },
    AwaitChunk { name: Seq<char> },
    AwaitWrite { name: Seq<char> },
    AwaitInsert,
    AwaitPlaceholderInsert,
    Finished,
}

/// An event, over mathematical values.
pub enum UploadEventView {
    Part { filename: Option<Seq<char>> },
    PartError,
    StreamEnd,
    Created,
    CreateFailed,
    Chunk { data: Seq<u8> },
    ChunkError,
    PartEnd,
    Written,
    WriteFailed,
    Inserted,
    InsertFailed,
}

/// An action, over mathematical values.
pub enum UploadActionView {
    NextPart,
    CreateFile { path: Seq<char> },
    NextChunk,
    WriteChunk { data: Seq<u8> },
    InsertRecord { name: Seq<char> },
    Respond { status: u16, body: Seq<char> },
}

impl View for UploadState {
    type V = UploadStateView;

    open spec fn view(&self) -> UploadStateView {
        match self {
            UploadState::AwaitPart { seen } => UploadStateView::AwaitPart { seen: *seen },
            UploadState::AwaitCreate { name } => UploadStateView::AwaitCreate { name: name@ },
            UploadState::AwaitChunk { name } => UploadStateView::AwaitChunk { name: name@ },
            UploadState::AwaitWrite { name } => UploadStateView::AwaitWrite { name: name@ },
            UploadState::AwaitInsert => UploadStateView::AwaitInsert,
            UploadState::AwaitPlaceholderInsert => UploadStateView::AwaitPlaceholderInsert,
            UploadState::Finished => UploadStateView::Finished,
        }
    }
}

impl View for UploadEvent {
    type V = UploadEventView;

    open spec fn view(&self) -> UploadEventView {
        match self {
            UploadEvent::Part { filename } => UploadEventView::Part {
                filename: option_view(*filename),
            },
            UploadEvent::PartError => UploadEventView::PartError,
            UploadEvent::StreamEnd => UploadEventView::StreamEnd,
            UploadEvent::Created => UploadEventView::Created,
            UploadEvent::CreateFailed => UploadEventView::CreateFailed,
            UploadEvent::Chunk { data } => UploadEventView::Chunk { data: data@ },
            UploadEvent::ChunkError => UploadEventView::ChunkError,
            UploadEvent::PartEnd => UploadEventView::PartEnd,
            UploadEvent::Written => UploadEventView::Written,
            UploadEvent::WriteFailed => UploadEventView::WriteFailed,
            UploadEvent::Inserted => UploadEventView::Inserted,
            UploadEvent::InsertFailed => UploadEventView::InsertFailed,
        }
    }
}

impl View for UploadAction {
    type V = UploadActionView;

    open spec fn view(&self) -> UploadActionView {
        match self {
            UploadAction::NextPart => UploadActionView::NextPart,
            UploadAction::CreateFile { path } => UploadActionView::CreateFile { path: path@ },
            UploadAction::NextChunk => UploadActionView::NextChunk,
            UploadAction::WriteChunk { data } => UploadActionView::WriteChunk { data: data@ },
            UploadAction::InsertRecord { name } => UploadActionView::InsertRecord { name: name@ },
            UploadAction::Respond { status, body } => UploadActionView::Respond {
                status: *status,
                body: body@,
            },
        }
    }
}

/// Body of the answer to an accepted upload.
pub open spec fn success_body() -> Seq<char> {
    "Arquivo recebido com sucesso!"@
}

/// Body of the answer when the file cannot be created.
pub open spec fn create_error_body() -> Seq<char> {
    "Erro ao criar o arquivo."@
}

/// Body of the answer when a chunk cannot be written.
pub open spec fn write_error_body() -> Seq<char> {
    "Erro ao escrever no arquivo."@
}

/// Body of the answer when the record cannot be inserted.
pub open spec fn store_error_body() -> Seq<char> {
    "Erro ao salvar no banco de dados."@
}

/// Body of the answer when the multipart stream fails or is cut off.
pub open spec fn stream_error_body() -> Seq<char> {
    "Erro ao receber o arquivo."@
}

/// Body of the answer when the driver reports an event that does not follow the last action.
pub open spec fn protocol_error_body() -> Seq<char> {
    "Erro interno no processamento do envio."@
}

/// The handler's decision: from a state and the event that the last action
/// produced, the next state and the next action.
pub open spec fn upload_step(s: UploadStateView, e: UploadEventView) -> (UploadStateView, UploadActionView) {
    match (s, e) {
        (UploadStateView::AwaitPart { .. }, UploadEventView::Part { filename }) => {
            let name = declared_name_of(filename);
            (
                UploadStateView::AwaitCreate { name },
                UploadActionView::CreateFile { path: upload_path_of(name) },
            )
        },
        (UploadStateView::AwaitPart { .. }, UploadEventView::PartError) => (
            UploadStateView::Finished,
            UploadActionView::Respond { status: STATUS_SERVER_ERROR, body: stream_error_body() },
        ),
        (UploadStateView::AwaitPart { seen }, UploadEventView::StreamEnd) => if seen {
            (
                UploadStateView::Finished,
                UploadActionView::Respond { status: STATUS_OK, body: success_body() },
            )
        } else {
            (
                UploadStateView::AwaitPlaceholderInsert,
                UploadActionView::InsertRecord { name: placeholder_name() },
            )
        },
        (UploadStateView::AwaitCreate { name }, UploadEventView::Created) => (
            UploadStateView::AwaitChunk { name },
            UploadActionView::NextChunk,
        ),
        (UploadStateView::AwaitCreate { .. }, UploadEventView::CreateFailed) => (
            UploadStateView::Finished,
            UploadActionView::Respond { status: STATUS_SERVER_ERROR, body: create_error_body() },
        ),
        (UploadStateView::AwaitChunk { name }, UploadEventView::Chunk { data }) => (
            UploadStateView::AwaitWrite { name },
            UploadActionView::WriteChunk { data },
        ),
        (UploadStateView::AwaitChunk { .. }, UploadEventView::ChunkError) => (
            UploadStateView::Finished,
            UploadActionView::Respond { status: STATUS_SERVER_ERROR, body: stream_error_body() },
        ),
        (UploadStateView::AwaitChunk { name }, UploadEventView::PartEnd) => (
            UploadStateView::AwaitInsert,
            UploadActionView::InsertRecord { name },
        ),
        (UploadStateView::AwaitWrite { name }, UploadEventView::Written) => (
            UploadStateView::AwaitChunk { name },
            UploadActionView::NextChunk,
        ),
        (UploadStateView::AwaitWrite { .. }, UploadEventView::WriteFailed) => (
            UploadStateView::Finished,
            UploadActionView::Respond { status: STATUS_SERVER_ERROR, body: write_error_body() },
        ),
        (UploadStateView::AwaitInsert, UploadEventView::Inserted) => (
            UploadStateView::AwaitPart { seen: true },
            UploadActionView::NextPart,
        ),
        (UploadStateView::AwaitInsert, UploadEventView::InsertFailed) => (
            UploadStateView::Finished,
            UploadActionView::Respond { status: STATUS_SERVER_ERROR, body: store_error_body() },
        ),
        (UploadStateView::AwaitPlaceholderInsert, UploadEventView::Inserted) => (
            UploadStateView::Finished,
            UploadActionView::Respond { status: STATUS_OK, body: success_body() },
        ),
        (UploadStateView::AwaitPlaceholderInsert, UploadEventView::InsertFailed) => (
            UploadStateView::Finished,
            UploadActionView::Respond { status: STATUS_SERVER_ERROR, body: store_error_body() },
        ),
        _ => (
            UploadStateView::Finished,
            UploadActionView::Respond { status: STATUS_SERVER_ERROR, body: protocol_error_body() },
        ),
    }
}

fn respond(status: u16, body: &str) -> (r: (UploadState, UploadAction))
    ensures
        r.0@ == UploadStateView::Finished,
        r.1@ == (UploadActionView::Respond { status, body: body@ }),
{
    (UploadState::Finished, UploadAction::Respond { status, body: String::from_str(body) })
}

/// The first state of a request's handler, and its first action: read a part.
pub fn upload_start() -> (r: (UploadState, UploadAction))
    ensures
        r.0@ == (UploadStateView::AwaitPart { seen: false }),
        r.1@ == UploadActionView::NextPart,
{
    (UploadState::AwaitPart { seen: false }, UploadAction::NextPart)
}

/// One decision of the upload handler. Each part of the multipart body is
/// stored at the sanitized form of its declared name (or of `unknown_file`)
/// under the upload directory, its chunks written in the order they come, and
/// recorded under the declared name once its last chunk is written. A failure
/// to create, to write or to insert, and an error of the multipart stream
/// (a part cut off included), ends the request with status 500, leaving what
/// was already written and recording nothing more. The end of the body ends
/// it with status 200; a body that held no part first records `unknown_file`.
pub fn upload_file(state: UploadState, event: UploadEvent) -> (r: (UploadState, UploadAction))
    ensures
        (r.0@, r.1@) == upload_step(state@, event@),
{
    match (state, event) {
        (UploadState::AwaitPart { .. }, UploadEvent::Part { filename }) => {
            let name = declared_name(filename);
            let path = upload_path(name.as_str());
            (UploadState::AwaitCreate { name }, UploadAction::CreateFile { path })
        },
        (UploadState::AwaitPart { .. }, UploadEvent::PartError) => respond(
            STATUS_SERVER_ERROR,
            "Erro ao receber o arquivo.",
        ),
        (UploadState::AwaitPart { seen }, UploadEvent::StreamEnd) => {
            if seen {
                respond(STATUS_OK, "Arquivo recebido com sucesso!")
            } else {
                let name = declared_name(None);
                (UploadState::AwaitPlaceholderInsert, UploadAction::InsertRecord { name })
            }
        },
        (UploadState::AwaitCreate { name }, UploadEvent::Created) => (
            UploadState::AwaitChunk { name },
            UploadAction::NextChunk,
        ),
        (UploadState::AwaitCreate { .. }, UploadEvent::CreateFailed) => respond(
            STATUS_SERVER_ERROR,
            "Erro ao criar o arquivo.",
        ),
        (UploadState::AwaitChunk { name }, UploadEvent::Chunk { data }) => (
            UploadState::AwaitWrite { name },
            UploadAction::WriteChunk { data },
        ),
        (UploadState::AwaitChunk { .. }, UploadEvent::ChunkError) => respond(
            STATUS_SERVER_ERROR,
            "Erro ao receber o arquivo.",
        ),
        (UploadState::AwaitChunk { name }, UploadEvent::PartEnd) => (
            UploadState::AwaitInsert,
            UploadAction::InsertRecord { name },
        ),
        (UploadState::AwaitWrite { name }, UploadEvent::Written) => (
            UploadState::AwaitChunk { name },
            UploadAction::NextChunk,
        ),
        (UploadState::AwaitWrite { .. }, UploadEvent::WriteFailed) => respond(
            STATUS_SERVER_ERROR,
            "Erro ao escrever no arquivo.",
        ),
        (UploadState::AwaitInsert, UploadEvent::Inserted) => (
            UploadState::AwaitPart { seen: true },
            UploadAction::NextPart,
        ),
        (UploadState::AwaitInsert, UploadEvent::InsertFailed) => respond(
            STATUS_SERVER_ERROR,
            "Erro ao salvar no banco de dados.",
        ),
        (UploadState::AwaitPlaceholderInsert, UploadEvent::Inserted) => respond(
            STATUS_OK,
            "Arquivo recebido com sucesso!",
        ),
        (UploadState::AwaitPlaceholderInsert, UploadEvent::InsertFailed) => respond(
            STATUS_SERVER_ERROR,
            "Erro ao salvar no banco de dados.",
        ),
        _ => respond(STATUS_SERVER_ERROR, "Erro interno no processamento do envio."),
    }
}

} // verus!
