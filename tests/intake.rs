use std::collections::HashMap;

use file_intake::{
    append_decimal, declared_name, in_upload_dir, get_files_html, is_success_status, is_valid_file,
    render_record, upload_file, upload_outcome, upload_path, upload_start, FileRecord,
    StoreError, TransferError, UploadAction, UploadEvent, UploadState, STATUS_OK,
    STATUS_SERVER_ERROR,
};

/// Disk and store as the handler's actions leave them, for driving the
/// handler in memory.
struct Bench {
    files: HashMap<String, Vec<u8>>,
    open: Option<String>,
    records: Vec<String>,
    fail_insert: bool,
}

impl Bench {
    fn new() -> Bench {
        Bench { files: HashMap::new(), open: None, records: Vec::new(), fail_insert: false }
    }

    /// Runs one request whose parts are (declared name, chunks); returns the response.
    fn request(&mut self, parts: Vec<(Option<&str>, Vec<Vec<u8>>)>) -> (u16, String) {
        let mut parts = parts.into_iter();
        let mut chunks: std::vec::IntoIter<Vec<u8>> = Vec::new().into_iter();
        let (mut state, mut action) = upload_start();
        loop {
            let event = match action {
                UploadAction::NextPart => match parts.next() {
                    Some((name, cs)) => {
                        chunks = cs.into_iter();
                        UploadEvent::Part { filename: name.map(|n| n.to_string()) }
                    }
                    None => UploadEvent::StreamEnd,
                },
                UploadAction::CreateFile { path } => {
                    self.files.insert(path.clone(), Vec::new());
                    self.open = Some(path);
                    UploadEvent::Created
                }
                UploadAction::NextChunk => match chunks.next() {
                    Some(data) => UploadEvent::Chunk { data },
                    None => UploadEvent::PartEnd,
                },
                UploadAction::WriteChunk { data } => {
                    let path = self.open.clone().unwrap();
                    self.files.get_mut(&path).unwrap().extend_from_slice(&data);
                    UploadEvent::Written
                }
                UploadAction::InsertRecord { name } => {
                    if self.fail_insert {
                        UploadEvent::InsertFailed
                    } else {
                        self.records.push(name);
                        UploadEvent::Inserted
                    }
                }
                UploadAction::Respond { status, body } => return (status, body),
            };
            let (next_state, next_action) = upload_file(state, event);
            state = next_state;
            action = next_action;
        }
    }

    fn listing(&self) -> String {
        let rows: Vec<FileRecord> = self
            .records
            .iter()
            .enumerate()
            .map(|(i, n)| FileRecord::new(i as i32 + 1, n.clone()))
            .collect();
        get_files_html(Ok(rows))
    }
}

fn gzip_like(len: usize) -> Vec<u8> {
    let mut v = vec![0x1f, 0x8b];
    for i in 2..len {
        v.push((i % 251) as u8);
    }
    v
}

#[test]
fn accepts_json_gz_names() {
    assert!(is_valid_file("file.json.gz"));
    assert!(is_valid_file("/home/user/data/file.json.gz"));
    assert!(is_valid_file(".json.gz"));
}

#[test]
fn accepts_json_gz_in_any_case() {
    assert!(is_valid_file("file.JSON.GZ"));
    assert!(is_valid_file("file.Json.Gz"));
}

#[test]
fn rejects_other_extensions() {
    assert!(!is_valid_file("file.json"));
    assert!(!is_valid_file("file.gz"));
    assert!(!is_valid_file("file.tar.gz"));
    assert!(!is_valid_file("file.json.gz.bak"));
    assert!(!is_valid_file("json.gz"));
    assert!(!is_valid_file(""));
}

#[test]
fn placeholder_for_missing_name() {
    assert_eq!(declared_name(None), "unknown_file");
    assert_eq!(declared_name(Some("a.json.gz".to_string())), "a.json.gz");
}

#[test]
fn upload_path_is_sanitized() {
    assert_eq!(upload_path("file.json.gz"), "./uploads/file.json.gz");
    assert_eq!(upload_path("../../etc/passwd"), "./uploads/....etcpasswd");
    assert_eq!(upload_path("a\\b:c*d"), "./uploads/abcd");
    assert_eq!(upload_path(".."), "./uploads/unknown_file");
    assert_eq!(upload_path("/"), "./uploads/unknown_file");
}

#[test]
fn entry_in_upload_dir() {
    assert_eq!(in_upload_dir("a.json.gz"), "./uploads/a.json.gz");
    assert_eq!(in_upload_dir(""), "./uploads/unknown_file");
}

#[test]
fn decimal_text_of_ids() {
    let mut s = String::new();
    append_decimal(&mut s, 0);
    assert_eq!(s, "0");
    let mut s = String::from("x");
    append_decimal(&mut s, 2147483647);
    assert_eq!(s, "x2147483647");
    let mut s = String::new();
    append_decimal(&mut s, -2147483648);
    assert_eq!(s, "-2147483648");
}

#[test]
fn record_paragraph() {
    let r = FileRecord::new(42, "a b.json.gz".to_string());
    assert_eq!(render_record(&r), "<p>ID: 42 - Filename: a b.json.gz</p>");
}

#[test]
fn listing_page_in_order() {
    let rows = vec![
        FileRecord::new(1, "a.json.gz".to_string()),
        FileRecord::new(7, "b.json.gz".to_string()),
    ];
    assert_eq!(
        get_files_html(Ok(rows)),
        "<html><body><p>ID: 1 - Filename: a.json.gz</p><p>ID: 7 - Filename: b.json.gz</p></body></html>"
    );
}

#[test]
fn empty_listing() {
    assert_eq!(get_files_html(Ok(Vec::new())), "<html><body></body></html>");
}

#[test]
fn failed_query_lists_nothing() {
    assert_eq!(get_files_html(Err(StoreError::Unavailable)), "<html><body></body></html>");
}

#[test]
fn success_statuses() {
    assert!(is_success_status(200));
    assert!(is_success_status(204));
    assert!(is_success_status(299));
    assert!(!is_success_status(199));
    assert!(!is_success_status(300));
    assert!(!is_success_status(500));
}

#[test]
fn outcome_of_answers() {
    assert_eq!(upload_outcome(200, "ok".to_string()), Ok(()));
    assert_eq!(
        upload_outcome(500, "Erro ao criar o arquivo.".to_string()),
        Err(TransferError::ServerRejected {
            status: 500,
            body: "Erro ao criar o arquivo.".to_string()
        })
    );
}

#[test]
fn round_trip_bytes() {
    let mut bench = Bench::new();
    let content = gzip_like(5000);
    let chunks: Vec<Vec<u8>> = content.chunks(777).map(|c| c.to_vec()).collect();
    let (status, _) = bench.request(vec![(Some("data.json.gz"), chunks)]);
    assert_eq!(status, STATUS_OK);
    assert_eq!(bench.files.get("./uploads/data.json.gz"), Some(&content));
}

#[test]
fn listing_shows_declared_name_with_growing_id() {
    let mut bench = Bench::new();
    bench.request(vec![(Some("first.json.gz"), vec![vec![1]])]);
    bench.request(vec![(Some("../second.json.gz"), vec![vec![2]])]);
    assert_eq!(bench.records, vec!["first.json.gz", "../second.json.gz"]);
    let page = bench.listing();
    assert!(page.contains("<p>ID: 2 - Filename: ../second.json.gz</p>"));
    assert!(bench.files.contains_key("./uploads/..second.json.gz"));
}

#[test]
fn same_sanitized_name_overwrites() {
    let mut bench = Bench::new();
    bench.request(vec![(Some("a/b.json.gz"), vec![vec![1, 2, 3, 4, 5, 6]])]);
    bench.request(vec![(Some("ab.json.gz"), vec![vec![9], vec![8]])]);
    assert_eq!(bench.files.len(), 1);
    assert_eq!(bench.files.get("./uploads/ab.json.gz"), Some(&vec![9, 8]));
    assert_eq!(bench.records.len(), 2);
}

#[test]
fn unnamed_part_uses_placeholder() {
    let mut bench = Bench::new();
    let (status, body) = bench.request(vec![(None, vec![vec![7, 7]])]);
    assert_eq!(status, 200);
    assert_eq!(body, "Arquivo recebido com sucesso!");
    assert_eq!(bench.records, vec!["unknown_file"]);
    assert_eq!(bench.files.get("./uploads/unknown_file"), Some(&vec![7, 7]));
}

#[test]
fn empty_body_records_placeholder() {
    let mut bench = Bench::new();
    let (status, body) = bench.request(Vec::new());
    assert_eq!(status, 200);
    assert_eq!(body, "Arquivo recebido com sucesso!");
    assert_eq!(bench.records, vec!["unknown_file"]);
    assert!(bench.files.is_empty());
}

#[test]
fn empty_body_with_failing_store() {
    let mut bench = Bench::new();
    bench.fail_insert = true;
    let (status, body) = bench.request(Vec::new());
    assert_eq!(status, 500);
    assert_eq!(body, "Erro ao salvar no banco de dados.");
    assert!(bench.records.is_empty());
}

#[test]
fn failed_insert_keeps_blob() {
    let mut bench = Bench::new();
    bench.fail_insert = true;
    let (status, body) = bench.request(vec![(Some("x.json.gz"), vec![vec![1, 2], vec![3]])]);
    assert_eq!(status, STATUS_SERVER_ERROR);
    assert_eq!(body, "Erro ao salvar no banco de dados.");
    assert_eq!(bench.files.get("./uploads/x.json.gz"), Some(&vec![1, 2, 3]));
    assert!(bench.records.is_empty());
}

#[test]
fn failed_create_answers_error() {
    let (state, _) = upload_start();
    let (state, action) =
        upload_file(state, UploadEvent::Part { filename: Some("x.json.gz".to_string()) });
    assert_eq!(action, UploadAction::CreateFile { path: "./uploads/x.json.gz".to_string() });
    let (state, action) = upload_file(state, UploadEvent::CreateFailed);
    assert_eq!(state, UploadState::Finished);
    assert_eq!(
        action,
        UploadAction::Respond { status: 500, body: "Erro ao criar o arquivo.".to_string() }
    );
}

#[test]
fn failed_write_answers_error() {
    let state = UploadState::AwaitWrite { name: "x.json.gz".to_string() };
    let (state, action) = upload_file(state, UploadEvent::WriteFailed);
    assert_eq!(state, UploadState::Finished);
    assert_eq!(
        action,
        UploadAction::Respond { status: 500, body: "Erro ao escrever no arquivo.".to_string() }
    );
}

#[test]
fn stream_errors_end_request() {
    let (state, action) =
        upload_file(UploadState::AwaitPart { seen: false }, UploadEvent::PartError);
    assert_eq!(state, UploadState::Finished);
    assert_eq!(
        action,
        UploadAction::Respond { status: 500, body: "Erro ao receber o arquivo.".to_string() }
    );
    let waiting = UploadState::AwaitChunk { name: "n".to_string() };
    let (state, action) = upload_file(waiting, UploadEvent::ChunkError);
    assert_eq!(state, UploadState::Finished);
    assert_eq!(
        action,
        UploadAction::Respond { status: 500, body: "Erro ao receber o arquivo.".to_string() }
    );
}

#[test]
fn aborted_part_is_not_recorded() {
    let (state, _) = upload_start();
    let (state, _) = upload_file(state, UploadEvent::Part { filename: Some("a.json.gz".to_string()) });
    let (state, _) = upload_file(state, UploadEvent::Created);
    let (state, action) = upload_file(state, UploadEvent::Chunk { data: vec![1, 2] });
    assert_eq!(action, UploadAction::WriteChunk { data: vec![1, 2] });
    let (state, _) = upload_file(state, UploadEvent::Written);
    let (state, action) = upload_file(state, UploadEvent::ChunkError);
    assert_eq!(state, UploadState::Finished);
    assert!(matches!(action, UploadAction::Respond { status: 500, .. }));
}

#[test]
fn start_waits_for_first_part() {
    let (state, action) = upload_start();
    assert_eq!(state, UploadState::AwaitPart { seen: false });
    assert_eq!(action, UploadAction::NextPart);
}

#[test]
fn out_of_order_event_ends_request() {
    let (state, action) = upload_file(UploadState::AwaitInsert, UploadEvent::Written);
    assert_eq!(state, UploadState::Finished);
    assert!(matches!(action, UploadAction::Respond { status: 500, .. }));
}

#[test]
fn gzip_json_scenario() {
    let mut bench = Bench::new();
    let content = gzip_like(50 * 1024);
    let chunks: Vec<Vec<u8>> = content.chunks(8192).map(|c| c.to_vec()).collect();
    let (status, body) = bench.request(vec![(Some("file.json.gz"), chunks)]);
    assert_eq!(status, 200);
    assert_eq!(body, "Arquivo recebido com sucesso!");
    assert_eq!(bench.files.get("./uploads/file.json.gz"), Some(&content));
    assert!(bench.listing().contains("<p>ID: 1 - Filename: file.json.gz</p>"));
}
