use std::path::PathBuf;
use toolbox::path_length_checker::{
    csv_chunk, csv_chunks, directory_failed, export_cancelled, export_failed, export_succeeded, header,
    ExportStep, Job, Message, OverLimit, PathLengthChecker, Scan, ScanStatus, Status, CHUNK_ROWS,
    DEFAULT_LIMIT,
};
use tokio_util::sync::CancellationToken;

fn item(path: &str, size: u64) -> OverLimit {
    OverLimit::new(path.to_string(), size)
}

fn plain(items: &[OverLimit]) -> Vec<(String, u64)> {
    items.iter().map(|i| (i.path().clone(), i.size())).collect()
}

fn update_of(message: Message) -> (u64, Vec<(String, u64)>) {
    match message {
        Message::ScanUpdate { now_scanned, new_paths_over_limit } => (now_scanned, plain(&new_paths_over_limit)),
        other => panic!("unexpected {:?}", other),
    }
}

fn error_of(message: Message) -> String {
    match message {
        Message::Error(text) => text,
        other => panic!("unexpected {:?}", other),
    }
}

fn outcome_of(message: Message) -> Result<String, String> {
    match message {
        Message::CsvExportComplete(result) => result,
        other => panic!("unexpected {:?}", other),
    }
}

#[test]
fn scan_status_tells_where_a_scan_stands() {
    let waiting = ScanStatus::WaitingForStart;
    assert!(waiting.is_idle() && !waiting.is_scanning() && !waiting.is_done());
    let scanning = ScanStatus::Scanning(CancellationToken::new());
    assert!(!scanning.is_idle() && scanning.is_scanning() && !scanning.is_done());
    let done = ScanStatus::Done;
    assert!(done.is_idle() && !done.is_scanning() && done.is_done());
}

#[test]
fn cancel_stops_a_running_scan() {
    let token = CancellationToken::new();
    let mut status = ScanStatus::Scanning(token.clone());
    assert!(!token.is_cancelled());
    status.cancel();
    assert!(token.is_cancelled());
    assert!(status.is_done());
    status.cancel();
    assert!(status.is_done());
    let mut waiting = ScanStatus::WaitingForStart;
    waiting.cancel();
    assert!(matches!(waiting, ScanStatus::WaitingForStart));
}

#[test]
fn start_scan_needs_a_folder() {
    let mut page = PathLengthChecker::new();
    assert!(matches!(page.update(Message::StartScan), Job::Nothing));
    assert!(matches!(page.update(Message::SelectFolder), Job::PickFolder));
    assert!(matches!(page.update(Message::SelectedFolder(None)), Job::Nothing));
    assert!(matches!(page.update(Message::StartScan), Job::Nothing));
    assert!(matches!(
        page.update(Message::SelectedFolder(Some(PathBuf::from("/srv/data")))),
        Job::Nothing
    ));
    match page.update(Message::StartScan) {
        Job::Scan { root, limit, token } => {
            assert_eq!(root, PathBuf::from("/srv/data"));
            assert_eq!(limit, 240);
            assert_eq!(DEFAULT_LIMIT, 240);
            assert!(!token.is_cancelled());
        }
        other => panic!("unexpected {:?}", other),
    }
}

#[test]
fn the_limit_is_read_from_its_text() {
    let mut page = PathLengthChecker::new();
    let _ = page.update(Message::SelectedFolder(Some(PathBuf::from("/srv"))));
    let _ = page.update(Message::LimitChanged("100".to_string()));
    let _ = page.update(Message::LimitChanged("10x".to_string()));
    match page.update(Message::StartScan) {
        Job::Scan { limit, .. } => assert_eq!(limit, 100),
        other => panic!("unexpected {:?}", other),
    }
    let _ = page.update(Message::LimitChanged("+7".to_string()));
    match page.update(Message::StartScan) {
        Job::Scan { limit, .. } => assert_eq!(limit, 7),
        other => panic!("unexpected {:?}", other),
    }
}

#[test]
fn a_new_scan_stops_the_one_before() {
    let mut page = PathLengthChecker::new();
    let _ = page.update(Message::SelectedFolder(Some(PathBuf::from("/srv"))));
    let first = match page.update(Message::StartScan) {
        Job::Scan { token, .. } => token,
        other => panic!("unexpected {:?}", other),
    };
    let second = match page.update(Message::StartScan) {
        Job::Scan { token, .. } => token,
        other => panic!("unexpected {:?}", other),
    };
    assert!(first.is_cancelled());
    assert!(!second.is_cancelled());
    let _ = page.update(Message::AbortScan);
    assert!(second.is_cancelled());
    let third = match page.update(Message::StartScan) {
        Job::Scan { token, .. } => token,
        other => panic!("unexpected {:?}", other),
    };
    let _ = page.update(Message::ScanComplete);
    assert!(third.is_cancelled());
    page.cancel_scan();
}

#[test]
fn export_hands_out_what_the_scan_found() {
    let mut page = PathLengthChecker::new();
    assert!(matches!(page.update(Message::ExportCsv), Job::Nothing));
    let _ = page.update(Message::ScanUpdate {
        now_scanned: 10,
        new_paths_over_limit: vec![item("/a", 2), item("/b", 3)],
    });
    let _ = page.update(Message::ScanUpdate { now_scanned: 20, new_paths_over_limit: vec![item("/c", 4)] });
    let _ = page.update(Message::Error("Error reading directory /x: denied".to_string()));
    match page.update(Message::ExportCsv) {
        Job::Export(items) => assert_eq!(
            plain(&items),
            vec![("/a".to_string(), 2), ("/b".to_string(), 3), ("/c".to_string(), 4)]
        ),
        other => panic!("unexpected {:?}", other),
    }
    assert!(matches!(
        page.update(Message::CsvExportComplete(Ok("Exported 3 paths to /tmp/r.csv".to_string()))),
        Job::Nothing
    ));
    assert!(matches!(
        page.update(Message::CsvExportComplete(Err("Export cancelled".to_string()))),
        Job::Nothing
    ));
    let _ = page.update(Message::SelectedFolder(Some(PathBuf::from("/srv"))));
    let _ = page.update(Message::StartScan);
    assert!(matches!(page.update(Message::ExportCsv), Job::Nothing));
}

#[test]
fn a_scan_reads_the_folder_that_was_kept_last() {
    let mut scan = Scan::new(PathBuf::from("/root"), 5);
    assert_eq!(scan.scanned(), 0);
    assert_eq!(scan.next_directory(), Some(PathBuf::from("/root")));
    assert_eq!(scan.next_directory(), None);
    let (failure, update) = scan.entry(PathBuf::from("/root/a"), "/root/a".to_string(), 7, Ok(true), false);
    assert!(failure.is_none() && update.is_none());
    let (failure, update) = scan.entry(PathBuf::from("/root/f"), "/root/f".to_string(), 7, Ok(false), false);
    assert!(failure.is_none() && update.is_none());
    let (failure, update) = scan.entry(PathBuf::from("/root/b"), "/root/b".to_string(), 7, Ok(true), false);
    assert!(failure.is_none() && update.is_none());
    assert_eq!(scan.scanned(), 3);
    assert_eq!(scan.next_directory(), Some(PathBuf::from("/root/b")));
    assert_eq!(scan.next_directory(), Some(PathBuf::from("/root/a")));
    assert_eq!(scan.next_directory(), None);
}

#[test]
fn a_scan_reports_the_paths_over_the_limit() {
    let mut scan = Scan::new(PathBuf::from("/r"), 5);
    let _ = scan.entry(PathBuf::from("/r/abc"), "/r/abc".to_string(), 6, Ok(false), false);
    let _ = scan.entry(PathBuf::from("/r/ab"), "/r/ab".to_string(), 5, Ok(false), false);
    let (failure, update) =
        scan.entry(PathBuf::from("/r/abcd"), "/r/abcd".to_string(), 7, Err("denied".to_string()), true);
    assert_eq!(error_of(failure.unwrap()), "Error reading metadata for /r/abcd: denied");
    assert_eq!(
        update_of(update.unwrap()),
        (3, vec![("/r/abc".to_string(), 6), ("/r/abcd".to_string(), 7)])
    );
    assert_eq!(scan.next_directory(), Some(PathBuf::from("/r")));
    let (_, update) = scan.entry(PathBuf::from("/r/x"), "/r/x".to_string(), 4, Ok(false), true);
    assert_eq!(update_of(update.unwrap()), (4, vec![]));
    let _ = scan.entry(PathBuf::from("/r/long"), "/r/long".to_string(), 7, Ok(false), false);
    assert_eq!(update_of(scan.report()), (5, vec![("/r/long".to_string(), 7)]));
    assert_eq!(update_of(scan.report()), (5, vec![]));
}

#[test]
fn messages_of_a_scan_and_of_an_export() {
    assert_eq!(
        error_of(directory_failed("/srv/x", "permission denied")),
        "Error reading directory /srv/x: permission denied"
    );
    assert_eq!(
        outcome_of(export_failed(ExportStep::Create, "read-only")),
        Err("Failed to create CSV file: read-only".to_string())
    );
    assert_eq!(
        outcome_of(export_failed(ExportStep::Header, "e")),
        Err("Failed to write CSV header: e".to_string())
    );
    assert_eq!(
        outcome_of(export_failed(ExportStep::Chunk, "disk full")),
        Err("Failed to write CSV chunk: disk full".to_string())
    );
    assert_eq!(
        outcome_of(export_failed(ExportStep::Flush, "e")),
        Err("Failed to flush CSV file: e".to_string())
    );
    assert_eq!(outcome_of(export_cancelled()), Err("Export cancelled".to_string()));
    assert_eq!(
        outcome_of(export_succeeded(1234, "/tmp/report.csv")),
        Ok("Exported 1234 paths to /tmp/report.csv".to_string())
    );
}

#[test]
fn the_report_has_a_row_per_path() {
    assert_eq!(header(), "Length;Path\n");
    let items = vec![item("/a/b", 4), item("C:\\dir\\\"odd\"", 300), item("", 0)];
    assert_eq!(
        csv_chunk(&items, 0, 3),
        "4;\"/a/b\"\n300;\"C:\\\\dir\\\\\"\"odd\"\"\"\n0;\"\"\n"
    );
    assert_eq!(csv_chunk(&items, 1, 2), "300;\"C:\\\\dir\\\\\"\"odd\"\"\"\n");
    assert_eq!(csv_chunk(&items, 2, 2), "");
    assert_eq!(csv_chunks(&items), vec!["4;\"/a/b\"\n300;\"C:\\\\dir\\\\\"\"odd\"\"\"\n0;\"\"\n".to_string()]);
}

#[test]
fn the_report_is_cut_into_chunks_of_a_thousand_rows() {
    assert_eq!(CHUNK_ROWS, 1000);
    assert_eq!(csv_chunks(&Vec::new()), Vec::<String>::new());
    for (count, sizes) in [
        (1usize, vec![1usize]),
        (999, vec![999]),
        (1000, vec![1000]),
        (1001, vec![1000, 1]),
        (2000, vec![1000, 1000]),
        (2500, vec![1000, 1000, 500]),
    ] {
        let items: Vec<OverLimit> = (0..count).map(|i| item("p", i as u64)).collect();
        let chunks = csv_chunks(&items);
        let rows: Vec<usize> = chunks.iter().map(|c| c.matches('\n').count()).collect();
        assert_eq!(rows, sizes);
        let all: String = chunks.concat();
        let expected: String = (0..count).map(|i| format!("{};\"p\"\n", i)).collect();
        assert_eq!(all, expected);
    }
}

#[test]
fn the_page_opens_without_a_scan() {
    let page = PathLengthChecker::new();
    assert!(!page.selecting());
    assert_eq!(page.selected(), &None);
    assert_eq!(page.status(), Status::WaitingForStart);
    assert!(page.paths_over_limit().is_empty());
    assert_eq!(page.scanned(), 0);
    assert_eq!(page.limit_input(), "240");
    assert_eq!(page.limit(), 240);
    assert_eq!(page.scan_limit(), 240);
    assert!(page.errors().is_empty());
    assert!(!page.exporting());
    assert_eq!(page.export_message(), &None);
    assert!(!page.export_success());
    assert!(!page.can_start_scan());
    assert!(!page.can_export());
}

#[test]
fn the_page_follows_a_scan_and_an_export() {
    let mut page = PathLengthChecker::new();
    let _ = page.update(Message::SelectFolder);
    assert!(page.selecting());
    let _ = page.update(Message::SelectedFolder(Some(PathBuf::from("/srv"))));
    assert!(!page.selecting());
    assert_eq!(page.selected(), &Some(PathBuf::from("/srv")));
    assert!(page.can_start_scan());
    let _ = page.update(Message::LimitChanged("12".to_string()));
    assert_eq!(page.limit_input(), "12");
    assert_eq!(page.limit(), 12);
    assert_eq!(page.scan_limit(), 240);
    let _ = page.update(Message::LimitChanged("abc".to_string()));
    assert_eq!(page.limit_input(), "abc");
    assert_eq!(page.limit(), 12);
    let _ = page.update(Message::StartScan);
    assert_eq!(page.status(), Status::Scanning);
    assert_eq!(page.scan_limit(), 12);
    assert!(!page.can_start_scan());
    let _ = page.update(Message::Error("Error reading directory /srv/x: denied".to_string()));
    let _ = page.update(Message::ScanUpdate { now_scanned: 7, new_paths_over_limit: vec![item("/srv/long/path", 14)] });
    assert_eq!(page.scanned(), 7);
    assert_eq!(plain(page.paths_over_limit()), vec![("/srv/long/path".to_string(), 14)]);
    assert_eq!(page.errors(), &vec!["Error reading directory /srv/x: denied".to_string()]);
    assert!(!page.can_export());
    let _ = page.update(Message::ScanComplete);
    assert_eq!(page.status(), Status::Done);
    assert!(page.can_export());
    assert!(page.can_start_scan());
    let _ = page.update(Message::ExportCsv);
    assert!(page.exporting());
    assert!(!page.can_export());
    let _ = page.update(Message::CsvExportComplete(Ok("Exported 1 paths to /tmp/r.csv".to_string())));
    assert!(!page.exporting());
    assert!(page.export_success());
    assert_eq!(page.export_message(), &Some("Exported 1 paths to /tmp/r.csv".to_string()));
    let _ = page.update(Message::CsvExportComplete(Err("Export cancelled".to_string())));
    assert!(!page.export_success());
    assert_eq!(page.export_message(), &Some("Export cancelled".to_string()));
    let _ = page.update(Message::StartScan);
    assert_eq!(page.scanned(), 0);
    assert!(page.paths_over_limit().is_empty());
    assert!(page.errors().is_empty());
    assert_eq!(page.export_message(), &None);
    let _ = page.update(Message::SelectedFolder(Some(PathBuf::from("/other"))));
    assert_eq!(page.status(), Status::WaitingForStart);
}
