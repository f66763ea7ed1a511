use nocopush::UploadOutcome;
use nocopush::plan_upload;
use nocopush::run_pool;

fn ok() -> UploadOutcome {
    UploadOutcome::Accepted { ids: vec![1] }
}

fn server_error() -> UploadOutcome {
    UploadOutcome::Rejected { status: 500, body: "internal error".to_string() }
}

#[test]
fn large_file_three_chunks_all_succeed() {
    let mut text = String::from("name,value\n");
    for i in 0..2500 {
        text.push_str(&format!("row{},{}\n", i, i));
    }
    let bytes = text.into_bytes();
    let plan = plan_upload(&bytes, false, ',', '"', 1000).unwrap();
    assert_eq!(plan.total_rows, 2500);
    assert_eq!(plan.chunks.len(), 3);
    assert_eq!(plan.chunks[0].len(), 1000);
    assert_eq!(plan.chunks[1].len(), 1000);
    assert_eq!(plan.chunks[2].len(), 500);
    assert_eq!(plan.skipped, 0);

    let outcomes: Vec<UploadOutcome> = (0..plan.chunks.len()).map(|_| ok()).collect();
    let report = run_pool(&outcomes, 4);
    assert!(report.result.is_ok());
    assert_eq!(report.completed, 3);
    assert_eq!(report.attempted, 3);
}

#[test]
fn malformed_row_is_skipped_and_run_succeeds() {
    let mut text = String::from("a,b\n");
    for i in 0..10 {
        if i == 4 {
            text.push_str("\"broken,row\n");
        } else {
            text.push_str(&format!("x{},y{}\n", i, i));
        }
    }
    let bytes = text.into_bytes();
    let plan = plan_upload(&bytes, false, ',', '"', 10).unwrap();
    assert_eq!(plan.skipped, 1);
    assert_eq!(plan.total_rows, 9);
    assert_eq!(plan.chunks.len(), 1);
    assert_eq!(plan.chunks[0].len(), 9);

    let outcomes = vec![ok()];
    let report = run_pool(&outcomes, 4);
    assert!(report.result.is_ok());
    assert_eq!(report.completed, 1);
}

#[test]
fn endpoint_rejecting_everything_fails_the_run() {
    let mut text = String::from("h\n");
    for i in 0..10 {
        text.push_str(&format!("v{}\n", i));
    }
    let bytes = text.into_bytes();
    let plan = plan_upload(&bytes, false, ',', '"', 2).unwrap();
    assert_eq!(plan.chunks.len(), 5);

    let outcomes: Vec<UploadOutcome> = (0..5).map(|_| server_error()).collect();
    let report = run_pool(&outcomes, 2);
    let e = report.result.unwrap_err();
    assert_eq!(e.status, 500);
    assert!(report.completed < 5);
    // at most ceil(5 / 2) dispatch rounds
    assert!(report.rounds <= 3);
}

#[test]
fn windows_encoded_file_decodes() {
    let mut bytes: Vec<u8> = Vec::new();
    bytes.extend_from_slice(b"name\n");
    bytes.push(0xE9);
    bytes.push(b'\n');
    let plan = plan_upload(&bytes, true, ',', '"', 10).unwrap();
    assert_eq!(plan.total_rows, 1);
    assert_eq!(plan.chunks[0][0][0], "\u{e9}");
}
