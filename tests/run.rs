use kliento::batch::Batch;
use kliento::upload::{Config, UploadRun, UploadState};

#[test]
fn no_records_are_rejected_without_sending() {
    let run = UploadRun::start(0, 5);
    assert!(matches!(run.state, UploadState::Rejected));
    assert_eq!(run.pending_batch(), None);
    assert_eq!(run.attempted, 0);
}

#[test]
fn refused_second_batch_aborts_the_run() {
    let mut run = UploadRun::start(13, 5);
    assert_eq!(run.pending_batch(), Some(Batch { start: 0, end: 5, sequence_number: 1 }));
    run.record_response(true, String::new());
    assert_eq!(run.pending_batch(), Some(Batch { start: 5, end: 10, sequence_number: 2 }));
    run.record_response(false, "HTTP 500: internal error".to_string());
    match &run.state {
        UploadState::Aborted { error } => assert_eq!(error, "HTTP 500: internal error"),
        _ => panic!("run should be aborted"),
    }
    assert_eq!(run.pending_batch(), None);
    assert_eq!(run.attempted, 2);
}

#[test]
fn accepted_batches_complete_the_run() {
    let mut run = UploadRun::start(13, 5);
    assert_eq!(run.last_sequence_number(), 3);
    let mut sent = Vec::new();
    while let Some(b) = run.pending_batch() {
        sent.push(b);
        run.record_response(true, String::new());
    }
    assert!(matches!(run.state, UploadState::Completed));
    assert_eq!(sent.len(), 3);
    assert_eq!(sent[2], Batch { start: 10, end: 13, sequence_number: 3 });
    assert_eq!(run.attempted, 3);
}

#[test]
fn authorization_header_carries_token() {
    let config = Config {
        url: "http://localhost/upload".to_string(),
        token: "abc.def".to_string(),
        batch_size: 500,
        timeout: 60,
    };
    assert_eq!(config.authorization(), "Bearer abc.def");
}
