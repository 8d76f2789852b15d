//! The supervised patcher's event decoding and exit disposition.

use beans_rs::error::BeansError;
use beans_rs::supervisor::{
    completion_event, decode_patcher_line, exit_disposition, ProcessEvent,
};

#[test]
fn progress_line_then_clean_exit() {
    // one decodable line, then exit code zero: exactly one progress
    // event, then exactly one completion event
    let lines = ["{\"type\":\"progress\",\"bps\":2048,\"eta\":5,\"progress\":50,\"time\":17}"];
    let mut events: Vec<ProcessEvent> = Vec::new();
    for line in lines.iter() {
        if let Some(ev) = decode_patcher_line(line) {
            events.push(ev);
        }
    }
    events.push(completion_event(Some(0)));
    assert_eq!(events.len(), 2);
    match &events[0] {
        ProcessEvent::ProgressSample {
            bps,
            eta,
            progress,
            time,
        } => {
            assert_eq!(*bps, 2048);
            assert_eq!(*eta, 5);
            assert_eq!(*progress, 50);
            assert_eq!(*time, 17);
        }
        other => panic!("expected a progress sample, got {:?}", other),
    }
    match &events[1] {
        ProcessEvent::Completion { exit_status } => assert_eq!(*exit_status, Some(0)),
        other => panic!("expected the completion event, got {:?}", other),
    }
    assert!(exit_disposition(Some(0)).is_ok());
}

#[test]
fn invalid_line_is_skipped_without_breaking_the_stream() {
    let lines = [
        "verifying chunk 4 of 911",
        "{\"type\":\"progress\",\"bps\":1,\"eta\":2,\"progress\":3,\"time\":4}",
        "{not json at all",
    ];
    let mut events: Vec<ProcessEvent> = Vec::new();
    for line in lines.iter() {
        if let Some(ev) = decode_patcher_line(line) {
            events.push(ev);
        }
    }
    events.push(completion_event(Some(0)));
    assert_eq!(events.len(), 2);
    assert!(matches!(events[0], ProcessEvent::ProgressSample { .. }));
    assert!(matches!(
        events[1],
        ProcessEvent::Completion {
            exit_status: Some(0)
        }
    ));
}

#[test]
fn log_line_decodes_with_its_message() {
    let line = "{\"type\":\"log\",\"level\":2,\"message\":\"healing 3 files\",\"time\":99}";
    match decode_patcher_line(line) {
        Some(ProcessEvent::LogLine {
            level,
            message,
            time,
        }) => {
            assert_eq!(level, 2);
            assert_eq!(message, "healing 3 files");
            assert_eq!(time, 99);
        }
        other => panic!("expected a log event, got {:?}", other),
    }
}

#[test]
fn decoder_rejects_near_misses() {
    // missing closing brace
    assert!(decode_patcher_line(
        "{\"type\":\"progress\",\"bps\":1,\"eta\":2,\"progress\":3,\"time\":4"
    )
    .is_none());
    // non-canonical number
    assert!(decode_patcher_line(
        "{\"type\":\"progress\",\"bps\":01,\"eta\":2,\"progress\":3,\"time\":4}"
    )
    .is_none());
    // trailing content
    assert!(decode_patcher_line(
        "{\"type\":\"progress\",\"bps\":1,\"eta\":2,\"progress\":3,\"time\":4} "
    )
    .is_none());
    // wrong discriminator
    assert!(decode_patcher_line(
        "{\"type\":\"done\",\"bps\":1,\"eta\":2,\"progress\":3,\"time\":4}"
    )
    .is_none());
    // unterminated message
    assert!(
        decode_patcher_line("{\"type\":\"log\",\"level\":2,\"message\":\"oops,\"time\":99}")
            .is_none()
    );
}

#[test]
fn nonzero_exit_is_fatal_and_not_retried() {
    // a child exiting with code 5 makes the supervised call fail; the
    // disposition is the same on every evaluation (no retry path exists)
    let first = exit_disposition(Some(5));
    match first {
        Err(BeansError::ProcessNonzeroExitCode { exit_code }) => {
            assert_eq!(exit_code, Some(5));
        }
        other => panic!("expected a fatal nonzero-exit error, got {:?}", other.map(|_| ())),
    }
    let second = exit_disposition(Some(5));
    assert!(second.is_err());
}

#[test]
fn missing_exit_code_is_fatal() {
    assert!(matches!(
        exit_disposition(None),
        Err(BeansError::ProcessNonzeroExitCode { exit_code: None })
    ));
}

#[test]
fn completion_event_carries_the_exit_status() {
    assert!(matches!(
        completion_event(Some(5)),
        ProcessEvent::Completion {
            exit_status: Some(5)
        }
    ));
    assert!(matches!(
        completion_event(None),
        ProcessEvent::Completion { exit_status: None }
    ));
}
