use wand_control::conn::http::{
    check_request, OtaAction, OtaEvent, OtaSession, Response, Severity, Stage, UpdateSlot,
    FIRMWARE_DOWNLOAD_CHUNK_SIZE, FIRMWARE_MAX_SIZE, FIRMWARE_MIN_MARGIN,
};

const OCTETS: Option<&str> = Some("application/octet-stream");
const HEADER: usize = 100;

fn refusal(message: &str) -> Response {
    Response { status: 400, severity: Severity::Info, message: String::from(message) }
}

fn started(declared: u64) -> UpdateSlot {
    let mut slot = UpdateSlot::new();
    assert_eq!(slot.begin(Some(declared), OCTETS, HEADER), OtaAction::OpenFlash);
    assert_eq!(slot.advance(OtaEvent::Opened, ""), Some(OtaAction::ReadChunk));
    slot
}

#[test]
fn limits() {
    assert_eq!(FIRMWARE_DOWNLOAD_CHUNK_SIZE, 8192);
    assert_eq!(FIRMWARE_MAX_SIZE, 3_145_728);
    assert_eq!(FIRMWARE_MIN_MARGIN, 1024);
}

#[test]
fn size_below_the_minimum_is_refused() {
    assert_eq!(
        check_request(Some(1123), OCTETS, HEADER),
        Err(refusal("File size 1123 too small - not proceeding!"))
    );
    assert_eq!(
        check_request(Some(0), OCTETS, HEADER),
        Err(refusal("File size 0 too small - not proceeding!"))
    );
    assert_eq!(
        check_request(Some(1023), OCTETS, 0),
        Err(refusal("File size 1023 too small - not proceeding!"))
    );
    assert_eq!(check_request(Some(1124), OCTETS, HEADER), Ok(1124));
    assert_eq!(check_request(Some(1024), OCTETS, 0), Ok(1024));
}

#[test]
fn missing_length_counts_as_zero() {
    assert_eq!(
        check_request(None, OCTETS, HEADER),
        Err(refusal("File size 0 too small - not proceeding!"))
    );
}

#[test]
fn size_above_the_maximum_is_refused() {
    assert_eq!(check_request(Some(3_145_728), OCTETS, HEADER), Ok(3_145_728));
    assert_eq!(
        check_request(Some(3_145_729), OCTETS, HEADER),
        Err(refusal("File size 3145729 too big - not proceeding!"))
    );
    assert_eq!(
        check_request(Some(u64::MAX), OCTETS, HEADER),
        Err(refusal("File size 18446744073709551615 too big - not proceeding!"))
    );
    assert_eq!(
        check_request(Some(4_294_967_296 + 5000), OCTETS, HEADER),
        Err(refusal("File size 4294972296 too big - not proceeding!"))
    );
}

#[test]
fn a_huge_header_refuses_every_size() {
    assert_eq!(
        check_request(Some(3_145_728), OCTETS, usize::MAX),
        Err(refusal("File size 3145728 too small - not proceeding!"))
    );
}

#[test]
fn content_type_must_match_exactly() {
    for kind in [
        None,
        Some(""),
        Some("application/json"),
        Some("Application/Octet-Stream"),
        Some("application/octet-stream; charset=utf-8"),
        Some(" application/octet-stream"),
    ] {
        assert_eq!(
            check_request(Some(5000), kind, HEADER),
            Err(refusal("File Content-Type incorrect - not proceeding!"))
        );
    }
}

#[test]
fn size_is_checked_before_the_content_type() {
    assert_eq!(
        check_request(Some(5), Some("text/plain"), HEADER),
        Err(refusal("File size 5 too small - not proceeding!"))
    );
    assert_eq!(
        check_request(Some(5_000_000), None, HEADER),
        Err(refusal("File size 5000000 too big - not proceeding!"))
    );
}

#[test]
fn refused_request_leaves_the_slot_idle() {
    let mut slot = UpdateSlot::new();
    assert_eq!(
        slot.begin(Some(10), OCTETS, HEADER),
        OtaAction::Reject(refusal("File size 10 too small - not proceeding!"))
    );
    assert_eq!(slot.current(), None);
    assert_eq!(slot.advance(OtaEvent::Opened, ""), None);
    assert_eq!(slot.advance(OtaEvent::Chunk(10), ""), None);
    assert_eq!(slot.advance(OtaEvent::Written, ""), None);
    assert_eq!(slot.current(), None);
}

#[test]
fn admitted_request_opens_a_session() {
    let mut slot = UpdateSlot::new();
    assert_eq!(slot.begin(Some(20000), OCTETS, HEADER), OtaAction::OpenFlash);
    assert_eq!(
        slot.current(),
        Some(OtaSession {
            declared: 20000,
            received: 0,
            header_pending: true,
            chunk: 0,
            stage: Stage::Opening,
        })
    );
}

#[test]
fn whole_upload_completes() {
    let mut slot = started(20000);
    assert_eq!(slot.advance(OtaEvent::Chunk(8192), ""), Some(OtaAction::CheckHeader));
    assert_eq!(slot.current().unwrap().received, 8192);
    assert_eq!(slot.advance(OtaEvent::HeaderAccepted, ""), Some(OtaAction::WriteChunk));
    assert_eq!(slot.advance(OtaEvent::Written, ""), Some(OtaAction::ReadChunk));
    assert_eq!(slot.advance(OtaEvent::Chunk(8192), ""), Some(OtaAction::WriteChunk));
    assert_eq!(slot.advance(OtaEvent::Written, ""), Some(OtaAction::ReadChunk));
    assert_eq!(slot.advance(OtaEvent::Chunk(3616), ""), Some(OtaAction::WriteChunk));
    assert_eq!(
        slot.current(),
        Some(OtaSession {
            declared: 20000,
            received: 20000,
            header_pending: false,
            chunk: 3616,
            stage: Stage::Writing,
        })
    );
    assert_eq!(slot.advance(OtaEvent::Written, ""), Some(OtaAction::Commit));
    assert_eq!(
        slot.advance(OtaEvent::Committed, ""),
        Some(OtaAction::Finish {
            completed: true,
            rollback: false,
            response: Response {
                status: 200,
                severity: Severity::Info,
                message: String::from("OTA update completed!"),
            },
        })
    );
    assert_eq!(slot.current(), None);
}

#[test]
fn stream_one_byte_short_aborts() {
    let mut slot = started(20000);
    assert_eq!(slot.advance(OtaEvent::Chunk(8192), ""), Some(OtaAction::CheckHeader));
    assert_eq!(slot.advance(OtaEvent::HeaderAccepted, ""), Some(OtaAction::WriteChunk));
    assert_eq!(slot.advance(OtaEvent::Written, ""), Some(OtaAction::ReadChunk));
    assert_eq!(slot.advance(OtaEvent::Chunk(8192), ""), Some(OtaAction::WriteChunk));
    assert_eq!(slot.advance(OtaEvent::Written, ""), Some(OtaAction::ReadChunk));
    assert_eq!(slot.advance(OtaEvent::Chunk(3615), ""), Some(OtaAction::WriteChunk));
    assert_eq!(slot.advance(OtaEvent::Written, ""), Some(OtaAction::ReadChunk));
    assert_eq!(
        slot.advance(OtaEvent::Chunk(0), ""),
        Some(OtaAction::Finish {
            completed: false,
            rollback: true,
            response: Response {
                status: 500,
                severity: Severity::Error,
                message: String::from(
                    "was supposed to get 20000 bytes, but only got 19999. aborting update"
                ),
            },
        })
    );
    assert_eq!(slot.current(), None);
    assert_eq!(slot.advance(OtaEvent::Committed, ""), None);
}

#[test]
fn failed_read_aborts_with_the_shortfall() {
    let mut slot = started(5000);
    assert_eq!(
        slot.advance(OtaEvent::ReadFailed, "connection reset"),
        Some(OtaAction::Finish {
            completed: false,
            rollback: true,
            response: Response {
                status: 500,
                severity: Severity::Error,
                message: String::from("was supposed to get 5000 bytes, but only got 0. aborting update"),
            },
        })
    );
    assert_eq!(slot.current(), None);
}

#[test]
fn missing_header_aborts() {
    let mut slot = started(5000);
    assert_eq!(slot.advance(OtaEvent::Chunk(5000), ""), Some(OtaAction::CheckHeader));
    assert_eq!(
        slot.advance(OtaEvent::HeaderRejected, ""),
        Some(OtaAction::Finish {
            completed: false,
            rollback: true,
            response: Response {
                status: 400,
                severity: Severity::Error,
                message: String::from("Failed to get firmware info from sent bytes"),
            },
        })
    );
    assert_eq!(slot.current(), None);
}

#[test]
fn failed_write_aborts() {
    let mut slot = started(5000);
    assert_eq!(slot.advance(OtaEvent::Chunk(100), ""), Some(OtaAction::CheckHeader));
    assert_eq!(slot.advance(OtaEvent::HeaderAccepted, ""), Some(OtaAction::WriteChunk));
    assert_eq!(
        slot.advance(OtaEvent::WriteFailed, "ESP_ERR_FLASH_OP_FAIL"),
        Some(OtaAction::Finish {
            completed: false,
            rollback: true,
            response: Response {
                status: 500,
                severity: Severity::Error,
                message: String::from("Failed to write to the OTA: ESP_ERR_FLASH_OP_FAIL"),
            },
        })
    );
    assert_eq!(slot.current(), None);
}

#[test]
fn failed_open_ends_the_session_without_rollback() {
    let mut slot = UpdateSlot::new();
    assert_eq!(slot.begin(Some(5000), OCTETS, HEADER), OtaAction::OpenFlash);
    assert_eq!(
        slot.advance(OtaEvent::OpenFailed, "no update partition"),
        Some(OtaAction::Finish {
            completed: false,
            rollback: false,
            response: Response {
                status: 500,
                severity: Severity::Error,
                message: String::from("no update partition"),
            },
        })
    );
    assert_eq!(slot.current(), None);
}

#[test]
fn failed_commit_is_reported() {
    let mut slot = started(2000);
    assert_eq!(slot.advance(OtaEvent::Chunk(2000), ""), Some(OtaAction::CheckHeader));
    assert_eq!(slot.advance(OtaEvent::HeaderAccepted, ""), Some(OtaAction::WriteChunk));
    assert_eq!(slot.advance(OtaEvent::Written, ""), Some(OtaAction::Commit));
    assert_eq!(
        slot.advance(OtaEvent::CommitFailed, "image invalid"),
        Some(OtaAction::Finish {
            completed: false,
            rollback: false,
            response: Response {
                status: 500,
                severity: Severity::Error,
                message: String::from("image invalid"),
            },
        })
    );
    assert_eq!(slot.current(), None);
}

#[test]
fn more_than_declared_still_completes() {
    let mut slot = started(2000);
    assert_eq!(slot.advance(OtaEvent::Chunk(2500), ""), Some(OtaAction::CheckHeader));
    assert_eq!(slot.advance(OtaEvent::HeaderAccepted, ""), Some(OtaAction::WriteChunk));
    assert_eq!(slot.advance(OtaEvent::Written, ""), Some(OtaAction::Commit));
    assert_eq!(slot.current().unwrap().received, 2500);
}

#[test]
fn second_request_finds_the_slot_busy() {
    let mut slot = started(20000);
    assert_eq!(slot.advance(OtaEvent::Chunk(8192), ""), Some(OtaAction::CheckHeader));
    let before = slot.current();
    assert_eq!(
        slot.begin(Some(9000), OCTETS, HEADER),
        OtaAction::Reject(Response {
            status: 503,
            severity: Severity::Info,
            message: String::from("OTA session busy - not proceeding!"),
        })
    );
    assert_eq!(slot.current(), before);
    assert_eq!(
        slot.begin(Some(1), OCTETS, HEADER),
        OtaAction::Reject(refusal("File size 1 too small - not proceeding!"))
    );
    assert_eq!(slot.current(), before);
    assert_eq!(slot.advance(OtaEvent::HeaderAccepted, ""), Some(OtaAction::WriteChunk));
    assert_eq!(slot.current().unwrap().received, 8192);
}

#[test]
fn slot_is_free_again_after_a_session() {
    let mut slot = started(5000);
    assert!(slot.advance(OtaEvent::ReadFailed, "").is_some());
    assert_eq!(slot.begin(Some(6000), OCTETS, HEADER), OtaAction::OpenFlash);
    assert_eq!(slot.current().unwrap().declared, 6000);
    assert_eq!(slot.current().unwrap().received, 0);
}

#[test]
fn events_out_of_turn_change_nothing() {
    let mut slot = started(5000);
    let before = slot.current();
    for event in [
        OtaEvent::Opened,
        OtaEvent::OpenFailed,
        OtaEvent::HeaderAccepted,
        OtaEvent::HeaderRejected,
        OtaEvent::Written,
        OtaEvent::WriteFailed,
        OtaEvent::Committed,
        OtaEvent::CommitFailed,
    ] {
        assert_eq!(slot.advance(event, "x"), None);
        assert_eq!(slot.current(), before);
    }
    assert_eq!(slot.advance(OtaEvent::Chunk(10), ""), Some(OtaAction::CheckHeader));
    let before = slot.current();
    for event in [OtaEvent::Chunk(5), OtaEvent::Chunk(0), OtaEvent::ReadFailed, OtaEvent::Written, OtaEvent::Committed] {
        assert_eq!(slot.advance(event, "x"), None);
        assert_eq!(slot.current(), before);
    }
}

#[test]
fn nothing_is_written_before_the_header_is_found() {
    let mut slot = started(5000);
    let action = slot.advance(OtaEvent::Chunk(1), "");
    assert_eq!(action, Some(OtaAction::CheckHeader));
    assert_eq!(slot.advance(OtaEvent::Written, ""), None);
    assert!(slot.current().unwrap().header_pending);
}

#[test]
fn byte_count_stops_at_the_largest_number() {
    let mut slot = started(5000);
    assert_eq!(slot.advance(OtaEvent::Chunk(usize::MAX), ""), Some(OtaAction::CheckHeader));
    assert_eq!(slot.advance(OtaEvent::HeaderAccepted, ""), Some(OtaAction::WriteChunk));
    assert_eq!(slot.advance(OtaEvent::Written, ""), Some(OtaAction::Commit));
}
