use can_flasher::crc::crc32;
use can_flasher::logfs_client::{
    ack_matches_request, acknowledged_body, classify_send, close_outcome, failed, failed_with,
    no_data_error, retry_backoff_ms, stalled_error, FinishStep, LostStep, OpenedFile, PullError,
    PullState, ReadStep, Reply, SendError, SendStep, Sent, CRC_SESSION_LOST, MAX_STALLED_RESYNCS,
    OPEN_SESSION_LOST,
};

fn opened(size: u32, crc: u32, deferred: bool) -> OpenedFile {
    OpenedFile {
        handle: 7,
        size,
        crc32: crc,
        crc_deferred: deferred,
    }
}

fn failure_text(step: SendStep) -> String {
    match step {
        SendStep::Done(Sent::Failed(m)) => m,
        other => panic!("expected a failure, got {other:?}"),
    }
}

fn error_text(e: PullError) -> String {
    match e {
        PullError::Failed(m) => m,
        PullError::Cancelled => panic!("expected a failure, got Cancelled"),
    }
}

#[test]
fn retry_sends_at_most_three_times_with_linear_backoff() {
    assert_eq!(retry_backoff_ms(1), Some(60));
    assert_eq!(retry_backoff_ms(2), Some(120));
    assert_eq!(retry_backoff_ms(3), None);
    assert_eq!(retry_backoff_ms(4), None);
}

#[test]
fn ack_must_echo_the_request_opcode() {
    assert!(ack_matches_request(&[0x40, 1, 2], 0x40));
    assert!(!ack_matches_request(&[0x40, 1, 2], 0x41));
    assert!(ack_matches_request(&[], 0x41));
}

#[test]
fn error_messages() {
    assert_eq!(PullError::Cancelled.message(), "cancelled by operator");
    let e = failed("LOGFS_OPEN rejected".to_string());
    assert_eq!(e.message(), "LOGFS_OPEN rejected");
    assert!(matches!(e, PullError::Failed(_)));
    let e = failed_with("parse LOGFS_OPEN", "short body");
    assert_eq!(error_text(e), "parse LOGFS_OPEN: short body");
}

#[test]
fn a_matching_ack_answers_with_its_body() {
    let step = classify_send(
        &[0x40, 1],
        "LOGFS_READ",
        1,
        Ok(Reply::Ack {
            opcode: 0x40,
            payload: vec![9, 8, 7],
        }),
    );
    match step {
        SendStep::Done(Sent::Ack(body)) => assert_eq!(body, vec![9, 8, 7]),
        other => panic!("expected Ack, got {other:?}"),
    }
}

#[test]
fn an_ack_for_another_opcode_fails() {
    let step = classify_send(
        &[0x40, 1],
        "LOGFS_READ",
        1,
        Ok(Reply::Ack {
            opcode: 0x4A,
            payload: vec![],
        }),
    );
    assert_eq!(
        failure_text(step),
        "reply to LOGFS_READ echoes opcode 0x4A, expected 0x40 — replies are out of step with requests"
    );
}

#[test]
fn bad_session_is_a_lost_session_and_other_nacks_fail() {
    let lost = classify_send(
        &[0x41],
        "LOGFS_OPEN",
        2,
        Ok(Reply::Nack {
            rejected_opcode: 0x41,
            bad_session: true,
            code: "BAD_SESSION".to_string(),
        }),
    );
    assert!(matches!(lost, SendStep::Done(Sent::SessionLost)));
    let nack = classify_send(
        &[0x41],
        "LOGFS_OPEN",
        1,
        Ok(Reply::Nack {
            rejected_opcode: 0x0B,
            bad_session: false,
            code: "OUT_OF_RANGE".to_string(),
        }),
    );
    assert_eq!(
        failure_text(nack),
        "device NACK'd LOGFS_OPEN (opcode 0x0B): OUT_OF_RANGE"
    );
}

#[test]
fn another_reply_kind_fails() {
    let step = classify_send(
        &[0x42],
        "LOGFS_CRC",
        1,
        Ok(Reply::Other {
            kind: "Log".to_string(),
        }),
    );
    assert_eq!(failure_text(step), "unexpected reply to LOGFS_CRC: Log");
}

#[test]
fn transient_errors_retry_then_give_up() {
    let first = classify_send(&[0x40], "LOGFS_READ", 1, Err(SendError::Timeout("timed out".to_string())));
    assert!(matches!(
        first,
        SendStep::Retry {
            delay_ms: 60,
            next_attempt: 2
        }
    ));
    let second = classify_send(&[0x40], "LOGFS_READ", 2, Err(SendError::Transport("bus off".to_string())));
    assert!(matches!(
        second,
        SendStep::Retry {
            delay_ms: 120,
            next_attempt: 3
        }
    ));
    let third = classify_send(&[0x40], "LOGFS_READ", 3, Err(SendError::Timeout("timed out".to_string())));
    assert_eq!(failure_text(third), "LOGFS_READ: timed out");
}

#[test]
fn other_errors_fail_at_once() {
    let step = classify_send(&[0x40], "LOGFS_READ", 1, Err(SendError::Other("closed".to_string())));
    assert_eq!(failure_text(step), "LOGFS_READ: closed");
}

#[test]
fn acknowledged_commands_fail_on_a_lost_session() {
    assert_eq!(acknowledged_body(Sent::Ack(vec![1, 2]), OPEN_SESSION_LOST).unwrap(), vec![1, 2]);
    assert_eq!(
        error_text(acknowledged_body(Sent::SessionLost, OPEN_SESSION_LOST).unwrap_err()),
        "LOGFS_OPEN rejected with BAD_SESSION — the diag session is not open"
    );
    assert_eq!(
        error_text(acknowledged_body(Sent::SessionLost, CRC_SESSION_LOST).unwrap_err()),
        "session dropped before CRC verification; retry the pull"
    );
    assert_eq!(
        error_text(acknowledged_body(Sent::Failed("boom".to_string()), CRC_SESSION_LOST).unwrap_err()),
        "boom"
    );
}

#[test]
fn close_only_fails_on_a_failure() {
    assert!(close_outcome(Sent::Ack(vec![])).is_ok());
    assert!(close_outcome(Sent::SessionLost).is_ok());
    assert_eq!(
        error_text(close_outcome(Sent::Failed("nope".to_string())).unwrap_err()),
        "nope"
    );
}

#[test]
fn failure_texts_carry_their_numbers() {
    assert_eq!(
        error_text(no_data_error(3)),
        "LOGFS_READ returned no data before EOF at offset 3"
    );
    assert_eq!(
        error_text(stalled_error(1024, 4096)),
        "session dropped mid-pull and did not hold after 5 reconnect(s) with no progress \
         (stuck at 1024/4096 B) — the bus is too busy to finish"
    );
}

#[test]
fn a_clean_pull_reads_to_eof_and_verifies() {
    let body = b"hello, log file";
    let mut st = PullState::new(3, true, opened(body.len() as u32, crc32(body), false));
    assert_eq!(st.on_read_ack(&body[..5], false), ReadStep::Continue);
    assert_eq!(st.offset, 5);
    assert_eq!(st.on_read_ack(&body[5..], true), ReadStep::Finished);
    assert_eq!(st.offset, body.len() as u32);
    let want = match st.after_transfer() {
        FinishStep::CompareCrc { want } => want,
        other => panic!("expected CompareCrc, got {other:?}"),
    };
    let closing = st.conclude(Some(want));
    assert_eq!(closing.handle, 7);
    let res = closing.outcome.ok().unwrap();
    assert_eq!(res.data, body.to_vec());
    assert!(res.crc_verified);
}

#[test]
fn cancelling_closes_the_handle_and_ends_cancelled() {
    let mut st = PullState::new(0, true, opened(0, 0, false));
    st.on_read_ack(b"abc", false);
    let closing = st.on_cancel();
    assert_eq!(closing.handle, 7);
    assert!(matches!(closing.outcome, Err(PullError::Cancelled)));
}

#[test]
fn no_data_before_eof_fails() {
    let mut st = PullState::new(0, false, opened(0, 0, false));
    assert_eq!(st.on_read_ack(b"abc", false), ReadStep::Continue);
    assert_eq!(
        st.on_read_ack(&[], false),
        ReadStep::NoDataBeforeEof { offset: 3 }
    );
}

#[test]
fn progress_clears_the_stall_counter() {
    let mut st = PullState::new(0, false, opened(0, 0, false));
    for _ in 0..MAX_STALLED_RESYNCS {
        assert_eq!(st.on_session_lost(), LostStep::Resync);
    }
    st.on_reopened(opened(0, 0, false));
    // One byte of progress and the budget is whole again.
    assert_eq!(st.on_read_ack(b"x", false), ReadStep::Continue);
    assert_eq!(st.stalled_resyncs, 0);
    for _ in 0..MAX_STALLED_RESYNCS {
        assert_eq!(st.on_session_lost(), LostStep::Resync);
    }
    assert_eq!(
        st.on_session_lost(),
        LostStep::GiveUp { offset: 1, size: 0 }
    );
}

#[test]
fn an_empty_reply_is_not_progress() {
    let mut st = PullState::new(0, false, opened(0, 0, false));
    assert_eq!(st.on_session_lost(), LostStep::Resync);
    assert_eq!(st.on_read_ack(&[], true), ReadStep::Finished);
    assert_eq!(st.stalled_resyncs, 1);
}

#[test]
fn resync_resumes_at_the_same_offset_with_the_new_handle() {
    let mut st = PullState::new(1, false, opened(6, 0, false));
    st.on_read_ack(b"abc", false);
    assert_eq!(st.on_session_lost(), LostStep::Resync);
    let mut again = opened(6, 0, false);
    again.handle = 9;
    st.on_reopened(again);
    assert_eq!(st.offset, 3);
    assert_eq!(st.open.handle, 9);
    st.on_read_ack(b"def", true);
    assert_eq!(st.data, b"abcdef".to_vec());
    assert!(matches!(st.after_transfer(), FinishStep::Unverified));
    let closing = st.conclude(None);
    assert_eq!(closing.handle, 9);
    let res = closing.outcome.ok().unwrap();
    assert!(!res.crc_verified);
}

#[test]
fn size_mismatch_closes_then_fails() {
    let mut st = PullState::new(0, true, opened(10, 0, false));
    st.on_read_ack(b"abc", true);
    match st.after_transfer() {
        FinishStep::Close(c) => {
            assert_eq!(c.handle, 7);
            assert_eq!(
                error_text(c.outcome.err().unwrap()),
                "size mismatch: OPEN said 10 B, transfer produced 3 B"
            );
        }
        other => panic!("expected Close, got {other:?}"),
    }
}

#[test]
fn deferred_crc_is_fetched_and_mismatch_reported() {
    let mut st = PullState::new(0, true, opened(0, 0, true));
    st.on_read_ack(b"abc", true);
    assert!(matches!(st.after_transfer(), FinishStep::FetchCrc { handle: 7 }));
    let got = crc32(b"abc");
    let closing = st.conclude(Some(got ^ 1));
    assert_eq!(closing.handle, 7);
    match closing.outcome {
        Err(e) => assert_eq!(
            error_text(e),
            format!("CRC mismatch: node says 0x{:08X}, received bytes are 0x{got:08X}", got ^ 1)
        ),
        Ok(_) => panic!("a wrong CRC must not verify"),
    }
}

#[test]
fn crc_mismatch_text_is_upper_case_zero_padded() {
    let mut st = PullState::new(0, true, opened(0, 0, true));
    st.on_read_ack(b"abc", true);
    let got = crc32(b"abc");
    assert_eq!(got, 0x352441C2);
    match st.conclude(Some(0xABCD)).outcome {
        Err(e) => assert_eq!(
            error_text(e),
            "CRC mismatch: node says 0x0000ABCD, received bytes are 0x352441C2"
        ),
        Ok(_) => panic!("a wrong CRC must not verify"),
    }
}
