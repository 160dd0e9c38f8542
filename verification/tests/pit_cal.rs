use can_flasher::can_frame::CanFrame;
use can_flasher::crc::crc32;
use can_flasher::pit_diag::ecu::EcuCalStatus;
use can_flasher::pit_cal::{
    build_command, cal_crc32, decode_frame, validation_messages, CalAppsFrame, CalBrakeFrame,
    CalCommand, CalFrame, CalLoad, CalPoint, CalResult, CalSessionState, ReadKind,
    CAL_ALL_POINTS_MASK, CAL_APPS_ID, CAL_BRAKE_ID, CAL_CMD_ID, CAL_FLAG_APPS1_SPAN_TOO_SMALL,
    CAL_FLAG_BRAKE_ORDER, CAL_FLAG_OUT_OF_ADC_RANGE, CAL_GUARD_MAGIC, CAL_STATUS_ID,
};

#[test]
fn enter_and_reset_carry_the_magic() {
    for cmd in [CalCommand::Enter, CalCommand::ResetDefaults] {
        let f = build_command(cmd, None, None);
        assert_eq!(f.id, CAL_CMD_ID);
        let p = f.payload();
        assert_eq!(p[0], cmd.as_byte());
        assert_eq!(
            u32::from_be_bytes([p[4], p[5], p[6], p[7]]),
            CAL_GUARD_MAGIC,
            "{cmd:?} must be guarded"
        );
    }
}

#[test]
fn unguarded_commands_send_zero() {
    for cmd in [
        CalCommand::Poll,
        CalCommand::Capture,
        CalCommand::ReadStored,
        CalCommand::ReadStaged,
        CalCommand::Abort,
    ] {
        let f = build_command(cmd, None, None);
        let p = f.payload();
        assert_eq!(u32::from_be_bytes([p[4], p[5], p[6], p[7]]), 0, "{cmd:?}");
    }
}

#[test]
fn capture_carries_the_point_in_arg() {
    let f = build_command(CalCommand::Capture, Some(CalPoint::AppsMid), None);
    let p = f.payload();
    assert_eq!(p[0], 2);
    assert_eq!(p[1], 5, "APPS_MID is arg 5");
}

fn shipped_apps() -> CalAppsFrame {
    CalAppsFrame {
        apps1_min: 2490,
        apps1_max: 3350,
        apps2_min: 2345,
        apps2_max: 3025,
    }
}

fn shipped_brake() -> CalBrakeFrame {
    CalBrakeFrame {
        brake_rest: 580,
        brake_arm: 750,
        brake_dv_hard: 2500,
        brake_pressed: 3000,
    }
}

#[test]
fn commit_carries_a_crc_of_the_staged_set() {
    let apps = CalAppsFrame {
        apps1_min: 2490,
        apps1_max: 3350,
        apps2_min: 2345,
        apps2_max: 3025,
    };
    let brake = CalBrakeFrame {
        brake_rest: 580,
        brake_arm: 750,
        brake_dv_hard: 2500,
        brake_pressed: 3000,
    };
    let crc = cal_crc32(&apps, &brake);

    let f = build_command(CalCommand::Commit, None, Some((&apps, &brake)));
    let p = f.payload();
    assert_eq!(
        u32::from_be_bytes([p[4], p[5], p[6], p[7]]),
        crc,
        "COMMIT carries the CRC, not the magic"
    );
    assert_ne!(crc, CAL_GUARD_MAGIC);

    let mut other = apps;
    other.apps1_min += 1;
    assert_ne!(cal_crc32(&other, &brake), crc);
    let mut other_brake = brake;
    other_brake.brake_pressed -= 1;
    assert_ne!(cal_crc32(&apps, &other_brake), crc);
}

#[test]
fn crc_matches_the_firmware_implementation() {
    let apps = CalAppsFrame {
        apps1_min: 2490,
        apps1_max: 3350,
        apps2_min: 2345,
        apps2_max: 3025,
    };
    let brake = CalBrakeFrame {
        brake_rest: 580,
        brake_arm: 750,
        brake_dv_hard: 2500,
        brake_pressed: 3000,
    };
    assert_eq!(cal_crc32(&apps, &brake), 1_833_724_637);
    assert_eq!(
        cal_crc32(&CalAppsFrame::default(), &CalBrakeFrame::default()),
        2_286_516_652
    );
}

#[test]
fn crc32_variant_is_iso_hdlc() {
    fn reference_crc32(data: &[u8]) -> u32 {
        let mut crc: u32 = 0xFFFF_FFFF;
        for b in data {
            crc ^= u32::from(*b);
            for _ in 0..8 {
                crc = if crc & 1 != 0 {
                    (crc >> 1) ^ 0xEDB8_8320
                } else {
                    crc >> 1
                };
            }
        }
        crc ^ 0xFFFF_FFFF
    }
    assert_eq!(reference_crc32(b"123456789"), 0xCBF4_3926);
}

#[test]
fn library_crc32_check_value() {
    assert_eq!(crc32(b"123456789"), 0xCBF4_3926);
    assert_eq!(crc32(b""), 0);
}

#[test]
fn commit_without_a_staged_set_sends_zero() {
    let f = build_command(CalCommand::Commit, None, None);
    let p = f.payload();
    assert_eq!(p, &[5, 0, 0, 0, 0, 0, 0, 0]);
}

#[test]
fn commit_frame_is_byte_exact() {
    let apps = shipped_apps();
    let brake = shipped_brake();
    let f = build_command(CalCommand::Commit, Some(CalPoint::BrakeRest), Some((&apps, &brake)));
    let crc = 1_833_724_637u32.to_be_bytes();
    assert_eq!(f.payload(), &[5, 3, 0, 0, crc[0], crc[1], crc[2], crc[3]]);
}

#[test]
fn every_single_value_change_moves_the_crc() {
    let base = cal_crc32(&shipped_apps(), &shipped_brake());
    for k in 0..8 {
        let mut a = shipped_apps();
        let mut b = shipped_brake();
        let field = match k {
            0 => &mut a.apps1_min,
            1 => &mut a.apps1_max,
            2 => &mut a.apps2_min,
            3 => &mut a.apps2_max,
            4 => &mut b.brake_rest,
            5 => &mut b.brake_arm,
            6 => &mut b.brake_dv_hard,
            _ => &mut b.brake_pressed,
        };
        *field ^= 0x8001;
        assert_ne!(cal_crc32(&a, &b), base, "field {k}");
    }
}

#[test]
fn pit_cal_status_decodes() {
    let p = [1, 2, 0, 0b0000_0111, 0, 1];
    match decode_frame(&CanFrame::new(CAL_STATUS_ID, &p).unwrap()).unwrap() {
        CalFrame::Status(s) => {
            assert_eq!(s.session_state, CalSessionState::Active);
            assert_eq!(s.last_cmd, CalCommand::Capture.as_byte());
            assert_eq!(s.result, CalResult::Accepted);
            assert!(!s.result.is_error());
            assert_eq!(s.cal_load, CalLoad::Loaded);
            assert!(!s.cal_load.is_fallback());
            assert!(!s.all_points_captured());
            assert_eq!(
                s.missing_points(),
                vec![CalPoint::AppsMid, CalPoint::BrakePressed]
            );
            assert_eq!(s.pending_read(), None);
        }
        other => panic!("expected Status, got {other:?}"),
    }
}

#[test]
fn status_flags_a_complete_capture_set() {
    let p = [1, 2, 0, CAL_ALL_POINTS_MASK, 0, 0];
    match decode_frame(&CanFrame::new(CAL_STATUS_ID, &p).unwrap()).unwrap() {
        CalFrame::Status(s) => {
            assert!(s.all_points_captured());
            assert!(s.missing_points().is_empty());
            assert_eq!(s.cal_load, CalLoad::Defaults);
            assert!(s.cal_load.is_fallback());
        }
        other => panic!("expected Status, got {other:?}"),
    }
}

#[test]
fn pending_read_distinguishes_stored_from_staged() {
    let mk = |last_cmd: u8| {
        let p = [1, last_cmd, 0, 0, 0, 1];
        match decode_frame(&CanFrame::new(CAL_STATUS_ID, &p).unwrap()).unwrap() {
            CalFrame::Status(s) => s,
            other => panic!("expected Status, got {other:?}"),
        }
    };
    assert_eq!(
        mk(CalCommand::ReadStored.as_byte()).pending_read(),
        Some(ReadKind::Stored)
    );
    assert_eq!(
        mk(CalCommand::ReadStaged.as_byte()).pending_read(),
        Some(ReadKind::Staged)
    );
    assert_eq!(mk(CalCommand::Poll.as_byte()).pending_read(), None);
}

#[test]
fn apps_and_brake_decode_big_endian() {
    let p = [0x09, 0xBA, 0x0D, 0x16, 0x09, 0x29, 0x0B, 0xD1];
    match decode_frame(&CanFrame::new(CAL_APPS_ID, &p).unwrap()).unwrap() {
        CalFrame::Apps(a) => {
            assert_eq!(a.apps1_min, 2490);
            assert_eq!(a.apps1_max, 3350);
            assert_eq!(a.apps2_min, 2345);
            assert_eq!(a.apps2_max, 3025);
        }
        other => panic!("expected Apps, got {other:?}"),
    }
    let p = [0x02, 0x44, 0x02, 0xEE, 0x09, 0xC4, 0x0B, 0xB8];
    match decode_frame(&CanFrame::new(CAL_BRAKE_ID, &p).unwrap()).unwrap() {
        CalFrame::Brake(b) => {
            assert_eq!(b.brake_rest, 580);
            assert_eq!(b.brake_arm, 750);
            assert_eq!(b.brake_dv_hard, 2500);
            assert_eq!(b.brake_pressed, 3000);
        }
        other => panic!("expected Brake, got {other:?}"),
    }
}

#[test]
fn pit_cal_short_frames_and_foreign_ids_reject() {
    assert!(decode_frame(&CanFrame::new(CAL_STATUS_ID, &[1, 2, 0, 0, 0]).unwrap()).is_none());
    assert!(decode_frame(&CanFrame::new(CAL_APPS_ID, &[0; 7]).unwrap()).is_none());
    assert!(decode_frame(&CanFrame::new(CAL_BRAKE_ID, &[0; 7]).unwrap()).is_none());
    assert!(decode_frame(&CanFrame::new(0x7E0, &[0; 8]).unwrap()).is_none());
    assert!(decode_frame(&CanFrame::new(0x700, &[0; 8]).unwrap()).is_none());
}

#[test]
fn unknown_status_bytes_pass_through() {
    let p = [9, 7, 200, 0, 0, 42];
    match decode_frame(&CanFrame::new(CAL_STATUS_ID, &p).unwrap()).unwrap() {
        CalFrame::Status(s) => {
            assert_eq!(s.session_state, CalSessionState::Unknown(9));
            assert_eq!(s.result, CalResult::Unknown(200));
            assert_eq!(s.cal_load, CalLoad::Unknown(42));
            assert!(s.cal_load.is_fallback());
        }
        other => panic!("expected Status, got {other:?}"),
    }
}

#[test]
fn every_result_code_has_a_message() {
    for raw in 0u8..=8 {
        let r = CalResult::from_byte(raw);
        assert!(!r.message().is_empty(), "{r:?}");
        assert_ne!(r.is_error(), raw == 0, "{r:?}");
    }
    assert!(CalResult::from_byte(200)
        .message()
        .contains("does not recognise"));
}

#[test]
fn result_messages_are_the_documented_sentences() {
    assert_eq!(CalResult::Accepted.message(), "Accepted.");
    assert!(CalResult::ValidationFailed.message().contains("An empty flag set points at the CRC"));
    assert!(CalResult::NvmWriteFailed.message().contains("previous calibration is still in force"));
}

#[test]
fn every_validation_flag_has_a_message() {
    assert!(validation_messages(0).is_empty());
    for bit in 0..7 {
        let msgs = validation_messages(1 << bit);
        assert_eq!(msgs.len(), 1, "bit {bit} must map to exactly one message");
    }
    assert_eq!(
        validation_messages(
            CAL_FLAG_APPS1_SPAN_TOO_SMALL | CAL_FLAG_BRAKE_ORDER | CAL_FLAG_OUT_OF_ADC_RANGE
        )
        .len(),
        3
    );
}

#[test]
fn validation_messages_keep_flag_order_and_ignore_bit_seven() {
    let all = validation_messages(0xFF);
    assert_eq!(all.len(), 7);
    assert!(all[0].starts_with("Accelerator channel 1"));
    assert!(all[6].contains("0-4095"));
    assert!(validation_messages(0x80).is_empty());
}

#[test]
fn capture_points_cover_the_mask() {
    let mut all = 0u8;
    for p in CalPoint::all() {
        assert!(!p.instruction().is_empty(), "{p:?}");
        all |= p.mask_bit();
    }
    assert_eq!(all, CAL_ALL_POINTS_MASK, "every point must be in the mask");
}

#[test]
fn all_points_come_in_operator_order() {
    assert_eq!(
        CalPoint::all(),
        [
            CalPoint::AppsRest,
            CalPoint::AppsFull,
            CalPoint::AppsMid,
            CalPoint::BrakeRest,
            CalPoint::BrakePressed,
        ]
    );
    assert!(CalCommand::Enter.needs_guard_magic());
    assert!(!CalCommand::Commit.needs_guard_magic());
    assert_eq!(CalCommand::ResetDefaults.as_byte(), 7);
    assert_eq!(CalPoint::AppsMid.as_byte(), 5);
    assert_eq!(CalPoint::AppsMid.mask_bit(), 0x10);
}

#[test]
fn oversized_payloads_do_not_make_a_frame() {
    assert!(CanFrame::new(CAL_STATUS_ID, &[0; 9]).is_none());
    let f = CanFrame::new(CAL_STATUS_ID, &[0; 8]).unwrap();
    assert_eq!(f.payload().len(), 8);
}

#[test]
fn session_provenance_mirrors_the_health_frame() {
    for b in 0u8..=3 {
        let load = CalLoad::from_byte(b);
        let status = EcuCalStatus::from_bits(b);
        assert_eq!(load.is_fallback(), status.is_fallback(), "byte {b}");
        assert_eq!(format!("{load:?}"), format!("{status:?}"), "byte {b}");
    }
}

#[test]
fn explanations_of_ordered_masks_concatenate() {
    let a = CAL_FLAG_APPS1_SPAN_TOO_SMALL | 0x04;
    let b = CAL_FLAG_BRAKE_ORDER | CAL_FLAG_OUT_OF_ADC_RANGE;
    let mut both = validation_messages(a);
    both.extend(validation_messages(b));
    assert_eq!(validation_messages(a | b), both);
    assert_eq!(validation_messages(a | 0x80), validation_messages(a));
    assert!(validation_messages(0x80).is_empty());
}

#[test]
fn the_seven_flag_sentences_are_distinct() {
    let mut seen: Vec<&str> = Vec::new();
    for i in 0..7 {
        let m = validation_messages(1u8 << i);
        assert_eq!(m.len(), 1, "flag {i}");
        assert!(!seen.contains(&m[0]), "flag {i} repeats a sentence");
        seen.push(m[0]);
    }
    assert_eq!(validation_messages(0x7F), seen);
}

#[test]
fn unknown_result_codes_say_so() {
    for b in 0u8..=255 {
        assert!(!CalResult::from_byte(b).message().is_empty(), "code {b}");
    }
    assert!(CalResult::from_byte(200).message().contains("does not recognise"));
}
