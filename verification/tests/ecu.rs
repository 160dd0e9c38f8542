use can_flasher::can_frame::CanFrame;
use can_flasher::pit_diag::ecu::{
    build_arm_frame, decode_frame, dem_fault_name, inv_mode_cmd_name, EcuCalStatus,
    EcuFsmState, EcuInvState, EcuPitDiagFrame, EcuResetCause, ECU_ACK_ID, ECU_ARM_ID,
    ECU_BRAKE_ID, ECU_DV_ID, ECU_FWINFO_ID, ECU_HEALTH_ID, ECU_INVERTER_ID,
    ECU_INVERTER_TEMPS_ID, ECU_INV_FAULTS_ID, ECU_INV_TEMP_DISCONNECTED_C, ECU_PEDALS_ID,
    ECU_STATUS_ID, ECU_CELL_ID, ECU_PACK_TEMP_ID, ECU_INV_FOC_ID, ECU_INV_TORQUE_ID,
    ECU_POWER_ID, ECU_EXPECTED_FRAMES_PER_SCAN, EcuRawFrame, INV_MODE_FAULT, INV_MODE_HARD_FAULT_RESET, INV_MODE_NONE, INV_MODE_OFF,
    INV_MODE_READY, INV_MODE_TORQUE_ENABLE,
};

#[test]
fn arm_frame_round_trip() {
    let on = build_arm_frame(true);
    assert_eq!(on.id, ECU_ARM_ID);
    assert_eq!(on.payload(), &[0xDE, 0xAD, 0xBE, 0xEF]);
    let off = build_arm_frame(false);
    assert_eq!(off.payload(), &[0x00, 0x00, 0x00, 0x00]);
}

#[test]
fn ack_decodes() {
    let on = CanFrame::new(ECU_ACK_ID, &[0x01]).unwrap();
    assert_eq!(
        decode_frame(&on),
        Some(EcuPitDiagFrame::Ack { enabled: true })
    );
    let off = CanFrame::new(ECU_ACK_ID, &[0x00]).unwrap();
    assert_eq!(
        decode_frame(&off),
        Some(EcuPitDiagFrame::Ack { enabled: false })
    );
}

#[test]
fn ecu_status_decodes() {
    // fsm=5 (Active), inv=4 (Ready), flags=0b10101 (ev_2_3 +
    // rtds_active + start_button), torque=42%, v_cell_min=3500mV,
    // torque_cmd=-300.
    let p = [
        0x05,
        0x04,
        0b0001_0101,
        42,
        0x0D,
        0xAC, // 3500
        0xFE,
        0xD4, // -300 as i16 BE
    ];
    let frame = CanFrame::new(ECU_STATUS_ID, &p).unwrap();
    match decode_frame(&frame).unwrap() {
        EcuPitDiagFrame::Status(s) => {
            assert_eq!(s.fsm_state, EcuFsmState::Active);
            assert_eq!(s.inv_state, EcuInvState::Ready);
            assert!(s.ev_2_3 && s.rtds_active && s.start_button);
            assert!(!s.t11_8_9 && !s.ok_precharge);
            assert_eq!(s.torque_pct, 42);
            assert_eq!(s.v_cell_min_mv, 3500);
            assert_eq!(s.torque_cmd, -300);
        }
        other => panic!("expected Status, got {other:?}"),
    }
}

#[test]
fn pedals_decode() {
    // apps1=0x0102, apps2=0x0304, brake=0x0506, apps1%=10, apps2%=11.
    let p = [0x01, 0x02, 0x03, 0x04, 0x05, 0x06, 10, 11];
    let frame = CanFrame::new(ECU_PEDALS_ID, &p).unwrap();
    match decode_frame(&frame).unwrap() {
        EcuPitDiagFrame::Pedals(ped) => {
            assert_eq!(ped.apps1_raw, 0x0102);
            assert_eq!(ped.apps2_raw, 0x0304);
            assert_eq!(ped.brake_raw, 0x0506);
            assert_eq!(ped.apps1_pct, 10);
            assert_eq!(ped.apps2_pct, 11);
        }
        other => panic!("expected Pedals, got {other:?}"),
    }
}

#[test]
fn brake_decodes() {
    // 123 deci-bar = 12.3 bar, 55%.
    let frame = CanFrame::new(ECU_BRAKE_ID, &[0x00, 123, 55]).unwrap();
    match decode_frame(&frame).unwrap() {
        EcuPitDiagFrame::Brake(b) => {
            assert_eq!(b.brake_pressure_dbar, 123);
            assert_eq!(b.brake_pct, 55);
        }
        other => panic!("expected Brake, got {other:?}"),
    }
}

#[test]
fn inverter_decodes_signed_rpm() {
    // dc_bus=0x0258 (600V), rpm=-1000 (BE i32), err=0x07. 7-byte frame:
    // no dem_present byte -> latched (false).
    let rpm = (-1000i32).to_be_bytes();
    let p = [0x02, 0x58, rpm[0], rpm[1], rpm[2], rpm[3], 0x07];
    let frame = CanFrame::new(ECU_INVERTER_ID, &p).unwrap();
    match decode_frame(&frame).unwrap() {
        EcuPitDiagFrame::Inverter(inv) => {
            assert_eq!(inv.dc_bus_voltage, 600);
            assert_eq!(inv.inv_rpm, -1000);
            assert_eq!(inv.inv_error, 0x07);
            assert_eq!(dem_fault_name(inv.inv_error), "CAN1_BusOff");
            assert!(!inv.dem_present);
            assert_eq!(inv.inv_mode_cmd, INV_MODE_NONE);
            assert_eq!(inv_mode_cmd_name(inv.inv_mode_cmd), "none");
        }
        other => panic!("expected Inverter, got {other:?}"),
    }
}

#[test]
fn inverter_decodes_dem_present_and_names() {
    // 8-byte frame: err=2 (Undervoltage), byte7 bit0 set -> active now.
    let p = [0, 0, 0, 0, 0, 0, 2, 0x01];
    match decode_frame(&CanFrame::new(ECU_INVERTER_ID, &p).unwrap()).unwrap() {
        EcuPitDiagFrame::Inverter(inv) => {
            assert_eq!(inv.inv_error, 2);
            assert_eq!(dem_fault_name(inv.inv_error), "Undervoltage");
            assert!(inv.dem_present);
        }
        other => panic!("expected Inverter, got {other:?}"),
    }
    assert_eq!(dem_fault_name(15), "EmachineOverspeed");
    assert_eq!(dem_fault_name(200), "unknown");
}

#[test]
fn inverter_decodes_mode_cmd_from_the_reference_capture() {
    // The #528 capture, decoded by hand at the time:
    //   0x702  01 63 00 00 00 00 16 27
    // dc_bus=355V, dem=22 (above the W90 table), byte7=0x27 ->
    // dem_present=1 + inv_mode_cmd=0x13 (the ECU commanding the
    // soft-fault reset continuously).
    let p = [0x01, 0x63, 0x00, 0x00, 0x00, 0x00, 0x16, 0x27];
    match decode_frame(&CanFrame::new(ECU_INVERTER_ID, &p).unwrap()).unwrap() {
        EcuPitDiagFrame::Inverter(inv) => {
            assert_eq!(inv.dc_bus_voltage, 355);
            assert_eq!(inv.inv_error, 22);
            assert_eq!(dem_fault_name(inv.inv_error), "unknown");
            assert!(inv.dem_present);
            assert_eq!(inv.inv_mode_cmd, INV_MODE_FAULT);
            assert_eq!(inv_mode_cmd_name(inv.inv_mode_cmd), "Fault");
        }
        other => panic!("expected Inverter, got {other:?}"),
    }
}

#[test]
fn inv_mode_cmd_names_cover_the_val_table() {
    assert_eq!(inv_mode_cmd_name(INV_MODE_OFF), "Off");
    assert_eq!(inv_mode_cmd_name(INV_MODE_READY), "Ready");
    assert_eq!(inv_mode_cmd_name(INV_MODE_TORQUE_ENABLE), "TorqueEnable");
    assert_eq!(
        inv_mode_cmd_name(INV_MODE_HARD_FAULT_RESET),
        "HardFaultReset"
    );
    assert_eq!(inv_mode_cmd_name(INV_MODE_FAULT), "Fault");
    assert_eq!(inv_mode_cmd_name(0x7F), "unknown");
}

#[test]
fn inv_mode_cmd_uses_all_seven_bits() {
    // 7 bits at bit 57: the widest value the field can hold must survive
    // the shift without bleeding dem_present into it.
    let p = [0, 0, 0, 0, 0, 0, 0, 0xFE];
    match decode_frame(&CanFrame::new(ECU_INVERTER_ID, &p).unwrap()).unwrap() {
        EcuPitDiagFrame::Inverter(inv) => {
            assert_eq!(inv.inv_mode_cmd, 0x7F);
            assert!(!inv.dem_present);
        }
        other => panic!("expected Inverter, got {other:?}"),
    }
}

#[test]
fn inv_state_covers_the_full_val_table() {
    // All seven the firmware names (#150) — every one but Standby/Ready
    // used to fall through to Unknown, including the fault states the
    // pit tool exists to show (#528).
    for (raw, want) in [
        (0u8, EcuInvState::Off),
        (3, EcuInvState::Standby),
        (4, EcuInvState::Ready),
        (6, EcuInvState::TorqueEnable),
        (10, EcuInvState::SoftFault),
        (11, EcuInvState::HardFault),
        (13, EcuInvState::Shutdown),
    ] {
        assert_eq!(EcuInvState::from_byte(raw), want, "raw {raw}");
    }
    assert_eq!(EcuInvState::from_byte(9), EcuInvState::Unknown(9));
    assert!(EcuInvState::SoftFault.is_fault() && EcuInvState::HardFault.is_fault());
    assert!(!EcuInvState::Ready.is_fault() && !EcuInvState::Off.is_fault());
}

#[test]
fn fwinfo_decodes() {
    let p = [1, 6, 2, 0xAB, 0xCD, 0xEF, 0x01];
    let frame = CanFrame::new(ECU_FWINFO_ID, &p).unwrap();
    match decode_frame(&frame).unwrap() {
        EcuPitDiagFrame::FwInfo(fw) => {
            assert_eq!((fw.fw_major, fw.fw_minor, fw.fw_patch), (1, 6, 2));
            assert_eq!(fw.git_hash, [0xAB, 0xCD, 0xEF, 0x01]);
        }
        other => panic!("expected FwInfo, got {other:?}"),
    }
}

#[test]
fn inverter_temps_decode_offset_and_sentinel() {
    // board=25 (raw 75), pwrstg=60 (raw 110), motor1=-10 (raw 40),
    // motor2=disconnected (raw 0xFF => 205).
    let frame = CanFrame::new(ECU_INVERTER_TEMPS_ID, &[75, 110, 40, 0xFF]).unwrap();
    match decode_frame(&frame).unwrap() {
        EcuPitDiagFrame::InverterTemps(t) => {
            assert_eq!(t.board_degc, 25);
            assert_eq!(t.pwrstg_degc, 60);
            assert_eq!(t.motor1_degc, -10);
            assert_eq!(t.motor2_degc, ECU_INV_TEMP_DISCONNECTED_C);
        }
        other => panic!("expected InverterTemps, got {other:?}"),
    }
}

#[test]
fn health_decodes() {
    // free=0x1234, min=0x0800, live=0b1_0111 (control+can_rx+can_tx+diag,
    // telemetry stalled), reset=4 (IWDG), uptime=42, last_fault=0xF5
    // (stack overflow).
    let p = [0x12, 0x34, 0x08, 0x00, 0b1_0111, 4, 42, 0xF5];
    let frame = CanFrame::new(ECU_HEALTH_ID, &p).unwrap();
    match decode_frame(&frame).unwrap() {
        EcuPitDiagFrame::Health(h) => {
            assert_eq!(h.free_heap, 0x1234);
            assert_eq!(h.min_free_heap, 0x0800);
            assert!(h.task_control && h.task_can_rx && h.task_can_tx && h.task_diag);
            assert!(!h.task_telemetry);
            assert_eq!(h.reset_cause, EcuResetCause::Iwdg);
            assert_eq!(h.uptime_s, 42);
            assert_eq!(h.last_fault, 0xF5);
        }
        other => panic!("expected Health, got {other:?}"),
    }
}

#[test]
fn health_task_diag_is_bit4_not_bit3() {
    // TelemetryTask took byte 4 bit 3 and pushed task_diag to bit 4
    // (#528). A board with only telemetry alive must not read as
    // "diag alive" — that was the pre-fix behaviour.
    let p = [0, 0, 0, 0, 0b0000_1000, 0, 0, 0];
    match decode_frame(&CanFrame::new(ECU_HEALTH_ID, &p).unwrap()).unwrap() {
        EcuPitDiagFrame::Health(h) => {
            assert!(h.task_telemetry);
            assert!(!h.task_diag);
        }
        other => panic!("expected Health, got {other:?}"),
    }
}

#[test]
fn health_masks_stub_brake_out_of_reset_cause() {
    // byte5 = 0x09 -> stub_brake (bit 3) + PowerOn (bits 0-2 = 1). Reading
    // the byte whole yielded 9 -> Other(9) -> "unknown reset" on a board
    // that had plainly just powered on (#528).
    let p = [0, 0, 0, 0, 0, 0x09, 15, 0];
    match decode_frame(&CanFrame::new(ECU_HEALTH_ID, &p).unwrap()).unwrap() {
        EcuPitDiagFrame::Health(h) => {
            assert_eq!(h.reset_cause, EcuResetCause::PowerOn);
            assert!(h.stub_brake);
        }
        other => panic!("expected Health, got {other:?}"),
    }
}

#[test]
fn health_decodes_cal_status_alongside_its_bitfield_neighbours() {
    // Byte 5 packs three things: reset_cause b0-b2, stub_brake b3,
    // cal_status b4-b5. 0x2D = 0b0010_1101 -> cause 5 (WWDG),
    // stub_brake set, cal_status 2 (InvalidFellBack). Each must come
    // out independent of the others.
    let p = [0, 0, 0, 0, 0, 0x2D, 0, 0];
    match decode_frame(&CanFrame::new(ECU_HEALTH_ID, &p).unwrap()).unwrap() {
        EcuPitDiagFrame::Health(h) => {
            assert_eq!(h.reset_cause, EcuResetCause::Wwdg);
            assert!(h.stub_brake);
            assert_eq!(h.cal_status, EcuCalStatus::InvalidFellBack);
            assert!(h.cal_status.is_fallback());
        }
        other => panic!("expected Health, got {other:?}"),
    }

    // A board running a stored calibration: cal_status 1 in b4-b5
    // (0x10), PowerOn, no stub.
    let p = [0, 0, 0, 0, 0, 0x11, 0, 0];
    match decode_frame(&CanFrame::new(ECU_HEALTH_ID, &p).unwrap()).unwrap() {
        EcuPitDiagFrame::Health(h) => {
            assert_eq!(h.cal_status, EcuCalStatus::Loaded);
            assert!(!h.cal_status.is_fallback());
            assert_eq!(h.reset_cause, EcuResetCause::PowerOn);
            assert!(!h.stub_brake);
        }
        other => panic!("expected Health, got {other:?}"),
    }
}

#[test]
fn cal_status_is_total_over_two_bits() {
    // All four values are defined, so no input can fall through, and
    // only Loaded means a stored calibration is actually in force.
    assert_eq!(EcuCalStatus::from_bits(0), EcuCalStatus::Defaults);
    assert_eq!(EcuCalStatus::from_bits(1), EcuCalStatus::Loaded);
    assert_eq!(EcuCalStatus::from_bits(2), EcuCalStatus::InvalidFellBack);
    assert_eq!(EcuCalStatus::from_bits(3), EcuCalStatus::BadVersionFellBack);
    // High bits are masked off, not misread.
    assert_eq!(EcuCalStatus::from_bits(0xFE), EcuCalStatus::InvalidFellBack);
    assert!(!EcuCalStatus::Loaded.is_fallback());
    for s in [
        EcuCalStatus::Defaults,
        EcuCalStatus::InvalidFellBack,
        EcuCalStatus::BadVersionFellBack,
    ] {
        assert!(s.is_fallback(), "{s:?} leaves the pedals on defaults");
    }
}

#[test]
fn health_decodes_stub_announces() {
    // byte4 b5-b7 = the bench-stub cluster; all clear on a flight build.
    let p = [0, 0, 0, 0, 0b1110_0000, 0, 0, 0];
    match decode_frame(&CanFrame::new(ECU_HEALTH_ID, &p).unwrap()).unwrap() {
        EcuPitDiagFrame::Health(h) => {
            assert!(h.stub_no_ams && h.stub_no_inverter && h.stub_start);
            assert!(!h.task_control);
        }
        other => panic!("expected Health, got {other:?}"),
    }
    let flight = [0, 0, 0, 0, 0b0001_1111, 1, 0, 0];
    match decode_frame(&CanFrame::new(ECU_HEALTH_ID, &flight).unwrap()).unwrap() {
        EcuPitDiagFrame::Health(h) => {
            assert!(!h.stub_no_ams && !h.stub_no_inverter && !h.stub_start);
            assert!(!h.stub_brake);
        }
        other => panic!("expected Health, got {other:?}"),
    }
}

#[test]
fn status_carries_dv_mode() {
    // byte2 = 0x30 → bit4 start_button + bit5 dv_mode (#109); rtds clear.
    let p = [5, 4, 0x30, 60, 0xAC, 0x00, 0x00, 0x00];
    let frame = CanFrame::new(ECU_STATUS_ID, &p).unwrap();
    match decode_frame(&frame).unwrap() {
        EcuPitDiagFrame::Status(s) => {
            assert!(s.dv_mode);
            assert!(s.start_button);
            assert!(!s.rtds_active);
            assert!(!s.tx_dropped);
        }
        other => panic!("expected Status, got {other:?}"),
    }
}

#[test]
fn status_carries_tx_dropped() {
    // byte2 bit 6 (#127) — sticky since boot. It sits one bit above
    // dv_mode, so decoding the flags byte one bit short misses it
    // entirely, which is how it went unnoticed until #528's follow-up.
    let p = [5, 4, 0x40, 0, 0, 0, 0, 0];
    match decode_frame(&CanFrame::new(ECU_STATUS_ID, &p).unwrap()).unwrap() {
        EcuPitDiagFrame::Status(s) => {
            assert!(s.tx_dropped);
            assert!(!s.dv_mode, "bit 5 must not bleed into bit 6");
        }
        other => panic!("expected Status, got {other:?}"),
    }
    // And the neighbouring bit stays independent.
    let p = [5, 4, 0x20, 0, 0, 0, 0, 0];
    match decode_frame(&CanFrame::new(ECU_STATUS_ID, &p).unwrap()).unwrap() {
        EcuPitDiagFrame::Status(s) => assert!(s.dv_mode && !s.tx_dropped),
        other => panic!("expected Status, got {other:?}"),
    }
}

#[test]
fn dv_frame_decodes() {
    // byte0 flags = bits 0,1,4 (r2d_req + cmd_fresh + r2d_confirm);
    // ts_active/brake_over_limit clear. torque 80%, rpm 1500 (LE).
    let p = [0b0001_0011u8, 80, 0xDC, 0x05, 0, 0, 0, 0];
    let frame = CanFrame::new(ECU_DV_ID, &p).unwrap();
    match decode_frame(&frame).unwrap() {
        EcuPitDiagFrame::Dv(d) => {
            assert!(d.dv_r2d_req && d.dv_cmd_fresh && d.r2d_confirm);
            assert!(!d.ts_active && !d.brake_over_limit);
            assert_eq!(d.dv_torque_pct, 80);
            assert_eq!(d.motor_rpm_mech, 1500);
        }
        other => panic!("expected Dv, got {other:?}"),
    }
}

#[test]
fn inv_faults_decodes_both_layers_and_freshness() {
    // byte0 = HVIL_Open (bit 5) + the two health bits set (alive,
    // enable) => 0x23. byte1 bit 0 = OVP_Th2, the ninth L1 bit.
    // byte2 = init_ok + PwrStgFault (the cascade marker) => 0x11.
    // byte3 = follow_n 2 + Flt_Clear => 0b110 = 0x06.
    let p = [0x23, 0x01, 0x11, 0x06, 40, 7];
    match decode_frame(&CanFrame::new(ECU_INV_FAULTS_ID, &p).unwrap()).unwrap() {
        EcuPitDiagFrame::InvFaults(f) => {
            assert!(f.pwrstg_alive && f.pwrstg_enable);
            assert!(f.pwrstg_hvil_open);
            assert!(f.pwrstg_ovp_th2, "ninth L1 bit lives in byte 1");
            assert!(!f.pwrstg_ocp && !f.pwrstg_uvlo);
            assert!(f.emctrl_init_ok && f.emctrl_pwrstg_fault);
            assert_eq!(f.cmd_follow_n, 2);
            assert!(f.cmd_flt_clear);
            assert_eq!(f.inv_state_age_ms, 40);
            assert_eq!(f.inv_state_seq, 7);

            // Health bits set => not anomalies; the fault bits are.
            assert_eq!(f.l1_anomalies(), vec!["HVIL_Open", "OVP_Th2"]);
            assert_eq!(f.l2_anomalies(), vec!["PwrStgFault (see L1)"]);
            assert!(f.l1_blocks_dem_clear());
        }
        other => panic!("expected InvFaults, got {other:?}"),
    }
}

#[test]
fn inv_faults_treats_cleared_health_bits_as_anomalies() {
    // All-zero payload: every fault bit clear, but alive / enable /
    // init_ok are HEALTH bits, so clear is the anomaly. Reading them
    // the same way as the fault bits would call this frame clean.
    let p = [0, 0, 0, 0, 0, 0];
    match decode_frame(&CanFrame::new(ECU_INV_FAULTS_ID, &p).unwrap()).unwrap() {
        EcuPitDiagFrame::InvFaults(f) => {
            assert_eq!(
                f.l1_anomalies(),
                vec!["PwrStg not alive", "PwrStg not enabled"]
            );
            assert_eq!(f.l2_anomalies(), vec!["EMCtrl not initialised"]);
            assert!(f.l1_blocks_dem_clear());
        }
        other => panic!("expected InvFaults, got {other:?}"),
    }

    // A genuinely clean power stage: health bits set, nothing else.
    let clean = [0x03, 0x00, 0x01, 0x00, 5, 200];
    match decode_frame(&CanFrame::new(ECU_INV_FAULTS_ID, &clean).unwrap()).unwrap() {
        EcuPitDiagFrame::InvFaults(f) => {
            assert!(f.l1_anomalies().is_empty());
            assert!(f.l2_anomalies().is_empty());
            assert!(
                !f.l1_blocks_dem_clear(),
                "clean L1 must not claim it blocks a DEM clear"
            );
        }
        other => panic!("expected InvFaults, got {other:?}"),
    }
}

#[test]
fn inv_faults_rejects_a_short_frame() {
    // DLC 6 is the contract; the draft that briefly carried DLC 4 had
    // no age/seq bytes and never shipped, so a short frame is corrupt
    // rather than old-firmware.
    let short = [0x03, 0x00, 0x01, 0x00];
    assert!(decode_frame(&CanFrame::new(ECU_INV_FAULTS_ID, &short).unwrap()).is_none());
}

#[test]
fn unknown_enum_values_pass_through() {
    let p = [0xFF, 0x09, 0, 0, 0, 0, 0, 0];
    let frame = CanFrame::new(ECU_STATUS_ID, &p).unwrap();
    match decode_frame(&frame).unwrap() {
        EcuPitDiagFrame::Status(s) => {
            assert_eq!(s.fsm_state, EcuFsmState::Unknown(0xFF));
            assert_eq!(s.inv_state, EcuInvState::Unknown(0x09));
        }
        other => panic!("expected Status, got {other:?}"),
    }
}

#[test]
fn ecu_short_frames_and_foreign_ids_reject() {
    // Short status.
    assert_eq!(
        decode_frame(&CanFrame::new(ECU_STATUS_ID, &[0, 1, 2]).unwrap()),
        None
    );
    // Short inverter (needs 7).
    assert_eq!(
        decode_frame(&CanFrame::new(ECU_INVERTER_ID, &[0; 6]).unwrap()),
        None
    );
    // Foreign ID (an AMS cell-V frame) is not ours.
    assert_eq!(decode_frame(&CanFrame::new(0x680, &[0; 8]).unwrap()), None);
}

#[test]
fn empty_or_odd_ack_means_disabled() {
    let empty = CanFrame::new(ECU_ACK_ID, &[]).unwrap();
    assert_eq!(
        decode_frame(&empty),
        Some(EcuPitDiagFrame::Ack { enabled: false })
    );
    let odd = CanFrame::new(ECU_ACK_ID, &[0x02, 0x01]).unwrap();
    assert_eq!(
        decode_frame(&odd),
        Some(EcuPitDiagFrame::Ack { enabled: false })
    );
}

#[test]
fn arm_frames_are_not_stream_frames() {
    assert_eq!(decode_frame(&build_arm_frame(true)), None);
}

#[test]
fn every_dem_code_in_the_table_has_a_name() {
    for code in 0u8..=15 {
        assert_ne!(dem_fault_name(code), "unknown", "code {code}");
    }
    assert_eq!(dem_fault_name(0), "NoFault");
    assert_eq!(dem_fault_name(16), "unknown");
}

#[test]
fn reset_cause_and_fsm_tables() {
    assert_eq!(EcuResetCause::from_byte(0), EcuResetCause::Unknown);
    assert_eq!(EcuResetCause::from_byte(6), EcuResetCause::LowPower);
    assert_eq!(EcuResetCause::from_byte(7), EcuResetCause::Other(7));
    assert_eq!(EcuFsmState::from_byte(6), EcuFsmState::AmsError);
    assert_eq!(EcuFsmState::from_byte(7), EcuFsmState::Unknown(7));
    assert_eq!(EcuCalStatus::from_bits(0x13), EcuCalStatus::BadVersionFellBack);
}

#[test]
fn short_frames_of_every_stream_id_reject() {
    for (id, min) in [
        (ECU_STATUS_ID, 8usize),
        (ECU_PEDALS_ID, 8),
        (ECU_BRAKE_ID, 3),
        (ECU_INVERTER_ID, 7),
        (ECU_FWINFO_ID, 7),
        (ECU_INVERTER_TEMPS_ID, 4),
        (ECU_HEALTH_ID, 8),
        (ECU_DV_ID, 5),
        (ECU_INV_FAULTS_ID, 6),
    ] {
        let short = vec![0u8; min - 1];
        assert_eq!(decode_frame(&CanFrame::new(id, &short).unwrap()), None, "id {id:#x}");
        let enough = vec![0u8; min];
        assert!(decode_frame(&CanFrame::new(id, &enough).unwrap()).is_some(), "id {id:#x}");
    }
}

#[test]
fn temps_cover_the_full_byte_range() {
    let frame = CanFrame::new(ECU_INVERTER_TEMPS_ID, &[0, 50, 255, 1]).unwrap();
    match decode_frame(&frame).unwrap() {
        EcuPitDiagFrame::InverterTemps(t) => {
            assert_eq!(t.board_degc, -50);
            assert_eq!(t.pwrstg_degc, 0);
            assert_eq!(t.motor1_degc, 205);
            assert_eq!(t.motor2_degc, -49);
        }
        other => panic!("expected InverterTemps, got {other:?}"),
    }
}

#[test]
fn inverter_rpm_extremes() {
    let p = [0xFF, 0xFF, 0x80, 0x00, 0x00, 0x00, 0xFF, 0xFF];
    match decode_frame(&CanFrame::new(ECU_INVERTER_ID, &p).unwrap()).unwrap() {
        EcuPitDiagFrame::Inverter(inv) => {
            assert_eq!(inv.dc_bus_voltage, 65535);
            assert_eq!(inv.inv_rpm, i32::MIN);
            assert!(inv.dem_present);
            assert_eq!(inv.inv_mode_cmd, 0x7F);
        }
        other => panic!("expected Inverter, got {other:?}"),
    }
}

#[test]
fn dv_rpm_is_little_endian_and_signed() {
    let p = [0u8, 0, 0x18, 0xFC, 0];
    match decode_frame(&CanFrame::new(ECU_DV_ID, &p).unwrap()).unwrap() {
        EcuPitDiagFrame::Dv(d) => assert_eq!(d.motor_rpm_mech, -1000),
        other => panic!("expected Dv, got {other:?}"),
    }
}

#[test]
fn dv_frame_needs_the_as_status_byte() {
    // The four-byte layout is no longer a DV frame: as_status sits at byte 4.
    let old = CanFrame::new(ECU_DV_ID, &[0x13, 80, 0xDC, 0x05]).unwrap();
    assert_eq!(decode_frame(&old), None);
    let p = [0b1010_0011u8, 80, 0xDC, 0x05, 3];
    match decode_frame(&CanFrame::new(ECU_DV_ID, &p).unwrap()).unwrap() {
        EcuPitDiagFrame::Dv(d) => {
            assert!(d.dv_r2d_req && d.dv_cmd_fresh && !d.r2d_confirm);
            assert_eq!(d.as_status, 3);
            assert!(d.as_fresh);
            assert!(!d.as_from_stale);
            assert!(d.as_emergency);
            assert_eq!(d.dv_torque_pct, 80);
            assert_eq!(d.motor_rpm_mech, 1500);
        }
        other => panic!("expected Dv, got {other:?}"),
    }
    let stale = [0b0100_0000u8, 0, 0, 0, 0];
    match decode_frame(&CanFrame::new(ECU_DV_ID, &stale).unwrap()).unwrap() {
        EcuPitDiagFrame::Dv(d) => {
            assert!(!d.as_fresh && d.as_from_stale && !d.as_emergency);
            assert!(!d.dv_r2d_req && !d.ts_active);
        }
        other => panic!("expected Dv, got {other:?}"),
    }
}

#[test]
fn health_carries_boot_refused_in_byte5_bit6() {
    let mut p = [0u8; 8];
    p[5] = 0x40;
    match decode_frame(&CanFrame::new(ECU_HEALTH_ID, &p).unwrap()).unwrap() {
        EcuPitDiagFrame::Health(h) => {
            assert!(h.boot_refused);
            assert_eq!(h.cal_status, EcuCalStatus::Defaults);
            assert!(!h.stub_brake);
        }
        other => panic!("expected Health, got {other:?}"),
    }
    p[5] = 0xBF;
    match decode_frame(&CanFrame::new(ECU_HEALTH_ID, &p).unwrap()).unwrap() {
        EcuPitDiagFrame::Health(h) => assert!(!h.boot_refused),
        other => panic!("expected Health, got {other:?}"),
    }
}

#[test]
fn the_extended_stream_ids_decode_as_raw_frames() {
    let raw = EcuRawFrame {
        dlc: 3,
        data: [1, 2, 3, 0, 0, 0, 0, 0],
    };
    let f = |id| decode_frame(&CanFrame::new(id, &[1, 2, 3]).unwrap());
    assert_eq!(f(ECU_CELL_ID), Some(EcuPitDiagFrame::Cell(raw)));
    assert_eq!(f(ECU_PACK_TEMP_ID), Some(EcuPitDiagFrame::PackTemp(raw)));
    assert_eq!(f(ECU_INV_FOC_ID), Some(EcuPitDiagFrame::InvFoc(raw)));
    assert_eq!(f(ECU_INV_TORQUE_ID), Some(EcuPitDiagFrame::InvTorque(raw)));
    assert_eq!(f(ECU_POWER_ID), Some(EcuPitDiagFrame::Power(raw)));
    assert!(decode_frame(&CanFrame::new(0x709, &[0; 8]).unwrap()).is_some());
    assert_eq!(
        decode_frame(&CanFrame::new(ECU_POWER_ID, &[]).unwrap()),
        Some(EcuPitDiagFrame::Power(EcuRawFrame { dlc: 0, data: [0; 8] }))
    );
    // The next identifier is no longer ours.
    assert_eq!(decode_frame(&CanFrame::new(0x70E, &[0; 8]).unwrap()), None);
}

#[test]
fn a_full_scan_is_thirteen_frames() {
    assert_eq!(ECU_EXPECTED_FRAMES_PER_SCAN, 13);
    assert_eq!(ECU_CELL_ID, 0x709);
    assert_eq!(ECU_POWER_ID, 0x70D);
}
