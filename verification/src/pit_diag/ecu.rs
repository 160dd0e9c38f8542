//! ECU (VCU) pit-diag observer protocol.
//!
//! When armed the ECU emits [`ECU_EXPECTED_FRAMES_PER_SCAN`] frames at
//! 100 ms carrying the vehicle-control picture — FSM / inverter state, the
//! two APPS pedal channels, the brake, the inverter DC-bus / RPM / error and
//! its two lower fault layers, the DV handshake, a firmware-ID frame, and
//! the derate / inverter-limit / power frames `0x709`-`0x70D` — plus an
//! ungated `0x704` health frame at 1 Hz.
//!
//! - **Enable**:  `0x7E0` with payload `DE AD BE EF`.
//! - **Disable**: `0x7E0` with payload `00 00 00 00`.
//! - **ACK**:     `0x7E1`, 1 byte — `0x01` = enabled; anything else,
//!   including an empty payload, = disabled.
//!
//! Multi-byte numeric fields are big-endian (the DV rpm is little-endian);
//! single-byte fields and bit flags are position-only.

use vstd::prelude::*;

use crate::bytes::{
    be_i16, be_i16_of, be_i32, be_i32_of, be_u16, be_u16_of, le_i16, le_i16_of, lemma_be_i16_value,
    lemma_be_i32_value,
};
use crate::can_frame::CanFrame;

verus! {

// ---- Wire-level constants ----------------------------------------

/// CAN ID the ECU listens on for arm/disarm commands.
pub const ECU_ARM_ID: u16 = 0x7E0;
/// CAN ID the ECU uses to ACK arm/disarm commands.
pub const ECU_ACK_ID: u16 = 0x7E1;

/// `0x700` — FSM / inverter state + control flags + torque + min cell-V.
pub const ECU_STATUS_ID: u16 = 0x700;
/// `0x701` — APPS pedal channels + brake raw ADC.
pub const ECU_PEDALS_ID: u16 = 0x701;
/// `0x702` — inverter DC-bus voltage, RPM (signed), error code.
pub const ECU_INVERTER_ID: u16 = 0x702;
/// `0x703` — firmware semver + git-hash prefix.
pub const ECU_FWINFO_ID: u16 = 0x703;
/// `0x705` — physical brake pressure + brake %.
pub const ECU_BRAKE_ID: u16 = 0x705;
/// `0x706` — inverter temperatures (board / power-stage / motor1 / motor2).
pub const ECU_INVERTER_TEMPS_ID: u16 = 0x706;
/// `0x704` — firmware health, ungated, 1 Hz.
pub const ECU_HEALTH_ID: u16 = 0x704;
/// `0x708` — the inverter's two lower fault layers.
pub const ECU_INV_FAULTS_ID: u16 = 0x708;
/// `0x707` — the ECU's view of the DV (driverless) integration.
pub const ECU_DV_ID: u16 = 0x707;

/// Inverter temperature sentinel — raw `0xFF` (= 205 °C after the −50
/// offset) means the sensor is disconnected.
pub const ECU_INV_TEMP_DISCONNECTED_C: i16 = 205;

/// `0x709` — the low-cell derate.
pub const ECU_CELL_ID: u16 = 0x709;
/// `0x70A` — the pack thermal cap and the modules that fed it.
pub const ECU_PACK_TEMP_ID: u16 = 0x70A;
/// `0x70B` — inverter Id / Iq, voltage modulus, feedback freshness.
pub const ECU_INV_FOC_ID: u16 = 0x70B;
/// `0x70C` — torque requested vs max-feasible vs estimated, Iq setpoint.
pub const ECU_INV_TORQUE_ID: u16 = 0x70C;
/// `0x70D` — shaft, AC and DC power, accumulator current.
pub const ECU_POWER_ID: u16 = 0x70D;

/// Number of cyclic (100 ms) stream frames emitted per scan when armed:
/// `0x700`-`0x703`, `0x705`-`0x70D`.
pub const ECU_EXPECTED_FRAMES_PER_SCAN: usize = 13;

/// Arm payload — big-endian magic `0xDEADBEEF`.
pub const ECU_ARM_ENABLE_PAYLOAD: [u8; 4] = [0xDE, 0xAD, 0xBE, 0xEF];
/// Disarm payload — all zeros.
pub const ECU_ARM_DISABLE_PAYLOAD: [u8; 4] = [0x00, 0x00, 0x00, 0x00];

/// The arm payload (`DE AD BE EF`) or the disarm payload (all zeros).
pub open spec fn arm_payload(enable: bool) -> Seq<u8> {
    if enable {
        seq![0xDEu8, 0xADu8, 0xBEu8, 0xEFu8]
    } else {
        seq![0u8, 0u8, 0u8, 0u8]
    }
}

// ---- Enums -------------------------------------------------------

/// Vehicle-control FSM state (`0x700` byte 0).
#[derive(Clone, Copy, Debug, PartialEq, Eq)]
pub enum EcuFsmState {
    /// 0 — waiting for the inverter VDC config handshake.
    WaitInvVdcConfig,
    /// 1 — precharging the DC bus.
    Precharge,
    /// 2 — waiting for the start + brake R2D gesture.
    WaitStartBrake,
    /// 3 — ready-to-drive sound delay.
    R2dDelay,
    /// 4 — waiting for the inverter to report Standby.
    WaitInvStandby,
    /// 5 — driving / torque enabled.
    Active,
    /// 6 — latched on an AMS error.
    AmsError,
    /// Any value outside the known table.
    Unknown(u8),
}

impl EcuFsmState {
    /// Decoding of a raw state byte.
    pub open spec fn decoded(b: u8) -> EcuFsmState {
        match b {
            0 => EcuFsmState::WaitInvVdcConfig,
            1 => EcuFsmState::Precharge,
            2 => EcuFsmState::WaitStartBrake,
            3 => EcuFsmState::R2dDelay,
            4 => EcuFsmState::WaitInvStandby,
            5 => EcuFsmState::Active,
            6 => EcuFsmState::AmsError,
            other => EcuFsmState::Unknown(other),
        }
    }

    /// Decode the raw state byte.
    pub fn from_byte(b: u8) -> (r: EcuFsmState)
        ensures
            r == Self::decoded(b),
    {
        match b {
            0 => EcuFsmState::WaitInvVdcConfig,
            1 => EcuFsmState::Precharge,
            2 => EcuFsmState::WaitStartBrake,
            3 => EcuFsmState::R2dDelay,
            4 => EcuFsmState::WaitInvStandby,
            5 => EcuFsmState::Active,
            6 => EcuFsmState::AmsError,
            other => EcuFsmState::Unknown(other),
        }
    }
}

/// Inverter application state (`0x700` byte 1): the full seven-value table.
#[derive(Clone, Copy, Debug, PartialEq, Eq)]
pub enum EcuInvState {
    /// 0 — inverter off.
    Off,
    /// 3 — inverter standby.
    Standby,
    /// 4 — inverter ready.
    Ready,
    /// 6 — torque enabled (drive).
    TorqueEnable,
    /// 10 — soft fault; cleared by commanding [`INV_MODE_FAULT`].
    SoftFault,
    /// 11 — hard fault; cleared by commanding [`INV_MODE_HARD_FAULT_RESET`].
    HardFault,
    /// 13 — shutdown.
    Shutdown,
    /// Any value outside the known table.
    Unknown(u8),
}

impl EcuInvState {
    /// Decoding of a raw inverter-state byte.
    pub open spec fn decoded(b: u8) -> EcuInvState {
        match b {
            0 => EcuInvState::Off,
            3 => EcuInvState::Standby,
            4 => EcuInvState::Ready,
            6 => EcuInvState::TorqueEnable,
            10 => EcuInvState::SoftFault,
            11 => EcuInvState::HardFault,
            13 => EcuInvState::Shutdown,
            other => EcuInvState::Unknown(other),
        }
    }

    /// Decode the raw inverter-state byte.
    pub fn from_byte(b: u8) -> (r: EcuInvState)
        ensures
            r == Self::decoded(b),
    {
        match b {
            0 => EcuInvState::Off,
            3 => EcuInvState::Standby,
            4 => EcuInvState::Ready,
            6 => EcuInvState::TorqueEnable,
            10 => EcuInvState::SoftFault,
            11 => EcuInvState::HardFault,
            13 => EcuInvState::Shutdown,
            other => EcuInvState::Unknown(other),
        }
    }

    /// `true` for the two fault states.
    pub fn is_fault(self) -> (r: bool)
        ensures
            r == (self is SoftFault || self is HardFault),
    {
        match self {
            EcuInvState::SoftFault | EcuInvState::HardFault => true,
            _ => false,
        }
    }
}

/// MCU reset cause (`0x704` byte 5 bits 0-2).
#[derive(Clone, Copy, Debug, PartialEq, Eq)]
pub enum EcuResetCause {
    /// 0 — cause not determined.
    Unknown,
    /// 1 — power-on reset.
    PowerOn,
    /// 2 — NRST pin reset.
    Pin,
    /// 3 — software reset.
    Software,
    /// 4 — independent watchdog.
    Iwdg,
    /// 5 — window watchdog.
    Wwdg,
    /// 6 — low-power / brown-out reset.
    LowPower,
    /// Any value outside the known table.
    Other(u8),
}

impl EcuResetCause {
    /// Decoding of a raw reset-cause byte.
    pub open spec fn decoded(b: u8) -> EcuResetCause {
        match b {
            0 => EcuResetCause::Unknown,
            1 => EcuResetCause::PowerOn,
            2 => EcuResetCause::Pin,
            3 => EcuResetCause::Software,
            4 => EcuResetCause::Iwdg,
            5 => EcuResetCause::Wwdg,
            6 => EcuResetCause::LowPower,
            other => EcuResetCause::Other(other),
        }
    }

    /// Decode the raw reset-cause byte.
    pub fn from_byte(b: u8) -> (r: EcuResetCause)
        ensures
            r == Self::decoded(b),
    {
        match b {
            0 => EcuResetCause::Unknown,
            1 => EcuResetCause::PowerOn,
            2 => EcuResetCause::Pin,
            3 => EcuResetCause::Software,
            4 => EcuResetCause::Iwdg,
            5 => EcuResetCause::Wwdg,
            6 => EcuResetCause::LowPower,
            other => EcuResetCause::Other(other),
        }
    }
}

// ---- Commanded inverter mode (`0x702` inv_mode_cmd) ---------------

/// `inv_mode_cmd` sentinel for "the frame carried no commanded mode".
pub const INV_MODE_NONE: u8 = 0;
/// `App_State_Req` 0x01 — command the inverter off.
pub const INV_MODE_OFF: u8 = 0x01;
/// `App_State_Req` 0x04 — command Ready.
pub const INV_MODE_READY: u8 = 0x04;
/// `App_State_Req` 0x06 — command torque enable (drive).
pub const INV_MODE_TORQUE_ENABLE: u8 = 0x06;
/// `App_State_Req` 0x0D — hard-fault reset.
pub const INV_MODE_HARD_FAULT_RESET: u8 = 0x0D;
/// `App_State_Req` 0x13 — soft-fault reset.
pub const INV_MODE_FAULT: u8 = 0x13;

/// Whether the ECU is running a stored pedal calibration or fell back to its
/// compile-time defaults (`0x704` byte 5 bits 4-5).
#[derive(Clone, Copy, Debug, PartialEq, Eq)]
pub enum EcuCalStatus {
    /// 0 — no stored calibration; running compile-time defaults.
    Defaults,
    /// 1 — a stored calibration was read and applied.
    Loaded,
    /// 2 — a stored calibration failed validation; fell back to defaults.
    InvalidFellBack,
    /// 3 — a stored calibration had an unrecognised record version; fell
    /// back to defaults.
    BadVersionFellBack,
}

impl EcuCalStatus {
    /// Decoding of the low two bits of `b`.
    pub open spec fn decoded(b: u8) -> EcuCalStatus {
        let v = b & 0x03u8;
        if v == 0 {
            EcuCalStatus::Defaults
        } else if v == 1 {
            EcuCalStatus::Loaded
        } else if v == 2 {
            EcuCalStatus::InvalidFellBack
        } else {
            EcuCalStatus::BadVersionFellBack
        }
    }

    /// Decode the 2-bit field. Total: every value is defined and higher bits
    /// are masked off.
    pub fn from_bits(b: u8) -> (r: EcuCalStatus)
        ensures
            r == Self::decoded(b),
    {
        let v = b & 0x03u8;
        if v == 0 {
            EcuCalStatus::Defaults
        } else if v == 1 {
            EcuCalStatus::Loaded
        } else if v == 2 {
            EcuCalStatus::InvalidFellBack
        } else {
            EcuCalStatus::BadVersionFellBack
        }
    }

    /// `true` when the ECU is NOT running a stored calibration.
    pub fn is_fallback(self) -> (r: bool)
        ensures
            r == !(self is Loaded),
    {
        match self {
            EcuCalStatus::Loaded => false,
            _ => true,
        }
    }
}

/// Name of a commanded inverter mode word.
pub open spec fn inv_mode_name(mode: u8) -> &'static str {
    if mode == INV_MODE_NONE {
        "none"
    } else if mode == INV_MODE_OFF {
        "Off"
    } else if mode == INV_MODE_READY {
        "Ready"
    } else if mode == INV_MODE_TORQUE_ENABLE {
        "TorqueEnable"
    } else if mode == INV_MODE_HARD_FAULT_RESET {
        "HardFaultReset"
    } else if mode == INV_MODE_FAULT {
        "Fault"
    } else {
        "unknown"
    }
}

/// Name for the mode word the ECU is **commanding** (`0x702`
/// `inv_mode_cmd`). [`INV_MODE_NONE`] returns `"none"`; anything outside the
/// table returns `"unknown"`.
pub fn inv_mode_cmd_name(mode: u8) -> (r: &'static str)
    ensures
        r == inv_mode_name(mode),
{
    if mode == INV_MODE_NONE {
        "none"
    } else if mode == INV_MODE_OFF {
        "Off"
    } else if mode == INV_MODE_READY {
        "Ready"
    } else if mode == INV_MODE_TORQUE_ENABLE {
        "TorqueEnable"
    } else if mode == INV_MODE_HARD_FAULT_RESET {
        "HardFaultReset"
    } else if mode == INV_MODE_FAULT {
        "Fault"
    } else {
        "unknown"
    }
}

/// Name of an inverter DEM fault code (W90 §9.2.3 table, codes 0..=15).
pub open spec fn dem_name(code: u8) -> &'static str {
    match code {
        0 => "NoFault",
        1 => "LostMsg",
        2 => "Undervoltage",
        3 => "PwrStgOvertemp",
        4 => "PwrStgTempDegradation",
        5 => "EMCtrFault",
        6 => "TaskOverrun",
        7 => "CAN1_BusOff",
        8 => "EmachineOvertemp",
        9 => "PhaseCurrentSensorRange",
        10 => "PwrStgTempSensorRange",
        11 => "DCBusVoltageSensorRange",
        12 => "DPBoardOvertemp",
        13 => "DRVBoardOvertemp",
        14 => "AuxSupplyRange",
        15 => "EmachineOverspeed",
        _ => "unknown",
    }
}

/// Name for an inverter DEM fault code (`0x702` `inv_error`). Codes outside
/// `0..=15` return `"unknown"`.
pub fn dem_fault_name(code: u8) -> (r: &'static str)
    ensures
        r == dem_name(code),
{
    match code {
        0 => "NoFault",
        1 => "LostMsg",
        2 => "Undervoltage",
        3 => "PwrStgOvertemp",
        4 => "PwrStgTempDegradation",
        5 => "EMCtrFault",
        6 => "TaskOverrun",
        7 => "CAN1_BusOff",
        8 => "EmachineOvertemp",
        9 => "PhaseCurrentSensorRange",
        10 => "PwrStgTempSensorRange",
        11 => "DCBusVoltageSensorRange",
        12 => "DPBoardOvertemp",
        13 => "DRVBoardOvertemp",
        14 => "AuxSupplyRange",
        15 => "EmachineOverspeed",
        _ => "unknown",
    }
}

/// Suffix for a DEM code [`dem_fault_name`] can't name: the table stops
/// here, the lookup did not break.
pub const DEM_UNDOCUMENTED_NOTE: &'static str = "undocumented — not in W90 §9.2.3";

// ---- Frame records -----------------------------------------------

/// `0x700` — FSM / inverter state, cockpit control flags, torque, and
/// minimum cell voltage.
#[derive(Clone, Copy, Debug, PartialEq, Eq)]
pub struct EcuStatusFrame {
    /// Vehicle-control FSM state.
    pub fsm_state: EcuFsmState,
    /// Inverter application state.
    pub inv_state: EcuInvState,
    /// Byte 2 bit 0 — EV 2.3 plausibility OK.
    pub ev_2_3: bool,
    /// Byte 2 bit 1 — T11.8/9 plausibility OK.
    pub t11_8_9: bool,
    /// Byte 2 bit 2 — ready-to-drive sound active.
    pub rtds_active: bool,
    /// Byte 2 bit 3 — precharge complete.
    pub ok_precharge: bool,
    /// Byte 2 bit 4 — start button pressed.
    pub start_button: bool,
    /// Byte 2 bit 5 — DV (driverless) drive latched this cycle.
    pub dv_mode: bool,
    /// Byte 2 bit 6 — sticky: at least one CAN frame has been dropped by a
    /// full TX queue since boot.
    pub tx_dropped: bool,
    /// Commanded torque, percent.
    pub torque_pct: u8,
    /// Minimum cell voltage seen by the AMS, millivolts (big-endian).
    pub v_cell_min_mv: u16,
    /// Raw torque command sent to the inverter (signed, big-endian).
    pub torque_cmd: i16,
}

/// `0x701` — the two APPS pedal channels plus the raw brake ADC.
#[derive(Clone, Copy, Debug, PartialEq, Eq)]
pub struct EcuPedalsFrame {
    /// APPS channel 1 raw ADC (big-endian).
    pub apps1_raw: u16,
    /// APPS channel 2 raw ADC (big-endian).
    pub apps2_raw: u16,
    /// Brake-sensor raw ADC (big-endian).
    pub brake_raw: u16,
    /// APPS channel 1 computed percent.
    pub apps1_pct: u8,
    /// APPS channel 2 computed percent.
    pub apps2_pct: u8,
}

/// `0x705` — physical brake values from the pressure sensor.
#[derive(Clone, Copy, Debug, PartialEq, Eq)]
pub struct EcuBrakeFrame {
    /// Brake pressure in deci-bar (big-endian).
    pub brake_pressure_dbar: u16,
    /// Brake percent.
    pub brake_pct: u8,
}

/// `0x702` — inverter DC-bus voltage, motor RPM, and error code.
#[derive(Clone, Copy, Debug, PartialEq, Eq)]
pub struct EcuInverterFrame {
    /// DC-bus voltage, volts (big-endian).
    pub dc_bus_voltage: u16,
    /// Motor speed, RPM — signed (big-endian).
    pub inv_rpm: i32,
    /// Inverter DEM fault code — name via [`dem_fault_name`].
    pub inv_error: u8,
    /// Byte 7 bit 0: the fault is active now (`true`) vs latched history.
    /// `false` on a short (7-byte) frame from older firmware.
    pub dem_present: bool,
    /// Byte 7 bits 1-7: the mode word the ECU is commanding. [`INV_MODE_NONE`]
    /// on a short (7-byte) frame from older firmware.
    pub inv_mode_cmd: u8,
}

/// `0x703` — firmware semantic version + git-hash prefix.
#[derive(Clone, Copy, Debug, PartialEq, Eq)]
pub struct EcuFwInfoFrame {
    /// Firmware major version.
    pub fw_major: u8,
    /// Firmware minor version.
    pub fw_minor: u8,
    /// Firmware patch version.
    pub fw_patch: u8,
    /// First 4 bytes of the git hash.
    pub git_hash: [u8; 4],
}

/// `0x706` — the inverter's four temperatures; `°C = raw − 50`, and
/// [`ECU_INV_TEMP_DISCONNECTED_C`] means the sensor is disconnected.
#[derive(Clone, Copy, Debug, PartialEq, Eq)]
pub struct EcuInverterTempsFrame {
    /// Inverter control-board temperature, °C.
    pub board_degc: i16,
    /// Power-stage (IGBT) temperature, °C.
    pub pwrstg_degc: i16,
    /// Motor temperature sensor 1, °C.
    pub motor1_degc: i16,
    /// Motor temperature sensor 2, °C.
    pub motor2_degc: i16,
}

/// `0x704` — firmware-health telemetry.
#[derive(Clone, Copy, Debug, PartialEq, Eq)]
pub struct EcuHealthFrame {
    /// Current free heap, bytes (big-endian).
    pub free_heap: u16,
    /// Minimum free heap ever observed, bytes (big-endian).
    pub min_free_heap: u16,
    /// ControlTask stepped (byte 4 bit 0).
    pub task_control: bool,
    /// CAN-RX task stepped (byte 4 bit 1).
    pub task_can_rx: bool,
    /// CAN-TX task stepped (byte 4 bit 2).
    pub task_can_tx: bool,
    /// TelemetryTask stepped (byte 4 bit 3).
    pub task_telemetry: bool,
    /// DiagTask stepped (byte 4 bit 4).
    pub task_diag: bool,
    /// Bench stub — AMS absent (byte 4 bit 5).
    pub stub_no_ams: bool,
    /// Bench stub — inverter absent (byte 4 bit 6).
    pub stub_no_inverter: bool,
    /// Bench stub — start button forced (byte 4 bit 7).
    pub stub_start: bool,
    /// Bench stub — brake reading injected (byte 5 bit 3).
    pub stub_brake: bool,
    /// Sticky since boot: the ECU declined a reboot-to-bootloader trigger
    /// because the car was in the drive ladder. Byte 5 bit 6: the notes name
    /// the signal but not its bit; bit 6 is the first of the two bits byte 5
    /// leaves free.
    pub boot_refused: bool,
    /// Pedal-calibration provenance (byte 5 bits 4-5).
    pub cal_status: EcuCalStatus,
    /// Cause of the most recent MCU reset (byte 5 bits 0-2).
    pub reset_cause: EcuResetCause,
    /// Seconds since boot (wraps at 255).
    pub uptime_s: u8,
    /// Sticky last-fault sentinel latched across the reset.
    pub last_fault: u8,
}

/// `0x707` — the ECU's view of the DV (driverless) integration.
#[derive(Clone, Copy, Debug, PartialEq, Eq)]
pub struct EcuDvFrame {
    /// uDV R2D request is set and fresh.
    pub dv_r2d_req: bool,
    /// uDV torque stream is fresh.
    pub dv_cmd_fresh: bool,
    /// Tractive-system-active view.
    pub ts_active: bool,
    /// EBS hard-braking verdict.
    pub brake_over_limit: bool,
    /// R2D confirmed.
    pub r2d_confirm: bool,
    /// Conditioned autonomous torque actually applied, percent.
    pub dv_torque_pct: u8,
    /// Mechanical rpm streamed to the uDV (signed, little-endian).
    pub motor_rpm_mech: i16,
    /// Autonomous-system state mirrored from the uDV (byte 4), raw: its
    /// value table lives on the uDV's `UDV_as_status` message.
    pub as_status: u8,
    /// The mirrored state is live. Byte 0 bit 5: the notes name the signal
    /// but not its bit; bits 5-7 are the flag byte's free bits, taken in the
    /// notes' order.
    pub as_fresh: bool,
    /// The mirrored state came from a stale uDV frame (byte 0 bit 6, placed
    /// as `as_fresh` says).
    pub as_from_stale: bool,
    /// The uDV signalled an emergency stop (byte 0 bit 7, placed as
    /// `as_fresh` says).
    pub as_emergency: bool,
}

/// One of the `0x709`-`0x70D` frames, held as its raw bytes: the notes that
/// announce these frames describe what they carry but give no field layout,
/// byte order or length, so no field is decoded from them.
#[derive(Clone, Copy, Debug, PartialEq, Eq)]
pub struct EcuRawFrame {
    /// Number of data bytes the frame carried (at most 8).
    pub dlc: u8,
    /// The data bytes, zero beyond `dlc`.
    pub data: [u8; 8],
}

/// `0x708` — the inverter's two lower fault layers plus the commanded side
/// of the fault handshake and a freshness measure.
///
/// `pwrstg_alive`, `pwrstg_enable` and `emctrl_init_ok` are **health** bits:
/// set is normal, **clear** is the anomaly. [`EcuInvFaultsFrame::l1_anomalies`]
/// and [`EcuInvFaultsFrame::l2_anomalies`] fold that inversion in.
#[derive(Clone, Copy, Debug, PartialEq, Eq)]
pub struct EcuInvFaultsFrame {
    /// Health bit — power stage alive. Clear is the anomaly.
    pub pwrstg_alive: bool,
    /// Health bit — power stage enabled. Clear is the anomaly.
    pub pwrstg_enable: bool,
    /// Under-voltage lockout.
    pub pwrstg_uvlo: bool,
    /// Desaturation.
    pub pwrstg_desat: bool,
    /// Dead-time violation.
    pub pwrstg_dt_violation: bool,
    /// HVIL open — no CAN command clears a DEM while this is asserted.
    pub pwrstg_hvil_open: bool,
    /// Over-current protection.
    pub pwrstg_ocp: bool,
    /// Over-voltage, threshold 1.
    pub pwrstg_ovp_th1: bool,
    /// Over-voltage, threshold 2 (the ninth L1 bit, byte 1 bit 0).
    pub pwrstg_ovp_th2: bool,
    /// Health bit — machine control initialised. Clear is the anomaly.
    pub emctrl_init_ok: bool,
    /// Position-feedback fault.
    pub emctrl_posfb: bool,
    /// Active short circuit engaged.
    pub emctrl_asc: bool,
    /// Phase-current imbalance.
    pub emctrl_curr_imbalance: bool,
    /// Power-stage fault — the cascade marker: when set, read L1.
    pub emctrl_pwrstg_fault: bool,
    /// Current derating active.
    pub emctrl_curr_derating: bool,
    /// Control loop de-locked.
    pub emctrl_loop_delocked: bool,
    /// Phase-current acquisition fault.
    pub emctrl_phcurr_acq: bool,
    /// Follow-up words sent after the primary recovery word (0..=3).
    pub cmd_follow_n: u8,
    /// The ECU asserted `Flt_Clear`.
    pub cmd_flt_clear: bool,
    /// Milliseconds since the last inverter state frame, saturating at 255.
    pub inv_state_age_ms: u8,
    /// Increments once per inverter state frame received, wrapping.
    pub inv_state_seq: u8,
}

/// `name` when `set`, nothing otherwise.
pub open spec fn name_if(set: bool, name: &'static str) -> Seq<&'static str> {
    if set {
        seq![name]
    } else {
        Seq::empty()
    }
}

impl EcuInvFaultsFrame {
    /// Active L1 anomalies, health-bit inversion applied, in bit order.
    pub open spec fn l1_names(self) -> Seq<&'static str> {
        name_if(!self.pwrstg_alive, "PwrStg not alive") + name_if(
            !self.pwrstg_enable,
            "PwrStg not enabled",
        ) + name_if(self.pwrstg_uvlo, "UVLO") + name_if(self.pwrstg_desat, "Desat") + name_if(
            self.pwrstg_dt_violation,
            "DeadTimeViolation",
        ) + name_if(self.pwrstg_hvil_open, "HVIL_Open") + name_if(self.pwrstg_ocp, "OCP")
            + name_if(self.pwrstg_ovp_th1, "OVP_Th1") + name_if(self.pwrstg_ovp_th2, "OVP_Th2")
    }

    /// Active L2 anomalies, health-bit inversion applied, in bit order.
    pub open spec fn l2_names(self) -> Seq<&'static str> {
        name_if(!self.emctrl_init_ok, "EMCtrl not initialised") + name_if(
            self.emctrl_posfb,
            "PosFeedback",
        ) + name_if(self.emctrl_asc, "ASC") + name_if(
            self.emctrl_curr_imbalance,
            "CurrentImbalance",
        ) + name_if(self.emctrl_pwrstg_fault, "PwrStgFault (see L1)") + name_if(
            self.emctrl_curr_derating,
            "CurrentDerating",
        ) + name_if(self.emctrl_loop_delocked, "LoopDelocked") + name_if(
            self.emctrl_phcurr_acq,
            "PhaseCurrentAcq",
        )
    }

    /// Whether any L1 condition is live: a health bit clear or a fault bit
    /// set.
    pub open spec fn l1_live(self) -> bool {
        !self.pwrstg_alive || !self.pwrstg_enable || self.pwrstg_uvlo || self.pwrstg_desat
            || self.pwrstg_dt_violation || self.pwrstg_hvil_open || self.pwrstg_ocp
            || self.pwrstg_ovp_th1 || self.pwrstg_ovp_th2
    }

    /// Names of the active L1 anomalies, health-bit inversion already
    /// applied. Empty means the power stage is clean.
    pub fn l1_anomalies(&self) -> (r: Vec<&'static str>)
        ensures
            r@ == self.l1_names(),
    {
        let mut v: Vec<&'static str> = Vec::new();
        push_name_if(&mut v, !self.pwrstg_alive, "PwrStg not alive");
        assert(v@ =~= name_if(!self.pwrstg_alive, "PwrStg not alive"));
        push_name_if(&mut v, !self.pwrstg_enable, "PwrStg not enabled");
        push_name_if(&mut v, self.pwrstg_uvlo, "UVLO");
        push_name_if(&mut v, self.pwrstg_desat, "Desat");
        push_name_if(&mut v, self.pwrstg_dt_violation, "DeadTimeViolation");
        push_name_if(&mut v, self.pwrstg_hvil_open, "HVIL_Open");
        push_name_if(&mut v, self.pwrstg_ocp, "OCP");
        push_name_if(&mut v, self.pwrstg_ovp_th1, "OVP_Th1");
        push_name_if(&mut v, self.pwrstg_ovp_th2, "OVP_Th2");
        v
    }

    /// Names of the active L2 anomalies, health-bit inversion already
    /// applied.
    pub fn l2_anomalies(&self) -> (r: Vec<&'static str>)
        ensures
            r@ == self.l2_names(),
    {
        let mut v: Vec<&'static str> = Vec::new();
        push_name_if(&mut v, !self.emctrl_init_ok, "EMCtrl not initialised");
        assert(v@ =~= name_if(!self.emctrl_init_ok, "EMCtrl not initialised"));
        push_name_if(&mut v, self.emctrl_posfb, "PosFeedback");
        push_name_if(&mut v, self.emctrl_asc, "ASC");
        push_name_if(&mut v, self.emctrl_curr_imbalance, "CurrentImbalance");
        push_name_if(&mut v, self.emctrl_pwrstg_fault, "PwrStgFault (see L1)");
        push_name_if(&mut v, self.emctrl_curr_derating, "CurrentDerating");
        push_name_if(&mut v, self.emctrl_loop_delocked, "LoopDelocked");
        push_name_if(&mut v, self.emctrl_phcurr_acq, "PhaseCurrentAcq");
        v
    }

    /// `true` while an L1 condition is holding a DEM up — no CAN command
    /// will clear the fault in this state.
    pub fn l1_blocks_dem_clear(&self) -> (r: bool)
        ensures
            r == (self.l1_names().len() != 0),
            r == self.l1_live(),
    {
        let v = self.l1_anomalies();
        proof {
            self.lemma_l1_names_nonempty();
        }
        v.len() != 0
    }

    /// The L1 list is non-empty exactly when an L1 condition is live.
    proof fn lemma_l1_names_nonempty(self)
        ensures
            (self.l1_names().len() != 0) == self.l1_live(),
    {
        let a = name_if(!self.pwrstg_alive, "PwrStg not alive");
        let b = name_if(!self.pwrstg_enable, "PwrStg not enabled");
        let c = name_if(self.pwrstg_uvlo, "UVLO");
        let d = name_if(self.pwrstg_desat, "Desat");
        let e = name_if(self.pwrstg_dt_violation, "DeadTimeViolation");
        let f = name_if(self.pwrstg_hvil_open, "HVIL_Open");
        let g = name_if(self.pwrstg_ocp, "OCP");
        let h = name_if(self.pwrstg_ovp_th1, "OVP_Th1");
        let i = name_if(self.pwrstg_ovp_th2, "OVP_Th2");
        assert(self.l1_names().len() == a.len() + b.len() + c.len() + d.len() + e.len() + f.len()
            + g.len() + h.len() + i.len());
    }
}

/// Append `name` when `set`.
fn push_name_if(v: &mut Vec<&'static str>, set: bool, name: &'static str)
    ensures
        final(v)@ == old(v)@ + name_if(set, name),
{
    if set {
        v.push(name);
    }
    assert(final(v)@ =~= old(v)@ + name_if(set, name));
}

/// A decoded ECU pit-diag frame.
#[derive(Clone, Copy, Debug, PartialEq, Eq)]
pub enum EcuPitDiagFrame {
    /// ECU replied to an arm/disarm command (`0x7E1`).
    Ack {
        /// `true` after a successful arm, `false` after a disarm.
        enabled: bool,
    },
    /// `0x700` — FSM / inverter status.
    Status(EcuStatusFrame),
    /// `0x701` — APPS pedals + brake raw.
    Pedals(EcuPedalsFrame),
    /// `0x705` — physical brake.
    Brake(EcuBrakeFrame),
    /// `0x702` — inverter telemetry.
    Inverter(EcuInverterFrame),
    /// `0x706` — inverter temperatures.
    InverterTemps(EcuInverterTempsFrame),
    /// `0x703` — firmware identity.
    FwInfo(EcuFwInfoFrame),
    /// `0x704` — firmware health.
    Health(EcuHealthFrame),
    /// `0x707` — DV (driverless) integration view.
    Dv(EcuDvFrame),
    /// `0x708` — inverter L1/L2 fault layers + commanded burst.
    InvFaults(EcuInvFaultsFrame),
    /// `0x709` — the low-cell derate.
    Cell(EcuRawFrame),
    /// `0x70A` — the pack thermal cap.
    PackTemp(EcuRawFrame),
    /// `0x70B` — inverter field-oriented control.
    InvFoc(EcuRawFrame),
    /// `0x70C` — inverter torque.
    InvTorque(EcuRawFrame),
    /// `0x70D` — power.
    Power(EcuRawFrame),
}

// ---- Encode / decode ---------------------------------------------

/// Build the CAN frame that arms (or disarms) the ECU pit-diag stream.
pub fn build_arm_frame(enable: bool) -> (r: CanFrame)
    ensures
        r.id == ECU_ARM_ID,
        r.payload_bytes() == arm_payload(enable),
{
    let payload: [u8; 4] = if enable {
        ECU_ARM_ENABLE_PAYLOAD
    } else {
        ECU_ARM_DISABLE_PAYLOAD
    };
    assert(payload@ =~= arm_payload(enable));
    CanFrame::new(ECU_ARM_ID, &payload).unwrap()
}

/// Whether bit `mask` is set in `b`.
pub open spec fn bit_set(b: u8, mask: u8) -> bool {
    b & mask != 0
}

/// `0x700` payload of at least eight bytes.
pub open spec fn status_of(p: Seq<u8>) -> EcuStatusFrame {
    EcuStatusFrame {
        fsm_state: EcuFsmState::decoded(p[0]),
        inv_state: EcuInvState::decoded(p[1]),
        ev_2_3: bit_set(p[2], 0x01),
        t11_8_9: bit_set(p[2], 0x02),
        rtds_active: bit_set(p[2], 0x04),
        ok_precharge: bit_set(p[2], 0x08),
        start_button: bit_set(p[2], 0x10),
        dv_mode: bit_set(p[2], 0x20),
        tx_dropped: bit_set(p[2], 0x40),
        torque_pct: p[3],
        v_cell_min_mv: be_u16_of(p[4], p[5]),
        torque_cmd: be_i16_of(p[6], p[7]),
    }
}

/// `0x701` payload of at least eight bytes.
pub open spec fn pedals_of(p: Seq<u8>) -> EcuPedalsFrame {
    EcuPedalsFrame {
        apps1_raw: be_u16_of(p[0], p[1]),
        apps2_raw: be_u16_of(p[2], p[3]),
        brake_raw: be_u16_of(p[4], p[5]),
        apps1_pct: p[6],
        apps2_pct: p[7],
    }
}

/// `0x705` payload of at least three bytes.
pub open spec fn brake_of(p: Seq<u8>) -> EcuBrakeFrame {
    EcuBrakeFrame { brake_pressure_dbar: be_u16_of(p[0], p[1]), brake_pct: p[2] }
}

/// `0x702` payload of at least seven bytes; byte 7, when present, carries
/// `dem_present` (bit 0) and `inv_mode_cmd` (bits 1-7).
pub open spec fn inverter_of(p: Seq<u8>) -> EcuInverterFrame {
    EcuInverterFrame {
        dc_bus_voltage: be_u16_of(p[0], p[1]),
        inv_rpm: be_i32_of(p[2], p[3], p[4], p[5]),
        inv_error: p[6],
        dem_present: p.len() >= 8 && bit_set(p[7], 0x01),
        inv_mode_cmd: if p.len() >= 8 {
            p[7] >> 1u8
        } else {
            INV_MODE_NONE
        },
    }
}

/// `0x703` payload of at least seven bytes.
pub open spec fn fwinfo_of(p: Seq<u8>) -> EcuFwInfoFrame {
    EcuFwInfoFrame { fw_major: p[0], fw_minor: p[1], fw_patch: p[2], git_hash: [p[3], p[4], p[5], p[6]] }
}

/// Temperature of a raw byte: `°C = raw − 50`.
pub open spec fn degc_of(raw: u8) -> i16 {
    (raw as int - 50) as i16
}

/// `0x706` payload of at least four bytes.
pub open spec fn temps_of(p: Seq<u8>) -> EcuInverterTempsFrame {
    EcuInverterTempsFrame {
        board_degc: degc_of(p[0]),
        pwrstg_degc: degc_of(p[1]),
        motor1_degc: degc_of(p[2]),
        motor2_degc: degc_of(p[3]),
    }
}

/// `0x704` payload of at least eight bytes. Byte 5 packs `reset_cause`
/// (bits 0-2), `stub_brake` (bit 3) and `cal_status` (bits 4-5).
pub open spec fn health_of(p: Seq<u8>) -> EcuHealthFrame {
    EcuHealthFrame {
        free_heap: be_u16_of(p[0], p[1]),
        min_free_heap: be_u16_of(p[2], p[3]),
        task_control: bit_set(p[4], 0x01),
        task_can_rx: bit_set(p[4], 0x02),
        task_can_tx: bit_set(p[4], 0x04),
        task_telemetry: bit_set(p[4], 0x08),
        task_diag: bit_set(p[4], 0x10),
        stub_no_ams: bit_set(p[4], 0x20),
        stub_no_inverter: bit_set(p[4], 0x40),
        stub_start: bit_set(p[4], 0x80),
        stub_brake: bit_set(p[5], 0x08),
        boot_refused: bit_set(p[5], 0x40),
        cal_status: EcuCalStatus::decoded(p[5] >> 4u8),
        reset_cause: EcuResetCause::decoded(p[5] & 0x07u8),
        uptime_s: p[6],
        last_fault: p[7],
    }
}

/// `0x707` payload of at least five bytes.
pub open spec fn dv_of(p: Seq<u8>) -> EcuDvFrame {
    EcuDvFrame {
        as_status: p[4],
        as_fresh: bit_set(p[0], 0x20),
        as_from_stale: bit_set(p[0], 0x40),
        as_emergency: bit_set(p[0], 0x80),
        dv_r2d_req: bit_set(p[0], 0x01),
        dv_cmd_fresh: bit_set(p[0], 0x02),
        ts_active: bit_set(p[0], 0x04),
        brake_over_limit: bit_set(p[0], 0x08),
        r2d_confirm: bit_set(p[0], 0x10),
        dv_torque_pct: p[1],
        motor_rpm_mech: le_i16_of(p[2], p[3]),
    }
}

/// `0x708` payload of at least six bytes: L1 is byte 0 plus bit 0 of byte 1,
/// L2 is byte 2, the commanded handshake byte 3 bits 0-2.
pub open spec fn inv_faults_of(p: Seq<u8>) -> EcuInvFaultsFrame {
    EcuInvFaultsFrame {
        pwrstg_alive: bit_set(p[0], 0x01),
        pwrstg_enable: bit_set(p[0], 0x02),
        pwrstg_uvlo: bit_set(p[0], 0x04),
        pwrstg_desat: bit_set(p[0], 0x08),
        pwrstg_dt_violation: bit_set(p[0], 0x10),
        pwrstg_hvil_open: bit_set(p[0], 0x20),
        pwrstg_ocp: bit_set(p[0], 0x40),
        pwrstg_ovp_th1: bit_set(p[0], 0x80),
        pwrstg_ovp_th2: bit_set(p[1], 0x01),
        emctrl_init_ok: bit_set(p[2], 0x01),
        emctrl_posfb: bit_set(p[2], 0x02),
        emctrl_asc: bit_set(p[2], 0x04),
        emctrl_curr_imbalance: bit_set(p[2], 0x08),
        emctrl_pwrstg_fault: bit_set(p[2], 0x10),
        emctrl_curr_derating: bit_set(p[2], 0x20),
        emctrl_loop_delocked: bit_set(p[2], 0x40),
        emctrl_phcurr_acq: bit_set(p[2], 0x80),
        cmd_follow_n: p[3] & 0x03u8,
        cmd_flt_clear: bit_set(p[3], 0x04),
        inv_state_age_ms: p[4],
        inv_state_seq: p[5],
    }
}

/// Byte `i` of `p`, zero past its end.
pub open spec fn byte_or_zero(p: Seq<u8>, i: int) -> u8 {
    if i < p.len() {
        p[i]
    } else {
        0
    }
}

/// Raw frame of a payload of at most eight bytes.
pub open spec fn raw_of(p: Seq<u8>) -> EcuRawFrame {
    EcuRawFrame {
        dlc: p.len() as u8,
        data: [
            byte_or_zero(p, 0),
            byte_or_zero(p, 1),
            byte_or_zero(p, 2),
            byte_or_zero(p, 3),
            byte_or_zero(p, 4),
            byte_or_zero(p, 5),
            byte_or_zero(p, 6),
            byte_or_zero(p, 7),
        ],
    }
}

/// Decoding of a frame with identifier `id` and data `p`: `None` for an
/// identifier outside the stream or a payload too short for its frame.
pub open spec fn decoded_frame(id: u16, p: Seq<u8>) -> Option<EcuPitDiagFrame> {
    if id == ECU_ACK_ID {
        Some(EcuPitDiagFrame::Ack { enabled: p.len() > 0 && p[0] == 0x01 })
    } else if id == ECU_STATUS_ID {
        if p.len() < 8 { None } else { Some(EcuPitDiagFrame::Status(status_of(p))) }
    } else if id == ECU_PEDALS_ID {
        if p.len() < 8 { None } else { Some(EcuPitDiagFrame::Pedals(pedals_of(p))) }
    } else if id == ECU_BRAKE_ID {
        if p.len() < 3 { None } else { Some(EcuPitDiagFrame::Brake(brake_of(p))) }
    } else if id == ECU_INVERTER_ID {
        if p.len() < 7 { None } else { Some(EcuPitDiagFrame::Inverter(inverter_of(p))) }
    } else if id == ECU_FWINFO_ID {
        if p.len() < 7 { None } else { Some(EcuPitDiagFrame::FwInfo(fwinfo_of(p))) }
    } else if id == ECU_INVERTER_TEMPS_ID {
        if p.len() < 4 { None } else { Some(EcuPitDiagFrame::InverterTemps(temps_of(p))) }
    } else if id == ECU_HEALTH_ID {
        if p.len() < 8 { None } else { Some(EcuPitDiagFrame::Health(health_of(p))) }
    } else if id == ECU_DV_ID {
        if p.len() < 5 { None } else { Some(EcuPitDiagFrame::Dv(dv_of(p))) }
    } else if id == ECU_INV_FAULTS_ID {
        if p.len() < 6 { None } else { Some(EcuPitDiagFrame::InvFaults(inv_faults_of(p))) }
    } else if p.len() > 8 {
        None
    } else if id == ECU_CELL_ID {
        Some(EcuPitDiagFrame::Cell(raw_of(p)))
    } else if id == ECU_PACK_TEMP_ID {
        Some(EcuPitDiagFrame::PackTemp(raw_of(p)))
    } else if id == ECU_INV_FOC_ID {
        Some(EcuPitDiagFrame::InvFoc(raw_of(p)))
    } else if id == ECU_INV_TORQUE_ID {
        Some(EcuPitDiagFrame::InvTorque(raw_of(p)))
    } else if id == ECU_POWER_ID {
        Some(EcuPitDiagFrame::Power(raw_of(p)))
    } else {
        None
    }
}

fn decode_status(p: &[u8]) -> (r: EcuStatusFrame)
    requires
        p@.len() >= 8,
    ensures
        r == status_of(p@),
{
    let flags = p[2];
    EcuStatusFrame {
        fsm_state: EcuFsmState::from_byte(p[0]),
        inv_state: EcuInvState::from_byte(p[1]),
        ev_2_3: (flags & 0x01) != 0,
        t11_8_9: (flags & 0x02) != 0,
        rtds_active: (flags & 0x04) != 0,
        ok_precharge: (flags & 0x08) != 0,
        start_button: (flags & 0x10) != 0,
        dv_mode: (flags & 0x20) != 0,
        tx_dropped: (flags & 0x40) != 0,
        torque_pct: p[3],
        v_cell_min_mv: be_u16(p[4], p[5]),
        torque_cmd: be_i16(p[6], p[7]),
    }
}

fn decode_inverter(p: &[u8]) -> (r: EcuInverterFrame)
    requires
        p@.len() >= 7,
    ensures
        r == inverter_of(p@),
{
    let has_byte7 = p.len() >= 8;
    EcuInverterFrame {
        dc_bus_voltage: be_u16(p[0], p[1]),
        inv_rpm: be_i32(p[2], p[3], p[4], p[5]),
        inv_error: p[6],
        dem_present: has_byte7 && (p[7] & 0x01) != 0,
        inv_mode_cmd: if has_byte7 {
            p[7] >> 1u8
        } else {
            INV_MODE_NONE
        },
    }
}

fn degc(raw: u8) -> (r: i16)
    ensures
        r == degc_of(raw),
{
    (raw as i16) - 50
}

fn decode_health(p: &[u8]) -> (r: EcuHealthFrame)
    requires
        p@.len() >= 8,
    ensures
        r == health_of(p@),
{
    let live = p[4];
    let cause = p[5];
    EcuHealthFrame {
        free_heap: be_u16(p[0], p[1]),
        min_free_heap: be_u16(p[2], p[3]),
        task_control: (live & 0x01) != 0,
        task_can_rx: (live & 0x02) != 0,
        task_can_tx: (live & 0x04) != 0,
        task_telemetry: (live & 0x08) != 0,
        task_diag: (live & 0x10) != 0,
        stub_no_ams: (live & 0x20) != 0,
        stub_no_inverter: (live & 0x40) != 0,
        stub_start: (live & 0x80) != 0,
        stub_brake: (cause & 0x08) != 0,
        boot_refused: (cause & 0x40) != 0,
        cal_status: EcuCalStatus::from_bits(cause >> 4u8),
        reset_cause: EcuResetCause::from_byte(cause & 0x07u8),
        uptime_s: p[6],
        last_fault: p[7],
    }
}

fn decode_dv(p: &[u8]) -> (r: EcuDvFrame)
    requires
        p@.len() >= 5,
    ensures
        r == dv_of(p@),
{
    let flags = p[0];
    EcuDvFrame {
        dv_r2d_req: (flags & 0x01) != 0,
        dv_cmd_fresh: (flags & 0x02) != 0,
        ts_active: (flags & 0x04) != 0,
        brake_over_limit: (flags & 0x08) != 0,
        r2d_confirm: (flags & 0x10) != 0,
        dv_torque_pct: p[1],
        motor_rpm_mech: le_i16(p[2], p[3]),
        as_status: p[4],
        as_fresh: (flags & 0x20) != 0,
        as_from_stale: (flags & 0x40) != 0,
        as_emergency: (flags & 0x80) != 0,
    }
}

fn decode_inv_faults(p: &[u8]) -> (r: EcuInvFaultsFrame)
    requires
        p@.len() >= 6,
    ensures
        r == inv_faults_of(p@),
{
    let l1_lo = p[0];
    let l1_hi = p[1];
    let l2 = p[2];
    let cmd = p[3];
    EcuInvFaultsFrame {
        pwrstg_alive: (l1_lo & 0x01) != 0,
        pwrstg_enable: (l1_lo & 0x02) != 0,
        pwrstg_uvlo: (l1_lo & 0x04) != 0,
        pwrstg_desat: (l1_lo & 0x08) != 0,
        pwrstg_dt_violation: (l1_lo & 0x10) != 0,
        pwrstg_hvil_open: (l1_lo & 0x20) != 0,
        pwrstg_ocp: (l1_lo & 0x40) != 0,
        pwrstg_ovp_th1: (l1_lo & 0x80) != 0,
        pwrstg_ovp_th2: (l1_hi & 0x01) != 0,
        emctrl_init_ok: (l2 & 0x01) != 0,
        emctrl_posfb: (l2 & 0x02) != 0,
        emctrl_asc: (l2 & 0x04) != 0,
        emctrl_curr_imbalance: (l2 & 0x08) != 0,
        emctrl_pwrstg_fault: (l2 & 0x10) != 0,
        emctrl_curr_derating: (l2 & 0x20) != 0,
        emctrl_loop_delocked: (l2 & 0x40) != 0,
        emctrl_phcurr_acq: (l2 & 0x80) != 0,
        cmd_follow_n: cmd & 0x03u8,
        cmd_flt_clear: (cmd & 0x04) != 0,
        inv_state_age_ms: p[4],
        inv_state_seq: p[5],
    }
}

fn byte_at_or_zero(p: &[u8], i: usize) -> (r: u8)
    ensures
        r == byte_or_zero(p@, i as int),
{
    if i < p.len() {
        p[i]
    } else {
        0
    }
}

fn decode_raw(p: &[u8]) -> (r: EcuRawFrame)
    requires
        p@.len() <= 8,
    ensures
        r == raw_of(p@),
{
    EcuRawFrame {
        dlc: p.len() as u8,
        data: [
            byte_at_or_zero(p, 0),
            byte_at_or_zero(p, 1),
            byte_at_or_zero(p, 2),
            byte_at_or_zero(p, 3),
            byte_at_or_zero(p, 4),
            byte_at_or_zero(p, 5),
            byte_at_or_zero(p, 6),
            byte_at_or_zero(p, 7),
        ],
    }
}

/// Decode a raw CAN frame into an ECU pit-diag record. `None` if the
/// identifier isn't part of the stream, or a recognised identifier arrived
/// with a payload too short to decode (or, for the raw `0x709`-`0x70D`
/// frames, longer than a classic CAN frame).
pub fn decode_frame(frame: &CanFrame) -> (r: Option<EcuPitDiagFrame>)
    ensures
        r == decoded_frame(frame.id, frame.payload_bytes()),
{
    let id = frame.id;
    let p = frame.payload();
    if id == ECU_ACK_ID {
        let enabled = p.len() > 0 && p[0] == 0x01;
        Some(EcuPitDiagFrame::Ack { enabled })
    } else if id == ECU_STATUS_ID {
        if p.len() < 8 {
            return None;
        }
        Some(EcuPitDiagFrame::Status(decode_status(p)))
    } else if id == ECU_PEDALS_ID {
        if p.len() < 8 {
            return None;
        }
        Some(
            EcuPitDiagFrame::Pedals(
                EcuPedalsFrame {
                    apps1_raw: be_u16(p[0], p[1]),
                    apps2_raw: be_u16(p[2], p[3]),
                    brake_raw: be_u16(p[4], p[5]),
                    apps1_pct: p[6],
                    apps2_pct: p[7],
                },
            ),
        )
    } else if id == ECU_BRAKE_ID {
        if p.len() < 3 {
            return None;
        }
        Some(
            EcuPitDiagFrame::Brake(
                EcuBrakeFrame { brake_pressure_dbar: be_u16(p[0], p[1]), brake_pct: p[2] },
            ),
        )
    } else if id == ECU_INVERTER_ID {
        if p.len() < 7 {
            return None;
        }
        Some(EcuPitDiagFrame::Inverter(decode_inverter(p)))
    } else if id == ECU_FWINFO_ID {
        if p.len() < 7 {
            return None;
        }
        let git_hash = [p[3], p[4], p[5], p[6]];
        Some(
            EcuPitDiagFrame::FwInfo(
                EcuFwInfoFrame { fw_major: p[0], fw_minor: p[1], fw_patch: p[2], git_hash },
            ),
        )
    } else if id == ECU_INVERTER_TEMPS_ID {
        if p.len() < 4 {
            return None;
        }
        Some(
            EcuPitDiagFrame::InverterTemps(
                EcuInverterTempsFrame {
                    board_degc: degc(p[0]),
                    pwrstg_degc: degc(p[1]),
                    motor1_degc: degc(p[2]),
                    motor2_degc: degc(p[3]),
                },
            ),
        )
    } else if id == ECU_HEALTH_ID {
        if p.len() < 8 {
            return None;
        }
        Some(EcuPitDiagFrame::Health(decode_health(p)))
    } else if id == ECU_DV_ID {
        if p.len() < 5 {
            return None;
        }
        Some(EcuPitDiagFrame::Dv(decode_dv(p)))
    } else if id == ECU_INV_FAULTS_ID {
        if p.len() < 6 {
            return None;
        }
        Some(EcuPitDiagFrame::InvFaults(decode_inv_faults(p)))
    } else if p.len() > 8 {
        None
    } else if id == ECU_CELL_ID {
        Some(EcuPitDiagFrame::Cell(decode_raw(p)))
    } else if id == ECU_PACK_TEMP_ID {
        Some(EcuPitDiagFrame::PackTemp(decode_raw(p)))
    } else if id == ECU_INV_FOC_ID {
        Some(EcuPitDiagFrame::InvFoc(decode_raw(p)))
    } else if id == ECU_INV_TORQUE_ID {
        Some(EcuPitDiagFrame::InvTorque(decode_raw(p)))
    } else if id == ECU_POWER_ID {
        Some(EcuPitDiagFrame::Power(decode_raw(p)))
    } else {
        None
    }
}

// ---- Laws --------------------------------------------------------

/// The calibration status is total over its two bits: bits above them are
/// masked off, never misread, and only the value 1 means a stored
/// calibration is in force.
pub proof fn lemma_cal_status_total(b: u8)
    ensures
        EcuCalStatus::decoded(b) == EcuCalStatus::decoded(b & 0x03u8),
        (EcuCalStatus::decoded(b) is Loaded) <==> (b & 0x03u8 == 1),
{
    assert((b & 0x03u8) & 0x03u8 == b & 0x03u8) by (bit_vector);
    assert(b & 0x03u8 <= 3) by (bit_vector);
}

/// Byte 5 of the health frame packs three fields, and each comes out
/// independent of the others: the reset cause reads bits 0-2 only,
/// `stub_brake` bit 3 only, and the calibration status bits 4-5 only.
pub proof fn lemma_health_byte5_fields_independent(p: Seq<u8>, q: Seq<u8>)
    requires
        p.len() >= 8,
        q.len() >= 8,
    ensures
        p[5] & 0x07u8 == q[5] & 0x07u8 ==> health_of(p).reset_cause == health_of(q).reset_cause,
        p[5] & 0x08u8 == q[5] & 0x08u8 ==> health_of(p).stub_brake == health_of(q).stub_brake,
        p[5] & 0x30u8 == q[5] & 0x30u8 ==> health_of(p).cal_status == health_of(q).cal_status,
{
    let a = p[5];
    let b = q[5];
    assert(a & 0x30u8 == b & 0x30u8 ==> (a >> 4u8) & 0x03u8 == (b >> 4u8) & 0x03u8)
        by (bit_vector);
    assert(a & 0x08u8 == b & 0x08u8 ==> ((a & 0x08u8) != 0) == ((b & 0x08u8) != 0))
        by (bit_vector);
    lemma_cal_status_total(a >> 4u8);
    lemma_cal_status_total(b >> 4u8);
}

/// The commanded inverter mode takes all seven bits above `dem_present` and
/// nothing else: it never exceeds `0x7F`, and setting or clearing
/// `dem_present` leaves it unchanged.
pub proof fn lemma_inv_mode_cmd_is_seven_bits(p: Seq<u8>)
    requires
        p.len() >= 8,
    ensures
        inverter_of(p).inv_mode_cmd <= 0x7F,
        inverter_of(p).inv_mode_cmd == (p[7] | 0x01u8) >> 1u8,
        inverter_of(p).inv_mode_cmd == (p[7] & 0xFEu8) >> 1u8,
{
    let b = p[7];
    assert(b >> 1u8 <= 0x7F && b >> 1u8 == (b | 0x01u8) >> 1u8 && b >> 1u8 == (b & 0xFEu8)
        >> 1u8) by (bit_vector);
}


/// The `0x700` status frame reads the two state tables of the ECU at fixed
/// places: for every payload of at least eight bytes, byte 0 is the control
/// FSM (0 waiting for the inverter VDC config, 1 precharge, 2 waiting for
/// start + brake, 3 R2D delay, 4 waiting for inverter standby, 5 active,
/// 6 AMS error, anything else passed through) and byte 1 the inverter state
/// (0 off, 3 standby, 4 ready, 6 torque enable, 10 soft fault, 11 hard
/// fault, 13 shutdown, anything else passed through). Shorter payloads are
/// not a status frame.
pub proof fn lemma_status_state_tables(p: Seq<u8>)
    ensures
        decoded_frame(0x700u16, p) is Some <==> p.len() >= 8,
        p.len() >= 8 ==> (decoded_frame(0x700u16, p) matches Some(EcuPitDiagFrame::Status(s)) && (
        p[0] == 0 ==> s.fsm_state == EcuFsmState::WaitInvVdcConfig) && (p[0] == 1
            ==> s.fsm_state == EcuFsmState::Precharge) && (p[0] == 2 ==> s.fsm_state
            == EcuFsmState::WaitStartBrake) && (p[0] == 3 ==> s.fsm_state == EcuFsmState::R2dDelay)
            && (p[0] == 4 ==> s.fsm_state == EcuFsmState::WaitInvStandby) && (p[0] == 5
            ==> s.fsm_state == EcuFsmState::Active) && (p[0] == 6 ==> s.fsm_state
            == EcuFsmState::AmsError) && (p[0] > 6 ==> s.fsm_state == EcuFsmState::Unknown(p[0]))
            && (p[1] == 0 ==> s.inv_state == EcuInvState::Off) && (p[1] == 3 ==> s.inv_state
            == EcuInvState::Standby) && (p[1] == 4 ==> s.inv_state == EcuInvState::Ready) && (p[1]
            == 6 ==> s.inv_state == EcuInvState::TorqueEnable) && (p[1] == 10 ==> s.inv_state
            == EcuInvState::SoftFault) && (p[1] == 11 ==> s.inv_state == EcuInvState::HardFault)
            && (p[1] == 13 ==> s.inv_state == EcuInvState::Shutdown) && (p[1] != 0 && p[1] != 3
            && p[1] != 4 && p[1] != 6 && p[1] != 10 && p[1] != 11 && p[1] != 13 ==> s.inv_state
            == EcuInvState::Unknown(p[1]))),
{
}

/// The `0x704` health frame reads the reset cause from byte 5 bits 0-2
/// (0 undetermined, 1 power-on, 2 pin, 3 software, 4 independent watchdog,
/// 5 window watchdog, 6 low power, 7 passed through) and the calibration
/// provenance from byte 5 bits 4-5 (0 defaults, 1 loaded, 2 invalid fell
/// back, 3 bad version fell back), for every payload of at least eight
/// bytes.
pub proof fn lemma_health_state_tables(p: Seq<u8>)
    ensures
        decoded_frame(0x704u16, p) is Some <==> p.len() >= 8,
        p.len() >= 8 ==> (decoded_frame(0x704u16, p) matches Some(EcuPitDiagFrame::Health(h)) && {
            let c = p[5] % 8;
            let v = (p[5] / 16) % 4;
            &&& (c == 0 ==> h.reset_cause == EcuResetCause::Unknown)
            &&& (c == 1 ==> h.reset_cause == EcuResetCause::PowerOn)
            &&& (c == 2 ==> h.reset_cause == EcuResetCause::Pin)
            &&& (c == 3 ==> h.reset_cause == EcuResetCause::Software)
            &&& (c == 4 ==> h.reset_cause == EcuResetCause::Iwdg)
            &&& (c == 5 ==> h.reset_cause == EcuResetCause::Wwdg)
            &&& (c == 6 ==> h.reset_cause == EcuResetCause::LowPower)
            &&& (c == 7 ==> h.reset_cause == EcuResetCause::Other(7))
            &&& (v == 0 ==> h.cal_status == EcuCalStatus::Defaults)
            &&& (v == 1 ==> h.cal_status == EcuCalStatus::Loaded)
            &&& (v == 2 ==> h.cal_status == EcuCalStatus::InvalidFellBack)
            &&& (v == 3 ==> h.cal_status == EcuCalStatus::BadVersionFellBack)
        }),
{
    let b = p[5];
    assert(b & 0x07u8 == b % 8 && (b >> 4u8) & 0x03u8 == (b / 16) % 4) by (bit_vector);
}

/// Inverter DEM codes are named by the W90 §9.2.3 table, code by code; every
/// code past 15 is "unknown".
pub proof fn lemma_dem_fault_names(code: u8)
    ensures
        code == 0 ==> dem_name(code) == "NoFault",
        code == 1 ==> dem_name(code) == "LostMsg",
        code == 2 ==> dem_name(code) == "Undervoltage",
        code == 3 ==> dem_name(code) == "PwrStgOvertemp",
        code == 4 ==> dem_name(code) == "PwrStgTempDegradation",
        code == 5 ==> dem_name(code) == "EMCtrFault",
        code == 6 ==> dem_name(code) == "TaskOverrun",
        code == 7 ==> dem_name(code) == "CAN1_BusOff",
        code == 8 ==> dem_name(code) == "EmachineOvertemp",
        code == 9 ==> dem_name(code) == "PhaseCurrentSensorRange",
        code == 10 ==> dem_name(code) == "PwrStgTempSensorRange",
        code == 11 ==> dem_name(code) == "DCBusVoltageSensorRange",
        code == 12 ==> dem_name(code) == "DPBoardOvertemp",
        code == 13 ==> dem_name(code) == "DRVBoardOvertemp",
        code == 14 ==> dem_name(code) == "AuxSupplyRange",
        code == 15 ==> dem_name(code) == "EmachineOverspeed",
        code > 15 ==> dem_name(code) == "unknown",
{
}

/// Commanded inverter mode words are named by the `App_State_Req` table:
/// 0x00 none, 0x01 Off, 0x04 Ready, 0x06 TorqueEnable, 0x0D HardFaultReset,
/// 0x13 Fault, every other word "unknown".
pub proof fn lemma_inv_mode_names(mode: u8)
    ensures
        mode == 0x00 ==> inv_mode_name(mode) == "none",
        mode == 0x01 ==> inv_mode_name(mode) == "Off",
        mode == 0x04 ==> inv_mode_name(mode) == "Ready",
        mode == 0x06 ==> inv_mode_name(mode) == "TorqueEnable",
        mode == 0x0D ==> inv_mode_name(mode) == "HardFaultReset",
        mode == 0x13 ==> inv_mode_name(mode) == "Fault",
        mode != 0x00 && mode != 0x01 && mode != 0x04 && mode != 0x06 && mode != 0x0D && mode
            != 0x13 ==> inv_mode_name(mode) == "unknown",
{
}

/// Which frame each identifier of the stream carries, and how short a
/// payload it still decodes: `0x7E1` ACK (any length, enabled only for a
/// leading `0x01`), `0x700` status (8), `0x701` pedals (8), `0x702`
/// inverter (7), `0x703` firmware id (7), `0x704` health (8), `0x705`
/// brake (3), `0x706` inverter temperatures (4), `0x707` DV (5), `0x708`
/// fault layers (6), `0x709`-`0x70D` cell, pack temperature, FOC, torque and
/// power (raw, up to 8). No other identifier is part of the stream.
pub proof fn lemma_stream_identifiers(id: u16, p: Seq<u8>)
    ensures
        id == 0x7E1 ==> decoded_frame(id, p) == Some(
            EcuPitDiagFrame::Ack { enabled: p.len() > 0 && p[0] == 0x01 },
        ),
        id == 0x700 ==> (decoded_frame(id, p) is Some <==> p.len() >= 8) && (p.len() >= 8
            ==> decoded_frame(id, p) matches Some(EcuPitDiagFrame::Status(_))),
        id == 0x701 ==> (decoded_frame(id, p) is Some <==> p.len() >= 8) && (p.len() >= 8
            ==> decoded_frame(id, p) matches Some(EcuPitDiagFrame::Pedals(_))),
        id == 0x702 ==> (decoded_frame(id, p) is Some <==> p.len() >= 7) && (p.len() >= 7
            ==> decoded_frame(id, p) matches Some(EcuPitDiagFrame::Inverter(_))),
        id == 0x703 ==> (decoded_frame(id, p) is Some <==> p.len() >= 7) && (p.len() >= 7
            ==> decoded_frame(id, p) matches Some(EcuPitDiagFrame::FwInfo(_))),
        id == 0x704 ==> (decoded_frame(id, p) is Some <==> p.len() >= 8) && (p.len() >= 8
            ==> decoded_frame(id, p) matches Some(EcuPitDiagFrame::Health(_))),
        id == 0x705 ==> (decoded_frame(id, p) is Some <==> p.len() >= 3) && (p.len() >= 3
            ==> decoded_frame(id, p) matches Some(EcuPitDiagFrame::Brake(_))),
        id == 0x706 ==> (decoded_frame(id, p) is Some <==> p.len() >= 4) && (p.len() >= 4
            ==> decoded_frame(id, p) matches Some(EcuPitDiagFrame::InverterTemps(_))),
        id == 0x707 ==> (decoded_frame(id, p) is Some <==> p.len() >= 5) && (p.len() >= 5
            ==> decoded_frame(id, p) matches Some(EcuPitDiagFrame::Dv(_))),
        id == 0x708 ==> (decoded_frame(id, p) is Some <==> p.len() >= 6) && (p.len() >= 6
            ==> decoded_frame(id, p) matches Some(EcuPitDiagFrame::InvFaults(_))),
        id == 0x709 ==> (decoded_frame(id, p) is Some <==> p.len() <= 8) && (p.len() <= 8
            ==> decoded_frame(id, p) matches Some(EcuPitDiagFrame::Cell(_))),
        id == 0x70A ==> (decoded_frame(id, p) is Some <==> p.len() <= 8) && (p.len() <= 8
            ==> decoded_frame(id, p) matches Some(EcuPitDiagFrame::PackTemp(_))),
        id == 0x70B ==> (decoded_frame(id, p) is Some <==> p.len() <= 8) && (p.len() <= 8
            ==> decoded_frame(id, p) matches Some(EcuPitDiagFrame::InvFoc(_))),
        id == 0x70C ==> (decoded_frame(id, p) is Some <==> p.len() <= 8) && (p.len() <= 8
            ==> decoded_frame(id, p) matches Some(EcuPitDiagFrame::InvTorque(_))),
        id == 0x70D ==> (decoded_frame(id, p) is Some <==> p.len() <= 8) && (p.len() <= 8
            ==> decoded_frame(id, p) matches Some(EcuPitDiagFrame::Power(_))),
        !(0x700 <= id <= 0x70D || id == 0x7E1) ==> decoded_frame(id, p) is None,
{
}


/// Where each field of the `0x700` status frame sits: byte 2 carries the
/// cockpit flags in bits 0-6 (EV 2.3, T11.8/9, RTDS, precharge done, start
/// button, DV drive, TX dropped), byte 3 the torque percent, bytes 4-5 the
/// minimum cell voltage and bytes 6-7 the signed torque command, both
/// big-endian.
pub proof fn lemma_status_layout(p: Seq<u8>)
    requires
        p.len() >= 8,
    ensures
        decoded_frame(0x700u16, p) matches Some(EcuPitDiagFrame::Status(s)) && s.ev_2_3 == (p[2]
            & 0x01 != 0) && s.t11_8_9 == (p[2] & 0x02 != 0) && s.rtds_active == (p[2] & 0x04 != 0)
            && s.ok_precharge == (p[2] & 0x08 != 0) && s.start_button == (p[2] & 0x10 != 0)
            && s.dv_mode == (p[2] & 0x20 != 0) && s.tx_dropped == (p[2] & 0x40 != 0)
            && s.torque_pct == p[3] && s.v_cell_min_mv == p[4] as int * 256 + p[5] as int
            && s.torque_cmd as int == p[6] as int * 256 + p[7] as int - (if p[6] >= 128 {
            0x1_0000int
        } else {
            0int
        }),
{
    lemma_be_i16_value(p[6], p[7]);
}

/// Where each field of the `0x701` pedals frame sits: the two APPS channels
/// and the brake ADC big-endian in bytes 0-1, 2-3 and 4-5, the two APPS
/// percentages in bytes 6 and 7.
pub proof fn lemma_pedals_layout(p: Seq<u8>)
    requires
        p.len() >= 8,
    ensures
        decoded_frame(0x701u16, p) matches Some(EcuPitDiagFrame::Pedals(f)) && f.apps1_raw == p[0]
            as int * 256 + p[1] as int && f.apps2_raw == p[2] as int * 256 + p[3] as int
            && f.brake_raw == p[4] as int * 256 + p[5] as int && f.apps1_pct == p[6] && f.apps2_pct
            == p[7],
{
}

/// Where each field of the `0x702` inverter frame sits: DC-bus voltage
/// big-endian in bytes 0-1, the signed rpm big-endian in bytes 2-5, the DEM
/// code in byte 6, and — only when byte 7 is present — `dem_present` in its
/// bit 0 and the commanded mode in its bits 1-7 (none otherwise).
pub proof fn lemma_inverter_layout(p: Seq<u8>)
    requires
        p.len() >= 7,
    ensures
        decoded_frame(0x702u16, p) matches Some(EcuPitDiagFrame::Inverter(f)) && f.dc_bus_voltage
            == p[0] as int * 256 + p[1] as int && f.inv_rpm as int == p[2] as int * 0x100_0000
            + p[3] as int * 0x1_0000 + p[4] as int * 0x100 + p[5] as int - (if p[2] >= 128 {
            0x1_0000_0000int
        } else {
            0int
        }) && f.inv_error == p[6] && f.dem_present == (p.len() >= 8 && p[7] % 2 == 1)
            && f.inv_mode_cmd == (if p.len() >= 8 {
            p[7] / 2
        } else {
            0
        }),
{
    lemma_be_i32_value(p[2], p[3], p[4], p[5]);
    if p.len() >= 8 {
        let b = p[7];
        assert(b >> 1u8 == b / 2 && ((b & 0x01u8) != 0) == (b % 2 == 1)) by (bit_vector);
    }
}

/// Where each field of the `0x703` firmware-id frame sits: major, minor and
/// patch in bytes 0-2, the git-hash prefix in bytes 3-6 in order.
pub proof fn lemma_fwinfo_layout(p: Seq<u8>)
    requires
        p.len() >= 7,
    ensures
        decoded_frame(0x703u16, p) matches Some(EcuPitDiagFrame::FwInfo(f)) && f.fw_major == p[0]
            && f.fw_minor == p[1] && f.fw_patch == p[2] && f.git_hash@ == p.subrange(3, 7),
{
    let f = fwinfo_of(p);
    assert(f.git_hash@ =~= p.subrange(3, 7));
}

/// Where each field of the `0x704` health frame sits: free and minimum-free
/// heap big-endian in bytes 0-1 and 2-3; byte 4 the task-alive bits 0-4
/// (control, CAN RX, CAN TX, telemetry, diag) and the bench stubs in bits
/// 5-7 (no AMS, no inverter, start); byte 5 the brake stub in bit 3 and the
/// refused reboot in bit 6; the uptime in byte 6 and the last fault in
/// byte 7.
pub proof fn lemma_health_layout(p: Seq<u8>)
    requires
        p.len() >= 8,
    ensures
        decoded_frame(0x704u16, p) matches Some(EcuPitDiagFrame::Health(h)) && h.free_heap == p[0]
            as int * 256 + p[1] as int && h.min_free_heap == p[2] as int * 256 + p[3] as int
            && h.task_control == (p[4] & 0x01 != 0) && h.task_can_rx == (p[4] & 0x02 != 0)
            && h.task_can_tx == (p[4] & 0x04 != 0) && h.task_telemetry == (p[4] & 0x08 != 0)
            && h.task_diag == (p[4] & 0x10 != 0) && h.stub_no_ams == (p[4] & 0x20 != 0)
            && h.stub_no_inverter == (p[4] & 0x40 != 0) && h.stub_start == (p[4] & 0x80 != 0)
            && h.stub_brake == (p[5] & 0x08 != 0) && h.boot_refused == (p[5] & 0x40 != 0)
            && h.uptime_s == p[6] && h.last_fault == p[7],
{
}

/// Where each field of the `0x705` brake frame sits: pressure big-endian in
/// bytes 0-1, percent in byte 2.
pub proof fn lemma_brake_layout(p: Seq<u8>)
    requires
        p.len() >= 3,
    ensures
        decoded_frame(0x705u16, p) matches Some(EcuPitDiagFrame::Brake(f)) && f.brake_pressure_dbar
            == p[0] as int * 256 + p[1] as int && f.brake_pct == p[2],
{
}

/// The `0x706` temperatures: board, power stage, motor 1 and motor 2 in
/// bytes 0-3, each the raw byte less 50 °C.
pub proof fn lemma_temps_layout(p: Seq<u8>)
    requires
        p.len() >= 4,
    ensures
        decoded_frame(0x706u16, p) matches Some(EcuPitDiagFrame::InverterTemps(t)) && t.board_degc
            == p[0] as int - 50 && t.pwrstg_degc == p[1] as int - 50 && t.motor1_degc == p[2] as int
            - 50 && t.motor2_degc == p[3] as int - 50,
{
}

/// Where each field of the `0x707` DV frame sits: byte 0 the flags (bit 0
/// R2D request, 1 command fresh, 2 TS active, 3 brake over limit, 4 R2D
/// confirmed, 5 AS fresh, 6 AS from stale, 7 AS emergency), byte 1 the
/// torque percent, bytes 2-3 the signed rpm little-endian, byte 4 the AS
/// status.
pub proof fn lemma_dv_layout(p: Seq<u8>)
    requires
        p.len() >= 5,
    ensures
        decoded_frame(0x707u16, p) matches Some(EcuPitDiagFrame::Dv(d)) && d.dv_r2d_req == (p[0]
            & 0x01 != 0) && d.dv_cmd_fresh == (p[0] & 0x02 != 0) && d.ts_active == (p[0] & 0x04
            != 0) && d.brake_over_limit == (p[0] & 0x08 != 0) && d.r2d_confirm == (p[0] & 0x10
            != 0) && d.as_fresh == (p[0] & 0x20 != 0) && d.as_from_stale == (p[0] & 0x40 != 0)
            && d.as_emergency == (p[0] & 0x80 != 0) && d.dv_torque_pct == p[1]
            && d.motor_rpm_mech as int == p[3] as int * 256 + p[2] as int - (if p[3] >= 128 {
            0x1_0000int
        } else {
            0int
        }) && d.as_status == p[4],
{
    lemma_be_i16_value(p[3], p[2]);
}

/// Where each field of the `0x708` fault-layer frame sits: L1 in byte 0
/// (bit 0 alive, 1 enabled, 2 UVLO, 3 desat, 4 dead time, 5 HVIL, 6 OCP,
/// 7 OVP 1) and byte 1 bit 0 (OVP 2); L2 in byte 2 (bit 0 init ok, 1 position
/// feedback, 2 ASC, 3 current imbalance, 4 power-stage fault, 5 derating,
/// 6 loop de-locked, 7 current acquisition); byte 3 the follow-up count in
/// bits 0-1 and `Flt_Clear` in bit 2; bytes 4 and 5 the state age and
/// sequence.
pub proof fn lemma_inv_faults_layout(p: Seq<u8>)
    requires
        p.len() >= 6,
    ensures
        decoded_frame(0x708u16, p) matches Some(EcuPitDiagFrame::InvFaults(f)) && f.pwrstg_alive
            == (p[0] & 0x01 != 0) && f.pwrstg_enable == (p[0] & 0x02 != 0) && f.pwrstg_uvlo == (p[0]
            & 0x04 != 0) && f.pwrstg_desat == (p[0] & 0x08 != 0) && f.pwrstg_dt_violation == (p[0]
            & 0x10 != 0) && f.pwrstg_hvil_open == (p[0] & 0x20 != 0) && f.pwrstg_ocp == (p[0] & 0x40
            != 0) && f.pwrstg_ovp_th1 == (p[0] & 0x80 != 0) && f.pwrstg_ovp_th2 == (p[1] & 0x01
            != 0) && f.emctrl_init_ok == (p[2] & 0x01 != 0) && f.emctrl_posfb == (p[2] & 0x02 != 0)
            && f.emctrl_asc == (p[2] & 0x04 != 0) && f.emctrl_curr_imbalance == (p[2] & 0x08 != 0)
            && f.emctrl_pwrstg_fault == (p[2] & 0x10 != 0) && f.emctrl_curr_derating == (p[2]
            & 0x20 != 0) && f.emctrl_loop_delocked == (p[2] & 0x40 != 0) && f.emctrl_phcurr_acq
            == (p[2] & 0x80 != 0) && f.cmd_follow_n == p[3] % 4 && f.cmd_flt_clear == (p[3] & 0x04
            != 0) && f.inv_state_age_ms == p[4] && f.inv_state_seq == p[5],
{
    let b = p[3];
    assert(b & 0x03u8 == b % 4) by (bit_vector);
}

/// Whether `r` holds exactly the payload `p`: its length, its bytes in
/// order, zero past them.
pub open spec fn holds_payload(r: EcuRawFrame, p: Seq<u8>) -> bool {
    &&& r.dlc == p.len()
    &&& forall|i: int| 0 <= i < p.len() ==> r.data@[i] == p[i]
    &&& forall|i: int| p.len() <= i < 8 ==> r.data@[i] == 0
}

/// The `0x709`-`0x70D` frames (cell, pack temperature, FOC, torque, power)
/// keep their bytes as sent: the length is the payload's, the bytes are the
/// payload's in order, and the rest is zero.
pub proof fn lemma_raw_frames_keep_their_bytes(id: u16, p: Seq<u8>)
    requires
        p.len() <= 8,
    ensures
        id == 0x709 ==> (decoded_frame(id, p) matches Some(EcuPitDiagFrame::Cell(r)) && holds_payload(r, p)),
        id == 0x70A ==> (decoded_frame(id, p) matches Some(EcuPitDiagFrame::PackTemp(r)) && holds_payload(r, p)),
        id == 0x70B ==> (decoded_frame(id, p) matches Some(EcuPitDiagFrame::InvFoc(r)) && holds_payload(r, p)),
        id == 0x70C ==> (decoded_frame(id, p) matches Some(EcuPitDiagFrame::InvTorque(r)) && holds_payload(r, p)),
        id == 0x70D ==> (decoded_frame(id, p) matches Some(EcuPitDiagFrame::Power(r)) && holds_payload(r, p)),
{
    let r = raw_of(p);
    assert(r.data@ =~= seq![
        byte_or_zero(p, 0),
        byte_or_zero(p, 1),
        byte_or_zero(p, 2),
        byte_or_zero(p, 3),
        byte_or_zero(p, 4),
        byte_or_zero(p, 5),
        byte_or_zero(p, 6),
        byte_or_zero(p, 7),
    ]);
}


/// The anomaly lists name each condition by its own word, in bit order, a
/// health bit when clear and a fault bit when set: L1 "PwrStg not alive",
/// "PwrStg not enabled", "UVLO", "Desat", "DeadTimeViolation", "HVIL_Open",
/// "OCP", "OVP_Th1", "OVP_Th2"; L2 "EMCtrl not initialised", "PosFeedback",
/// "ASC", "CurrentImbalance", "PwrStgFault (see L1)", "CurrentDerating",
/// "LoopDelocked", "PhaseCurrentAcq".
pub proof fn lemma_anomaly_names(f: EcuInvFaultsFrame)
    ensures
        f.l1_names() == (if !f.pwrstg_alive { seq!["PwrStg not alive"] } else { Seq::<&'static str>::empty() })
            + (if !f.pwrstg_enable { seq!["PwrStg not enabled"] } else { Seq::<&'static str>::empty() })
            + (if f.pwrstg_uvlo { seq!["UVLO"] } else { Seq::<&'static str>::empty() })
            + (if f.pwrstg_desat { seq!["Desat"] } else { Seq::<&'static str>::empty() })
            + (if f.pwrstg_dt_violation { seq!["DeadTimeViolation"] } else { Seq::<&'static str>::empty() })
            + (if f.pwrstg_hvil_open { seq!["HVIL_Open"] } else { Seq::<&'static str>::empty() })
            + (if f.pwrstg_ocp { seq!["OCP"] } else { Seq::<&'static str>::empty() })
            + (if f.pwrstg_ovp_th1 { seq!["OVP_Th1"] } else { Seq::<&'static str>::empty() })
            + (if f.pwrstg_ovp_th2 { seq!["OVP_Th2"] } else { Seq::<&'static str>::empty() }),
        f.l2_names() == (if !f.emctrl_init_ok { seq!["EMCtrl not initialised"] } else { Seq::<&'static str>::empty() })
            + (if f.emctrl_posfb { seq!["PosFeedback"] } else { Seq::<&'static str>::empty() })
            + (if f.emctrl_asc { seq!["ASC"] } else { Seq::<&'static str>::empty() })
            + (if f.emctrl_curr_imbalance { seq!["CurrentImbalance"] } else { Seq::<&'static str>::empty() })
            + (if f.emctrl_pwrstg_fault { seq!["PwrStgFault (see L1)"] } else { Seq::<&'static str>::empty() })
            + (if f.emctrl_curr_derating { seq!["CurrentDerating"] } else { Seq::<&'static str>::empty() })
            + (if f.emctrl_loop_delocked { seq!["LoopDelocked"] } else { Seq::<&'static str>::empty() })
            + (if f.emctrl_phcurr_acq { seq!["PhaseCurrentAcq"] } else { Seq::<&'static str>::empty() }),
{
}

/// The arm frame goes to `0x7E0` and carries `DE AD BE EF` to enable and
/// four zero bytes to disable.
pub proof fn lemma_arm_payloads(enable: bool)
    ensures
        ECU_ARM_ID == 0x7E0,
        arm_payload(enable) == (if enable {
            seq![0xDEu8, 0xADu8, 0xBEu8, 0xEFu8]
        } else {
            seq![0x00u8, 0x00u8, 0x00u8, 0x00u8]
        }),
{
}
} // verus!
