//! Operator pedal-calibration protocol (`0x7E2`..=`0x7E5`).
//!
//! Lets a pit operator calibrate the APPS and brake endpoints over CAN. This
//! module **writes** to the ECU, whereas [`crate::pit_diag`] only observes.
//!
//! - **`0x7E2` command** (host → ECU): byte 0 [`CalCommand`], byte 1 the
//!   [`CalPoint`] for `Capture`, bytes 2-3 reserved, bytes 4-7 a big-endian
//!   guard word whose meaning depends on the command — see
//!   [`build_command`].
//! - **`0x7E3` status** (ECU → host).
//! - **`0x7E4` / `0x7E5`** (ECU → host): the APPS and brake value sets,
//!   emitted as a pair after `ReadStored` or `ReadStaged`. Neither frame says
//!   which set it carries; [`CalStatusFrame::pending_read`] on the preceding
//!   status frame is the only discriminator.

use vstd::prelude::*;

use crate::bytes::{be_u16, be_u16_of, be_u32_byte, be_u32_of, lemma_be_u32_round_trip};
use crate::can_frame::CanFrame;
use crate::pit_diag::ecu::EcuCalStatus;
use crate::crc::{crc32, crc32_spec, lemma_crc32_detects_two_byte_change};

verus! {

// ---- Wire-level constants ----------------------------------------

/// `0x7E2` — host → ECU calibration command.
pub const CAL_CMD_ID: u16 = 0x7E2;
/// `0x7E3` — ECU → host session status.
pub const CAL_STATUS_ID: u16 = 0x7E3;
/// `0x7E4` — ECU → host APPS value set.
pub const CAL_APPS_ID: u16 = 0x7E4;
/// `0x7E5` — ECU → host brake value set.
pub const CAL_BRAKE_ID: u16 = 0x7E5;

/// Guard word for the commands that open a session or destroy a
/// calibration (`Enter`, `ResetDefaults`). `Commit` carries a CRC instead.
pub const CAL_GUARD_MAGIC: u32 = 0xCA11_B0DE;

/// The ECU abandons a session after this long with no command, discarding
/// everything staged.
pub const CAL_SESSION_TIMEOUT_MS: u32 = 30_000;

/// Length of the canonical calibration record the CRC covers.
pub const CAL_RECORD_LEN: usize = 18;
/// Version byte at the head of that record.
pub const CAL_RECORD_VERSION: u8 = 1;

/// Highest raw value a 12-bit ADC reading can take.
pub const CAL_ADC_MAX: u16 = 4095;

/// Mask value meaning every capture point has been taken.
pub const CAL_ALL_POINTS_MASK: u8 = 0x1F;

// ---- Commands ----------------------------------------------------

/// A command the host can send on `0x7E2`.
#[derive(Clone, Copy, Debug, PartialEq, Eq)]
pub enum CalCommand {
    /// Ask for a status frame without changing anything (wire 0).
    Poll,
    /// Open a calibration session. Guarded (wire 1).
    Enter,
    /// Sample the [`CalPoint`] in `arg` into the staged set (wire 2).
    Capture,
    /// Emit the committed values on `0x7E4`/`0x7E5` (wire 3).
    ReadStored,
    /// Emit the in-session staged values on `0x7E4`/`0x7E5` (wire 4).
    ReadStaged,
    /// Validate and write the staged set to NVM. Carries a CRC (wire 5).
    Commit,
    /// Discard the staged set and close the session (wire 6).
    Abort,
    /// Restore compile-time defaults and commit them. Guarded (wire 7).
    ResetDefaults,
}

impl CalCommand {
    /// Wire value of the command.
    pub open spec fn wire(self) -> u8 {
        match self {
            CalCommand::Poll => 0,
            CalCommand::Enter => 1,
            CalCommand::Capture => 2,
            CalCommand::ReadStored => 3,
            CalCommand::ReadStaged => 4,
            CalCommand::Commit => 5,
            CalCommand::Abort => 6,
            CalCommand::ResetDefaults => 7,
        }
    }

    /// Whether the command carries [`CAL_GUARD_MAGIC`].
    pub open spec fn guarded(self) -> bool {
        self is Enter || self is ResetDefaults
    }

    /// Raw wire value.
    pub fn as_byte(self) -> (r: u8)
        ensures
            r == self.wire(),
    {
        match self {
            CalCommand::Poll => 0,
            CalCommand::Enter => 1,
            CalCommand::Capture => 2,
            CalCommand::ReadStored => 3,
            CalCommand::ReadStaged => 4,
            CalCommand::Commit => 5,
            CalCommand::Abort => 6,
            CalCommand::ResetDefaults => 7,
        }
    }

    /// `true` when this command must carry [`CAL_GUARD_MAGIC`].
    pub fn needs_guard_magic(self) -> (r: bool)
        ensures
            r == self.guarded(),
    {
        match self {
            CalCommand::Enter | CalCommand::ResetDefaults => true,
            _ => false,
        }
    }
}

/// A point the operator captures, sent in `arg` alongside
/// [`CalCommand::Capture`].
#[derive(Clone, Copy, Debug, PartialEq, Eq)]
pub enum CalPoint {
    /// Accelerator fully released (wire 1).
    AppsRest,
    /// Accelerator held against the mechanical stop (wire 2).
    AppsFull,
    /// Brake fully released (wire 3).
    BrakeRest,
    /// Brake pressed firmly (wire 4).
    BrakePressed,
    /// Accelerator held at roughly half travel (wire 5) — the one point
    /// where mid-travel disagreement of the two channels is measured.
    AppsMid,
}

/// Every capture point, in the order an operator works through them.
pub open spec fn operator_order() -> Seq<CalPoint> {
    seq![
        CalPoint::AppsRest,
        CalPoint::AppsFull,
        CalPoint::AppsMid,
        CalPoint::BrakeRest,
        CalPoint::BrakePressed,
    ]
}

impl CalPoint {
    /// Wire value of the point.
    pub open spec fn wire(self) -> u8 {
        match self {
            CalPoint::AppsRest => 1,
            CalPoint::AppsFull => 2,
            CalPoint::BrakeRest => 3,
            CalPoint::BrakePressed => 4,
            CalPoint::AppsMid => 5,
        }
    }

    /// Bit of the point in [`CalStatusFrame::captured_mask`].
    pub open spec fn bit(self) -> u8 {
        match self {
            CalPoint::AppsRest => 0x01,
            CalPoint::AppsFull => 0x02,
            CalPoint::BrakeRest => 0x04,
            CalPoint::BrakePressed => 0x08,
            CalPoint::AppsMid => 0x10,
        }
    }

    /// Operator instruction for the point.
    pub open spec fn instruction_text(self) -> &'static str {
        match self {
            CalPoint::AppsRest => "Release the accelerator fully and let the reading settle.",
            CalPoint::AppsFull => "Press the accelerator to the mechanical stop and hold it.",
            CalPoint::AppsMid => "Hold the accelerator at roughly half travel and keep it steady.",
            CalPoint::BrakeRest => "Release the brake fully and let the reading settle.",
            CalPoint::BrakePressed => "Press the brake firmly, as in hard braking, and hold it.",
        }
    }

    /// Raw wire value.
    pub fn as_byte(self) -> (r: u8)
        ensures
            r == self.wire(),
    {
        match self {
            CalPoint::AppsRest => 1,
            CalPoint::AppsFull => 2,
            CalPoint::BrakeRest => 3,
            CalPoint::BrakePressed => 4,
            CalPoint::AppsMid => 5,
        }
    }

    /// Bit this point sets in [`CalStatusFrame::captured_mask`].
    pub fn mask_bit(self) -> (r: u8)
        ensures
            r == self.bit(),
    {
        match self {
            CalPoint::AppsRest => 0x01,
            CalPoint::AppsFull => 0x02,
            CalPoint::BrakeRest => 0x04,
            CalPoint::BrakePressed => 0x08,
            CalPoint::AppsMid => 0x10,
        }
    }

    /// Every point, in the order an operator works through them.
    pub fn all() -> (r: [CalPoint; 5])
        ensures
            r@ == operator_order(),
    {
        let r = [
            CalPoint::AppsRest,
            CalPoint::AppsFull,
            CalPoint::AppsMid,
            CalPoint::BrakeRest,
            CalPoint::BrakePressed,
        ];
        assert(r@ =~= operator_order());
        r
    }

    /// What the operator has to physically do, phrased for someone who is
    /// not a firmware engineer.
    pub fn instruction(self) -> (r: &'static str)
        ensures
            r == self.instruction_text(),
    {
        match self {
            CalPoint::AppsRest => "Release the accelerator fully and let the reading settle.",
            CalPoint::AppsFull => "Press the accelerator to the mechanical stop and hold it.",
            CalPoint::AppsMid => "Hold the accelerator at roughly half travel and keep it steady.",
            CalPoint::BrakeRest => "Release the brake fully and let the reading settle.",
            CalPoint::BrakePressed => "Press the brake firmly, as in hard braking, and hold it.",
        }
    }
}

// ---- Status enums ------------------------------------------------

/// Session state (`0x7E3` byte 0).
#[derive(Clone, Copy, Debug, PartialEq, Eq)]
pub enum CalSessionState {
    /// No session open.
    Idle,
    /// Session open, capturing.
    Active,
    /// Staged set passed validation.
    Validated,
    /// Write in progress.
    Committing,
    /// Write completed and verified.
    Committed,
    /// Something failed; `result` says what.
    Error,
    /// Outside the known table.
    Unknown(u8),
}

impl CalSessionState {
    /// Decoding of a raw state byte.
    pub open spec fn decoded(b: u8) -> CalSessionState {
        match b {
            0 => CalSessionState::Idle,
            1 => CalSessionState::Active,
            2 => CalSessionState::Validated,
            3 => CalSessionState::Committing,
            4 => CalSessionState::Committed,
            5 => CalSessionState::Error,
            other => CalSessionState::Unknown(other),
        }
    }

    /// Decode the raw state byte.
    pub fn from_byte(b: u8) -> (r: CalSessionState)
        ensures
            r == Self::decoded(b),
    {
        match b {
            0 => CalSessionState::Idle,
            1 => CalSessionState::Active,
            2 => CalSessionState::Validated,
            3 => CalSessionState::Committing,
            4 => CalSessionState::Committed,
            5 => CalSessionState::Error,
            other => CalSessionState::Unknown(other),
        }
    }
}

/// Result of the last command (`0x7E3` byte 2).
#[derive(Clone, Copy, Debug, PartialEq, Eq)]
pub enum CalResult {
    /// Command accepted.
    Accepted,
    /// Guard word missing or wrong.
    BadGuard,
    /// Command needs an open session.
    NotInSession,
    /// Entry conditions not met.
    VehicleNotSafe,
    /// The signal was still moving when captured.
    SampleUnstable,
    /// `Commit` before every point was captured.
    MissingPoints,
    /// See [`CalStatusFrame::validation_flags`].
    ValidationFailed,
    /// The storage write did not verify.
    NvmWriteFailed,
    /// Unrecognised command byte.
    UnknownCmd,
    /// Outside the known table.
    Unknown(u8),
}

pub const MSG_OK: &'static str = "Accepted.";
pub const MSG_BAD_GUARD: &'static str = "The ECU rejected the safety word on that command. This is a client bug, not something the operator can fix — do not retry blindly.";
pub const MSG_NOT_IN_SESSION: &'static str = "No calibration session is open. It may have timed out after 30 s of inactivity, in which case anything captured has been discarded and the stored calibration is untouched. Start again.";
pub const MSG_VEHICLE_NOT_SAFE: &'static str = "The ECU refused to open a session because the car is not in a safe state. It requires the tractive system inactive, the control FSM out of Active, zero motor rpm and zero commanded torque.";
pub const MSG_SAMPLE_UNSTABLE: &'static str = "The reading was still moving when captured. Hold the pedal steady and wait for the live value to settle before capturing again.";
pub const MSG_MISSING_POINTS: &'static str = "Not every capture point has been taken yet. All five are required before committing.";
pub const MSG_VALIDATION_FAILED: &'static str = "The ECU rejected the calibration and wrote nothing — the car is unchanged. Either a safety check failed (the flags say which), or the consistency CRC did not match, meaning this tool and the ECU disagree about what was captured. An empty flag set points at the CRC: abort and capture again rather than retrying the commit.";
pub const MSG_NVM_WRITE_FAILED: &'static str = "The ECU could not write the calibration to flash, or wrote it and failed to read it back. The previous calibration is still in force. If this repeats, the storage region may be full and need compaction.";
pub const MSG_UNKNOWN_CMD: &'static str = "The ECU did not recognise the command. The tool and the firmware are probably out of step — check the ECU firmware version.";
pub const MSG_UNKNOWN_RESULT: &'static str = "The ECU returned a result code this tool does not recognise. It is newer than this build; check the ECU firmware version.";

impl CalResult {
    /// Decoding of a raw result byte.
    pub open spec fn decoded(b: u8) -> CalResult {
        match b {
            0 => CalResult::Accepted,
            1 => CalResult::BadGuard,
            2 => CalResult::NotInSession,
            3 => CalResult::VehicleNotSafe,
            4 => CalResult::SampleUnstable,
            5 => CalResult::MissingPoints,
            6 => CalResult::ValidationFailed,
            7 => CalResult::NvmWriteFailed,
            8 => CalResult::UnknownCmd,
            other => CalResult::Unknown(other),
        }
    }

    /// The operator sentence for each result.
    pub open spec fn message_text(self) -> &'static str {
        match self {
            CalResult::Accepted => MSG_OK,
            CalResult::BadGuard => MSG_BAD_GUARD,
            CalResult::NotInSession => MSG_NOT_IN_SESSION,
            CalResult::VehicleNotSafe => MSG_VEHICLE_NOT_SAFE,
            CalResult::SampleUnstable => MSG_SAMPLE_UNSTABLE,
            CalResult::MissingPoints => MSG_MISSING_POINTS,
            CalResult::ValidationFailed => MSG_VALIDATION_FAILED,
            CalResult::NvmWriteFailed => MSG_NVM_WRITE_FAILED,
            CalResult::UnknownCmd => MSG_UNKNOWN_CMD,
            CalResult::Unknown(_) => MSG_UNKNOWN_RESULT,
        }
    }

    /// Decode the raw result byte.
    pub fn from_byte(b: u8) -> (r: CalResult)
        ensures
            r == Self::decoded(b),
    {
        match b {
            0 => CalResult::Accepted,
            1 => CalResult::BadGuard,
            2 => CalResult::NotInSession,
            3 => CalResult::VehicleNotSafe,
            4 => CalResult::SampleUnstable,
            5 => CalResult::MissingPoints,
            6 => CalResult::ValidationFailed,
            7 => CalResult::NvmWriteFailed,
            8 => CalResult::UnknownCmd,
            other => CalResult::Unknown(other),
        }
    }

    /// A sentence an operator can act on; no result code ever reaches the
    /// UI as a bare number.
    pub fn message(self) -> (r: &'static str)
        ensures
            r == self.message_text(),
    {
        match self {
            CalResult::Accepted => MSG_OK,
            CalResult::BadGuard => MSG_BAD_GUARD,
            CalResult::NotInSession => MSG_NOT_IN_SESSION,
            CalResult::VehicleNotSafe => MSG_VEHICLE_NOT_SAFE,
            CalResult::SampleUnstable => MSG_SAMPLE_UNSTABLE,
            CalResult::MissingPoints => MSG_MISSING_POINTS,
            CalResult::ValidationFailed => MSG_VALIDATION_FAILED,
            CalResult::NvmWriteFailed => MSG_NVM_WRITE_FAILED,
            CalResult::UnknownCmd => MSG_UNKNOWN_CMD,
            CalResult::Unknown(_) => MSG_UNKNOWN_RESULT,
        }
    }

    /// `true` for anything other than [`CalResult::Accepted`].
    pub fn is_error(self) -> (r: bool)
        ensures
            r == !(self is Accepted),
    {
        match self {
            CalResult::Accepted => false,
            _ => true,
        }
    }
}

/// Where the ECU's running calibration came from (`0x7E3` byte 5).
#[derive(Clone, Copy, Debug, PartialEq, Eq)]
pub enum CalLoad {
    /// No stored calibration; running compile-time defaults.
    Defaults,
    /// A stored calibration was read and applied.
    Loaded,
    /// One was stored but failed validation; defaults are in force.
    InvalidFellBack,
    /// One was stored with an unrecognised record version; defaults are in
    /// force.
    BadVersionFellBack,
    /// Outside the known table.
    Unknown(u8),
}

impl CalLoad {
    /// Decoding of a raw byte.
    pub open spec fn decoded(b: u8) -> CalLoad {
        match b {
            0 => CalLoad::Defaults,
            1 => CalLoad::Loaded,
            2 => CalLoad::InvalidFellBack,
            3 => CalLoad::BadVersionFellBack,
            other => CalLoad::Unknown(other),
        }
    }

    /// Decode the raw byte.
    pub fn from_byte(b: u8) -> (r: CalLoad)
        ensures
            r == Self::decoded(b),
    {
        match b {
            0 => CalLoad::Defaults,
            1 => CalLoad::Loaded,
            2 => CalLoad::InvalidFellBack,
            3 => CalLoad::BadVersionFellBack,
            other => CalLoad::Unknown(other),
        }
    }

    /// `true` unless a stored calibration is actually in force.
    pub fn is_fallback(self) -> (r: bool)
        ensures
            r == !(self is Loaded),
    {
        match self {
            CalLoad::Loaded => false,
            _ => true,
        }
    }
}

// ---- Validation flags --------------------------------------------

/// APPS1 travel span below the minimum.
pub const CAL_FLAG_APPS1_SPAN_TOO_SMALL: u8 = 0x01;
/// APPS2 travel span below the minimum.
pub const CAL_FLAG_APPS2_SPAN_TOO_SMALL: u8 = 0x02;
/// The two APPS channels disagree.
pub const CAL_FLAG_APPS_SPAN_MISMATCH: u8 = 0x04;
/// An APPS maximum is at or below its minimum.
pub const CAL_FLAG_APPS_NOT_MONOTONIC: u8 = 0x08;
/// Brake travel span below the minimum.
pub const CAL_FLAG_BRAKE_SPAN_TOO_SMALL: u8 = 0x10;
/// Brake thresholds out of order.
pub const CAL_FLAG_BRAKE_ORDER: u8 = 0x20;
/// A value sits outside the 12-bit ADC range.
pub const CAL_FLAG_OUT_OF_ADC_RANGE: u8 = 0x40;

pub const MSG_APPS1_SPAN: &'static str = "Accelerator channel 1 barely moved between released and full travel. The pedal was probably not pressed all the way, or that sensor is not moving.";
pub const MSG_APPS2_SPAN: &'static str = "Accelerator channel 2 barely moved between released and full travel. The pedal was probably not pressed all the way, or that sensor is not moving.";
pub const MSG_APPS_MISMATCH: &'static str = "The two accelerator channels do not agree with each other. Committing this would either trip the plausibility cut constantly or defeat it — check both sensors are connected and moving together over the whole travel.";
pub const MSG_APPS_NOT_MONOTONIC: &'static str = "An accelerator channel reads no higher at full travel than at rest. The rest and full captures were probably taken the wrong way round, or a sensor is disconnected.";
pub const MSG_BRAKE_SPAN: &'static str = "The brake barely moved between released and pressed. Press the pedal firmly during the pressed capture.";
pub const MSG_BRAKE_ORDER: &'static str = "The derived brake thresholds came out in the wrong order — the arming point must sit below the driverless hard-braking point, which must sit below the pressed point. Re-capture the brake with a firmer press.";
pub const MSG_OUT_OF_ADC_RANGE: &'static str = "A captured value is outside the valid 0-4095 range for a 12-bit reading.";

/// The message for one flag when it is set in `flags`, nothing otherwise.
pub open spec fn flag_message(flags: u8, flag: u8, msg: &'static str) -> Seq<&'static str> {
    if flags & flag != 0 {
        seq![msg]
    } else {
        Seq::empty()
    }
}

/// One sentence per set validation flag, in flag order.
pub open spec fn validation_messages_spec(flags: u8) -> Seq<&'static str> {
    flag_message(flags, CAL_FLAG_APPS1_SPAN_TOO_SMALL, MSG_APPS1_SPAN)
        + flag_message(flags, CAL_FLAG_APPS2_SPAN_TOO_SMALL, MSG_APPS2_SPAN)
        + flag_message(flags, CAL_FLAG_APPS_SPAN_MISMATCH, MSG_APPS_MISMATCH)
        + flag_message(flags, CAL_FLAG_APPS_NOT_MONOTONIC, MSG_APPS_NOT_MONOTONIC)
        + flag_message(flags, CAL_FLAG_BRAKE_SPAN_TOO_SMALL, MSG_BRAKE_SPAN)
        + flag_message(flags, CAL_FLAG_BRAKE_ORDER, MSG_BRAKE_ORDER)
        + flag_message(flags, CAL_FLAG_OUT_OF_ADC_RANGE, MSG_OUT_OF_ADC_RANGE)
}

/// Append `msg` when `flag` is set in `flags`.
fn push_flag_message(v: &mut Vec<&'static str>, flags: u8, flag: u8, msg: &'static str)
    ensures
        final(v)@ == old(v)@ + flag_message(flags, flag, msg),
{
    if flags & flag != 0 {
        v.push(msg);
    }
    assert(final(v)@ =~= old(v)@ + flag_message(flags, flag, msg));
}

/// Explain a `validation_flags` bitmask in plain language, one sentence per
/// failed rule. Empty when the mask is zero.
pub fn validation_messages(flags: u8) -> (r: Vec<&'static str>)
    ensures
        r@ == validation_messages_spec(flags),
{
    let mut v: Vec<&'static str> = Vec::new();
    push_flag_message(&mut v, flags, CAL_FLAG_APPS1_SPAN_TOO_SMALL, MSG_APPS1_SPAN);
    assert(v@ =~= flag_message(flags, CAL_FLAG_APPS1_SPAN_TOO_SMALL, MSG_APPS1_SPAN));
    push_flag_message(&mut v, flags, CAL_FLAG_APPS2_SPAN_TOO_SMALL, MSG_APPS2_SPAN);
    push_flag_message(&mut v, flags, CAL_FLAG_APPS_SPAN_MISMATCH, MSG_APPS_MISMATCH);
    push_flag_message(&mut v, flags, CAL_FLAG_APPS_NOT_MONOTONIC, MSG_APPS_NOT_MONOTONIC);
    push_flag_message(&mut v, flags, CAL_FLAG_BRAKE_SPAN_TOO_SMALL, MSG_BRAKE_SPAN);
    push_flag_message(&mut v, flags, CAL_FLAG_BRAKE_ORDER, MSG_BRAKE_ORDER);
    push_flag_message(&mut v, flags, CAL_FLAG_OUT_OF_ADC_RANGE, MSG_OUT_OF_ADC_RANGE);
    v
}

// ---- Frame records -----------------------------------------------

/// `0x7E3` — calibration session status.
#[derive(Clone, Copy, Debug, PartialEq, Eq)]
pub struct CalStatusFrame {
    /// Where the session is.
    pub session_state: CalSessionState,
    /// Echo of the last command byte the ECU processed: the only
    /// discriminator for whether a following `0x7E4`/`0x7E5` pair is the
    /// stored or the staged set.
    pub last_cmd: u8,
    /// Outcome of that command.
    pub result: CalResult,
    /// Bit per capture point taken; [`CAL_ALL_POINTS_MASK`] when complete.
    pub captured_mask: u8,
    /// Meaningful when `result` is [`CalResult::ValidationFailed`] —
    /// render via [`validation_messages`].
    pub validation_flags: u8,
    /// Provenance of the calibration currently in force.
    pub cal_load: CalLoad,
}

/// Whether a value read-back is the committed set or the staged one.
#[derive(Clone, Copy, Debug, PartialEq, Eq)]
pub enum ReadKind {
    /// The calibration currently written to NVM.
    Stored,
    /// The set captured in the open session, not yet committed.
    Staged,
}

/// The points of `pts` whose bit is clear in `mask`, in the order of `pts`.
pub open spec fn points_missing_from(mask: u8, pts: Seq<CalPoint>) -> Seq<CalPoint>
    decreases pts.len(),
{
    if pts.len() == 0 {
        Seq::empty()
    } else {
        let rest = points_missing_from(mask, pts.drop_last());
        if mask & pts.last().bit() == 0 {
            rest.push(pts.last())
        } else {
            rest
        }
    }
}

impl CalStatusFrame {
    /// Which read a status frame answers, from its `last_cmd` echo.
    pub open spec fn read_answered(self) -> Option<ReadKind> {
        if self.last_cmd == 3 {
            Some(ReadKind::Stored)
        } else if self.last_cmd == 4 {
            Some(ReadKind::Staged)
        } else {
            None
        }
    }

    /// Whether every capture point's bit is set.
    pub open spec fn complete(self) -> bool {
        self.captured_mask & CAL_ALL_POINTS_MASK == CAL_ALL_POINTS_MASK
    }

    /// Which read the next `0x7E4`/`0x7E5` pair answers, if this status
    /// frame was the reply to a read command.
    pub fn pending_read(&self) -> (r: Option<ReadKind>)
        ensures
            r == self.read_answered(),
    {
        if self.last_cmd == CalCommand::ReadStored.as_byte() {
            Some(ReadKind::Stored)
        } else if self.last_cmd == CalCommand::ReadStaged.as_byte() {
            Some(ReadKind::Staged)
        } else {
            None
        }
    }

    /// `true` once every capture point has been taken.
    pub fn all_points_captured(&self) -> (r: bool)
        ensures
            r == self.complete(),
    {
        self.captured_mask & CAL_ALL_POINTS_MASK == CAL_ALL_POINTS_MASK
    }

    /// Points still outstanding, in operator order.
    pub fn missing_points(&self) -> (r: Vec<CalPoint>)
        ensures
            r@ == points_missing_from(self.captured_mask, operator_order()),
    {
        let pts = CalPoint::all();
        let mut v: Vec<CalPoint> = Vec::new();
        let mut i: usize = 0;
        while i < 5
            invariant
                i <= 5,
                pts@ == operator_order(),
                v@ == points_missing_from(self.captured_mask, operator_order().take(i as int)),
            decreases 5 - i,
        {
            let p = pts[i];
            assert(operator_order().take(i + 1).drop_last() =~= operator_order().take(i as int));
            if self.captured_mask & p.mask_bit() == 0 {
                v.push(p);
            }
            i = i + 1;
        }
        assert(operator_order().take(5) =~= operator_order());
        v
    }
}

/// `0x7E4` — the four APPS endpoints, big-endian.
#[derive(Clone, Copy, Debug, PartialEq, Eq, Default)]
pub struct CalAppsFrame {
    /// APPS1 raw reading at rest.
    pub apps1_min: u16,
    /// APPS1 raw reading at full travel.
    pub apps1_max: u16,
    /// APPS2 raw reading at rest.
    pub apps2_min: u16,
    /// APPS2 raw reading at full travel.
    pub apps2_max: u16,
}

/// `0x7E5` — the brake rest point and the three thresholds the ECU derives,
/// big-endian. Only `brake_rest` and `brake_pressed` are captured; the
/// client displays what a read-back returns rather than recomputing.
#[derive(Clone, Copy, Debug, PartialEq, Eq, Default)]
pub struct CalBrakeFrame {
    /// Raw reading with the brake released.
    pub brake_rest: u16,
    /// Threshold at which the brake counts as pressed for R2D arming.
    pub brake_arm: u16,
    /// Threshold the driverless R2D requires.
    pub brake_dv_hard: u16,
    /// Threshold at which EV.2.3 treats the brake as pressed.
    pub brake_pressed: u16,
}

/// A decoded calibration frame.
#[derive(Clone, Copy, Debug, PartialEq, Eq)]
pub enum CalFrame {
    /// `0x7E3` — session status.
    Status(CalStatusFrame),
    /// `0x7E4` — APPS values.
    Apps(CalAppsFrame),
    /// `0x7E5` — brake values.
    Brake(CalBrakeFrame),
}

// ---- CRC ---------------------------------------------------------

/// High byte of a `u16`.
pub open spec fn hi_byte(v: u16) -> u8 {
    (v >> 8u16) as u8
}

/// Low byte of a `u16`.
pub open spec fn lo_byte(v: u16) -> u8 {
    (v & 0xFFu16) as u8
}

/// The ECU's canonical calibration record: version byte, zero pad, then the
/// eight values big-endian in a fixed order.
pub open spec fn cal_record(apps: CalAppsFrame, brake: CalBrakeFrame) -> Seq<u8> {
    seq![
        CAL_RECORD_VERSION,
        0u8,
        hi_byte(apps.apps1_min),
        lo_byte(apps.apps1_min),
        hi_byte(apps.apps1_max),
        lo_byte(apps.apps1_max),
        hi_byte(apps.apps2_min),
        lo_byte(apps.apps2_min),
        hi_byte(apps.apps2_max),
        lo_byte(apps.apps2_max),
        hi_byte(brake.brake_rest),
        lo_byte(brake.brake_rest),
        hi_byte(brake.brake_arm),
        lo_byte(brake.brake_arm),
        hi_byte(brake.brake_dv_hard),
        lo_byte(brake.brake_dv_hard),
        hi_byte(brake.brake_pressed),
        lo_byte(brake.brake_pressed),
    ]
}

/// CRC-32/ISO-HDLC of the canonical record.
pub open spec fn cal_crc32_spec(apps: CalAppsFrame, brake: CalBrakeFrame) -> u32 {
    crc32_spec(cal_record(apps, brake))
}

/// Append the big-endian bytes of `x`.
fn push_be_u16(rec: &mut Vec<u8>, x: u16)
    ensures
        final(rec)@ == old(rec)@.push(hi_byte(x)).push(lo_byte(x)),
{
    rec.push((x >> 8u16) as u8);
    rec.push((x & 0xFFu16) as u8);
}

/// CRC-32 over the ECU's canonical 18-byte calibration record. This is what
/// [`CalCommand::Commit`] carries; the ECU recomputes it over its own staged
/// set and rejects a mismatch.
pub fn cal_crc32(apps: &CalAppsFrame, brake: &CalBrakeFrame) -> (r: u32)
    ensures
        r == cal_crc32_spec(*apps, *brake),
{
    let mut rec: Vec<u8> = Vec::new();
    rec.push(CAL_RECORD_VERSION);
    rec.push(0u8);
    push_be_u16(&mut rec, apps.apps1_min);
    push_be_u16(&mut rec, apps.apps1_max);
    push_be_u16(&mut rec, apps.apps2_min);
    push_be_u16(&mut rec, apps.apps2_max);
    push_be_u16(&mut rec, brake.brake_rest);
    push_be_u16(&mut rec, brake.brake_arm);
    push_be_u16(&mut rec, brake.brake_dv_hard);
    push_be_u16(&mut rec, brake.brake_pressed);
    assert(rec@ =~= cal_record(*apps, *brake));
    crc32(rec.as_slice())
}

// ---- Encode / decode ---------------------------------------------

/// The guard word a command carries in bytes 4-7: the magic for `Enter` and
/// `ResetDefaults`, the CRC of the staged set for `Commit` (zero when none
/// was given), zero otherwise.
pub open spec fn command_guard(
    cmd: CalCommand,
    staged: Option<(&CalAppsFrame, &CalBrakeFrame)>,
) -> u32 {
    if cmd.guarded() {
        CAL_GUARD_MAGIC
    } else if cmd is Commit {
        match staged {
            Some((a, b)) => cal_crc32_spec(*a, *b),
            None => 0,
        }
    } else {
        0
    }
}

/// Wire byte of an optional capture point (zero when absent).
pub open spec fn point_arg(point: Option<CalPoint>) -> u8 {
    match point {
        Some(p) => p.wire(),
        None => 0,
    }
}

/// The eight payload bytes of a `0x7E2` command.
pub open spec fn command_payload(
    cmd: CalCommand,
    point: Option<CalPoint>,
    staged: Option<(&CalAppsFrame, &CalBrakeFrame)>,
) -> Seq<u8> {
    let g = command_guard(cmd, staged);
    seq![
        cmd.wire(),
        point_arg(point),
        0u8,
        0u8,
        be_u32_byte(g, 0),
        be_u32_byte(g, 1),
        be_u32_byte(g, 2),
        be_u32_byte(g, 3),
    ]
}

/// Build a `0x7E2` command frame.
///
/// `staged` is used only for `Commit`, whose guard word is [`cal_crc32`] of
/// it. A `Commit` without `staged` carries zero, which the ECU rejects.
pub fn build_command(
    cmd: CalCommand,
    point: Option<CalPoint>,
    staged: Option<(&CalAppsFrame, &CalBrakeFrame)>,
) -> (r: CanFrame)
    ensures
        r.id == CAL_CMD_ID,
        r.payload_bytes() == command_payload(cmd, point, staged),
{
    let guard: u32 = if cmd.needs_guard_magic() {
        CAL_GUARD_MAGIC
    } else if matches!(cmd, CalCommand::Commit) {
        match staged {
            Some((a, b)) => cal_crc32(a, b),
            None => 0,
        }
    } else {
        0
    };
    let arg: u8 = match point {
        Some(p) => p.as_byte(),
        None => 0,
    };
    let mut payload: Vec<u8> = Vec::new();
    payload.push(cmd.as_byte());
    payload.push(arg);
    payload.push(0u8);
    payload.push(0u8);
    payload.push((guard >> 24u32) as u8);
    payload.push((guard >> 16u32) as u8);
    payload.push((guard >> 8u32) as u8);
    payload.push(guard as u8);
    assert(payload@ =~= command_payload(cmd, point, staged));
    CanFrame::new(CAL_CMD_ID, payload.as_slice()).unwrap()
}

/// Status frame of a `0x7E3` payload of at least six bytes.
pub open spec fn status_of(p: Seq<u8>) -> CalStatusFrame {
    CalStatusFrame {
        session_state: CalSessionState::decoded(p[0]),
        last_cmd: p[1],
        result: CalResult::decoded(p[2]),
        captured_mask: p[3],
        validation_flags: p[4],
        cal_load: CalLoad::decoded(p[5]),
    }
}

/// APPS set of a `0x7E4` payload of at least eight bytes.
pub open spec fn apps_of(p: Seq<u8>) -> CalAppsFrame {
    CalAppsFrame {
        apps1_min: be_u16_of(p[0], p[1]),
        apps1_max: be_u16_of(p[2], p[3]),
        apps2_min: be_u16_of(p[4], p[5]),
        apps2_max: be_u16_of(p[6], p[7]),
    }
}

/// Brake set of a `0x7E5` payload of at least eight bytes.
pub open spec fn brake_of(p: Seq<u8>) -> CalBrakeFrame {
    CalBrakeFrame {
        brake_rest: be_u16_of(p[0], p[1]),
        brake_arm: be_u16_of(p[2], p[3]),
        brake_dv_hard: be_u16_of(p[4], p[5]),
        brake_pressed: be_u16_of(p[6], p[7]),
    }
}

/// Decoding of a frame with identifier `id` and data `p`.
pub open spec fn decoded_frame(id: u16, p: Seq<u8>) -> Option<CalFrame> {
    if id == CAL_STATUS_ID {
        if p.len() < 6 {
            None
        } else {
            Some(CalFrame::Status(status_of(p)))
        }
    } else if id == CAL_APPS_ID {
        if p.len() < 8 {
            None
        } else {
            Some(CalFrame::Apps(apps_of(p)))
        }
    } else if id == CAL_BRAKE_ID {
        if p.len() < 8 {
            None
        } else {
            Some(CalFrame::Brake(brake_of(p)))
        }
    } else {
        None
    }
}

/// Decode a raw CAN frame into a calibration record. `None` if the ID is not
/// part of this protocol, or the payload is too short.
pub fn decode_frame(frame: &CanFrame) -> (r: Option<CalFrame>)
    ensures
        r == decoded_frame(frame.id, frame.payload_bytes()),
{
    let p = frame.payload();
    if frame.id == CAL_STATUS_ID {
        if p.len() < 6 {
            return None;
        }
        Some(
            CalFrame::Status(
                CalStatusFrame {
                    session_state: CalSessionState::from_byte(p[0]),
                    last_cmd: p[1],
                    result: CalResult::from_byte(p[2]),
                    captured_mask: p[3],
                    validation_flags: p[4],
                    cal_load: CalLoad::from_byte(p[5]),
                },
            ),
        )
    } else if frame.id == CAL_APPS_ID {
        if p.len() < 8 {
            return None;
        }
        Some(
            CalFrame::Apps(
                CalAppsFrame {
                    apps1_min: be_u16(p[0], p[1]),
                    apps1_max: be_u16(p[2], p[3]),
                    apps2_min: be_u16(p[4], p[5]),
                    apps2_max: be_u16(p[6], p[7]),
                },
            ),
        )
    } else if frame.id == CAL_BRAKE_ID {
        if p.len() < 8 {
            return None;
        }
        Some(
            CalFrame::Brake(
                CalBrakeFrame {
                    brake_rest: be_u16(p[0], p[1]),
                    brake_arm: be_u16(p[2], p[3]),
                    brake_dv_hard: be_u16(p[4], p[5]),
                    brake_pressed: be_u16(p[6], p[7]),
                },
            ),
        )
    } else {
        None
    }
}

// ---- Laws --------------------------------------------------------

/// The guard word read back big-endian from bytes 4-7 of a built command is
/// the command's guard: the magic for `Enter`/`ResetDefaults`, the CRC of
/// the staged set for `Commit`, zero for everything else.
pub proof fn lemma_command_guard_reads_back(
    cmd: CalCommand,
    point: Option<CalPoint>,
    staged: Option<(&CalAppsFrame, &CalBrakeFrame)>,
)
    ensures
        ({
            let p = command_payload(cmd, point, staged);
            be_u32_of(p[4], p[5], p[6], p[7]) == command_guard(cmd, staged)
        }),
{
    lemma_be_u32_round_trip(command_guard(cmd, staged));
}

/// Number of the seven validation flags set in `flags`.
pub open spec fn set_flag_count(flags: u8) -> nat {
    (if flags & CAL_FLAG_APPS1_SPAN_TOO_SMALL != 0 { 1nat } else { 0nat })
        + (if flags & CAL_FLAG_APPS2_SPAN_TOO_SMALL != 0 { 1nat } else { 0nat })
        + (if flags & CAL_FLAG_APPS_SPAN_MISMATCH != 0 { 1nat } else { 0nat })
        + (if flags & CAL_FLAG_APPS_NOT_MONOTONIC != 0 { 1nat } else { 0nat })
        + (if flags & CAL_FLAG_BRAKE_SPAN_TOO_SMALL != 0 { 1nat } else { 0nat })
        + (if flags & CAL_FLAG_BRAKE_ORDER != 0 { 1nat } else { 0nat })
        + (if flags & CAL_FLAG_OUT_OF_ADC_RANGE != 0 { 1nat } else { 0nat })
}

/// Every validation flag maps to exactly one message: the explanation has
/// one sentence per set flag, none for a zero mask, and exactly one for a
/// mask holding a single flag.
pub proof fn lemma_one_message_per_flag(flags: u8, bit: u8)
    requires
        bit < 7,
    ensures
        validation_messages_spec(flags).len() == set_flag_count(flags),
        flags == 0 ==> validation_messages_spec(flags).len() == 0,
        validation_messages_spec(1u8 << bit).len() == 1,
{
    let one = 1u8 << bit;
    assert(
        (one & 0x01u8 != 0) == (bit == 0)
        && (one & 0x02u8 != 0) == (bit == 1)
        && (one & 0x04u8 != 0) == (bit == 2)
        && (one & 0x08u8 != 0) == (bit == 3)
        && (one & 0x10u8 != 0) == (bit == 4)
        && (one & 0x20u8 != 0) == (bit == 5)
        && (one & 0x40u8 != 0) == (bit == 6)
    ) by (bit_vector)
        requires
            bit < 7,
            one == 1u8 << bit,
    ;
    assert(
        flags == 0 ==> (flags & 0x01u8 == 0 && flags & 0x02u8 == 0 && flags & 0x04u8 == 0
            && flags & 0x08u8 == 0 && flags & 0x10u8 == 0 && flags & 0x20u8 == 0
            && flags & 0x40u8 == 0)
    ) by (bit_vector);
}

/// The capture points cover the mask exactly: their bits are pairwise
/// distinct and together make [`CAL_ALL_POINTS_MASK`]; their wire bytes are
/// pairwise distinct.
pub proof fn lemma_points_cover_the_mask()
    ensures
        operator_order().len() == 5,
        operator_order()[0].bit() | operator_order()[1].bit() | operator_order()[2].bit()
            | operator_order()[3].bit() | operator_order()[4].bit() == CAL_ALL_POINTS_MASK,
        forall|i: int, j: int|
            0 <= i < 5 && 0 <= j < 5 && i != j ==> operator_order()[i].bit()
                != operator_order()[j].bit() && operator_order()[i].wire()
                != operator_order()[j].wire(),
{
    assert(0x01u8 | 0x02u8 | 0x10u8 | 0x04u8 | 0x08u8 == 0x1Fu8) by (bit_vector);
}

/// A point is missing from `pts` exactly when `pts` holds it and its bit is
/// clear.
proof fn lemma_missing_contains(mask: u8, pts: Seq<CalPoint>, p: CalPoint)
    ensures
        points_missing_from(mask, pts).contains(p) <==> (pts.contains(p) && mask & p.bit() == 0),
    decreases pts.len(),
{
    if pts.len() > 0 {
        let rest = pts.drop_last();
        let last = pts.last();
        lemma_missing_contains(mask, rest, p);
        let m = points_missing_from(mask, rest);
        let r = points_missing_from(mask, pts);
        assert(r == if mask & last.bit() == 0 { m.push(last) } else { m });
        if pts.contains(p) && mask & p.bit() == 0 {
            let i = choose|i: int| 0 <= i < pts.len() && pts[i] == p;
            if i < pts.len() - 1 {
                assert(rest[i] == p);
                assert(rest.contains(p));
                assert(m.contains(p));
                let j = choose|j: int| 0 <= j < m.len() && m[j] == p;
                assert(r[j] == p);
            } else {
                assert(last == p);
                assert(r[r.len() - 1] == p);
            }
            assert(r.contains(p));
        }
        if r.contains(p) {
            let j = choose|j: int| 0 <= j < r.len() && r[j] == p;
            if j < m.len() {
                assert(m[j] == p);
                assert(m.contains(p));
                let i = choose|i: int| 0 <= i < rest.len() && rest[i] == p;
                assert(pts[i] == p);
            } else {
                assert(last == p);
                assert(pts[pts.len() - 1] == p);
            }
            assert(pts.contains(p));
        }
    }
}

/// A status frame lists no missing point exactly when it reports every
/// point captured; a point is listed exactly when its bit is clear.
pub proof fn lemma_missing_points_match_the_mask(mask: u8)
    ensures
        (points_missing_from(mask, operator_order()).len() == 0) == (mask & CAL_ALL_POINTS_MASK
            == CAL_ALL_POINTS_MASK),
        forall|p: CalPoint|
            points_missing_from(mask, operator_order()).contains(p) <==> mask & p.bit() == 0,
{
    let o = operator_order();
    assert(o.take(4) =~= o.drop_last());
    assert(o.take(3) =~= o.take(4).drop_last());
    assert(o.take(2) =~= o.take(3).drop_last());
    assert(o.take(1) =~= o.take(2).drop_last());
    assert(o.take(0) =~= o.take(1).drop_last());
    let m0 = points_missing_from(mask, o.take(0));
    let m1 = points_missing_from(mask, o.take(1));
    let m2 = points_missing_from(mask, o.take(2));
    let m3 = points_missing_from(mask, o.take(3));
    let m4 = points_missing_from(mask, o.take(4));
    let m5 = points_missing_from(mask, o);
    assert(m0.len() == 0);
    assert(
        (mask & 0x1Fu8 == 0x1Fu8) == (mask & 0x01u8 != 0 && mask & 0x02u8 != 0 && mask & 0x04u8
            != 0 && mask & 0x08u8 != 0 && mask & 0x10u8 != 0)
    ) by (bit_vector);
    assert forall|p: CalPoint| m5.contains(p) <==> mask & p.bit() == 0 by {
        lemma_missing_contains(mask, o, p);
        let k: int = match p {
            CalPoint::AppsRest => 0,
            CalPoint::AppsFull => 1,
            CalPoint::AppsMid => 2,
            CalPoint::BrakeRest => 3,
            CalPoint::BrakePressed => 4,
        };
        assert(o[k] == p);
    }
}

/// The eight values the calibration record carries, in record order.
pub open spec fn cal_values(apps: CalAppsFrame, brake: CalBrakeFrame) -> Seq<u16> {
    seq![
        apps.apps1_min,
        apps.apps1_max,
        apps.apps2_min,
        apps.apps2_max,
        brake.brake_rest,
        brake.brake_arm,
        brake.brake_dv_hard,
        brake.brake_pressed,
    ]
}

proof fn lemma_cal_record_layout(apps: CalAppsFrame, brake: CalBrakeFrame)
    ensures
        cal_record(apps, brake).len() == CAL_RECORD_LEN,
        cal_record(apps, brake)[0] == CAL_RECORD_VERSION,
        cal_record(apps, brake)[1] == 0,
        forall|i: int|
            0 <= i < 8 ==> cal_record(apps, brake)[2 + 2 * i] == hi_byte(
                #[trigger] cal_values(apps, brake)[i],
            ) && cal_record(apps, brake)[3 + 2 * i] == lo_byte(cal_values(apps, brake)[i]),
{
    let r = cal_record(apps, brake);
    let v = cal_values(apps, brake);
    assert forall|i: int| 0 <= i < 8 implies r[2 + 2 * i] == hi_byte(#[trigger] v[i]) && r[3 + 2
        * i] == lo_byte(v[i]) by {
        if i == 0 {
        } else if i == 1 {
        } else if i == 2 {
        } else if i == 3 {
        } else if i == 4 {
        } else if i == 5 {
        } else if i == 6 {
        } else {
        }
    }
}

/// Changing any one of the eight calibration values changes the CRC the
/// commit carries — the whole point of it as a consistency check.
pub proof fn lemma_cal_crc32_detects_a_changed_value(
    apps1: CalAppsFrame,
    brake1: CalBrakeFrame,
    apps2: CalAppsFrame,
    brake2: CalBrakeFrame,
    k: int,
)
    requires
        0 <= k < 8,
        forall|i: int|
            0 <= i < 8 && i != k ==> cal_values(apps1, brake1)[i] == cal_values(apps2, brake2)[i],
        cal_values(apps1, brake1)[k] != cal_values(apps2, brake2)[k],
    ensures
        cal_crc32_spec(apps1, brake1) != cal_crc32_spec(apps2, brake2),
{
    let r1 = cal_record(apps1, brake1);
    let r2 = cal_record(apps2, brake2);
    let v1 = cal_values(apps1, brake1);
    let v2 = cal_values(apps2, brake2);
    lemma_cal_record_layout(apps1, brake1);
    lemma_cal_record_layout(apps2, brake2);
    assert forall|j: int| 0 <= j < 18 && j != 2 + 2 * k && j != 3 + 2 * k implies r1[j] == r2[j] by {
        if j >= 2 {
            let i = (j - 2) / 2;
            assert(j == 2 + 2 * i || j == 3 + 2 * i);
            assert(v1[i] == v2[i]);
        }
    }
    let x = v1[k];
    let y = v2[k];
    assert(((x >> 8u16) as u8 == (y >> 8u16) as u8 && (x & 0xFFu16) as u8 == (y & 0xFFu16) as u8)
        ==> x == y) by (bit_vector);
    assert(r1 != r2) by {
        if r1 == r2 {
            assert(r1[2 + 2 * k] == r2[2 + 2 * k]);
            assert(r1[3 + 2 * k] == r2[3 + 2 * k]);
        }
    }
    lemma_crc32_detects_two_byte_change(r1, r2, 2 + 2 * k);
}

/// Whether a calibration-session provenance and a health-frame calibration
/// status name the same thing.
pub open spec fn same_provenance(load: CalLoad, status: EcuCalStatus) -> bool {
    match (load, status) {
        (CalLoad::Defaults, EcuCalStatus::Defaults) => true,
        (CalLoad::Loaded, EcuCalStatus::Loaded) => true,
        (CalLoad::InvalidFellBack, EcuCalStatus::InvalidFellBack) => true,
        (CalLoad::BadVersionFellBack, EcuCalStatus::BadVersionFellBack) => true,
        _ => false,
    }
}

/// `0x7E3` byte 5 mirrors the `cal_status` field of the ungated `0x704`
/// health frame: on the four defined values both decode to the same
/// provenance, and both call it a fallback unless a stored calibration is in
/// force.
pub proof fn lemma_cal_load_mirrors_health_cal_status(b: u8)
    requires
        b <= 3,
    ensures
        same_provenance(CalLoad::decoded(b), EcuCalStatus::decoded(b)),
        (CalLoad::decoded(b) is Loaded) == (EcuCalStatus::decoded(b) is Loaded),
{
    assert(b <= 3 ==> b & 0x03u8 == b) by (bit_vector);
}

// ---- Laws on the operator texts -----------------------------------

/// The bit of validation flag `i`, in flag order (bit 7 is no flag).
pub open spec fn flag_bit(i: int) -> u8 {
    if i == 0 {
        CAL_FLAG_APPS1_SPAN_TOO_SMALL
    } else     if i == 1 {
        CAL_FLAG_APPS2_SPAN_TOO_SMALL
    } else     if i == 2 {
        CAL_FLAG_APPS_SPAN_MISMATCH
    } else     if i == 3 {
        CAL_FLAG_APPS_NOT_MONOTONIC
    } else     if i == 4 {
        CAL_FLAG_BRAKE_SPAN_TOO_SMALL
    } else     if i == 5 {
        CAL_FLAG_BRAKE_ORDER
    } else     if i == 6 {
        CAL_FLAG_OUT_OF_ADC_RANGE
    } else {
        0x80u8
    }
}

/// The sentence of validation flag `i`, in flag order.
pub open spec fn flag_sentence(i: int) -> &'static str {
    if i == 0 {
        MSG_APPS1_SPAN
    } else     if i == 1 {
        MSG_APPS2_SPAN
    } else     if i == 2 {
        MSG_APPS_MISMATCH
    } else     if i == 3 {
        MSG_APPS_NOT_MONOTONIC
    } else     if i == 4 {
        MSG_BRAKE_SPAN
    } else     if i == 5 {
        MSG_BRAKE_ORDER
    } else {
        MSG_OUT_OF_ADC_RANGE
    }
}

/// The sentences of the flags `i..7` that are set in `flags`, in flag order.
pub open spec fn sentences_from(flags: u8, i: int) -> Seq<&'static str>
    decreases 7 - i,
{
    if i >= 7 || i < 0 {
        Seq::empty()
    } else {
        flag_message(flags, flag_bit(i), flag_sentence(i)) + sentences_from(flags, i + 1)
    }
}

proof fn lemma_sentences_from_step(flags: u8, i: int)
    requires
        0 <= i < 7,
    ensures
        sentences_from(flags, i) == flag_message(flags, flag_bit(i), flag_sentence(i))
            + sentences_from(flags, i + 1),
{
}

/// Seven right-nested concatenations equal the same seven left-nested.
proof fn lemma_concat_seven(
    m: Seq<Seq<&'static str>>,
    s: Seq<Seq<&'static str>>,
)
    requires
        m.len() == 7,
        s.len() == 8,
        s[7] == Seq::<&'static str>::empty(),
        forall|i: int| 0 <= i < 7 ==> #[trigger] s[i] == m[i] + s[i + 1],
    ensures
        s[0] == m[0] + m[1] + m[2] + m[3] + m[4] + m[5] + m[6],
{
    assert(s[6] =~= m[6]);
    assert(s[5] =~= m[5] + m[6]);
    assert(s[4] =~= m[4] + m[5] + m[6]);
    assert(s[3] =~= m[3] + m[4] + m[5] + m[6]);
    assert(s[2] =~= m[2] + m[3] + m[4] + m[5] + m[6]);
    assert(s[1] =~= m[1] + m[2] + m[3] + m[4] + m[5] + m[6]);
    assert(s[0] =~= m[0] + m[1] + m[2] + m[3] + m[4] + m[5] + m[6]);
}

proof fn lemma_sentences_from_zero(flags: u8)
    ensures
        validation_messages_spec(flags) == sentences_from(flags, 0),
{
    let m = Seq::new(7, |i: int| flag_message(flags, flag_bit(i), flag_sentence(i)));
    let s = Seq::new(8, |i: int| sentences_from(flags, i));
    assert forall|i: int| 0 <= i < 7 implies #[trigger] s[i] == m[i] + s[i + 1] by {
        lemma_sentences_from_step(flags, i);
    }
    assert(s[7] == Seq::<&'static str>::empty());
    lemma_concat_seven(m, s);
}

/// No flag from `i` on is set in `flags`.
proof fn lemma_sentences_from_empty(flags: u8, i: int)
    requires
        0 <= i <= 7,
        forall|j: int| i <= j < 7 ==> flags & #[trigger] flag_bit(j) == 0,
    ensures
        sentences_from(flags, i) == Seq::<&'static str>::empty(),
    decreases 7 - i,
{
    if i < 7 {
        assert(flags & flag_bit(i) == 0);
        lemma_sentences_from_empty(flags, i + 1);
        assert(sentences_from(flags, i) =~= Seq::<&'static str>::empty());
    }
}

proof fn lemma_sentences_from_split(a: u8, b: u8, k: int, i: int)
    requires
        0 <= i <= 7,
        forall|j: int|
            0 <= j < 7 ==> ((a | b) & #[trigger] flag_bit(j) != 0) == (a & flag_bit(j) != 0 || b
                & flag_bit(j) != 0),
        forall|j: int| 0 <= j < 7 && a & #[trigger] flag_bit(j) != 0 ==> j < k,
        forall|j: int| 0 <= j < 7 && b & #[trigger] flag_bit(j) != 0 ==> j >= k,
    ensures
        sentences_from(a | b, i) == sentences_from(a, i) + sentences_from(b, i),
    decreases 7 - i,
{
    if i < 7 {
        lemma_sentences_from_split(a, b, k, i + 1);
        let ta = flag_message(a, flag_bit(i), flag_sentence(i));
        let tb = flag_message(b, flag_bit(i), flag_sentence(i));
        let tab = flag_message(a | b, flag_bit(i), flag_sentence(i));
        if i < k {
            assert(b & flag_bit(i) == 0);
            assert(tab =~= ta);
            assert(sentences_from(a | b, i) =~= sentences_from(a, i) + sentences_from(b, i));
        } else {
            assert(a & flag_bit(i) == 0);
            assert forall|j: int| i + 1 <= j < 7 implies a & #[trigger] flag_bit(j) == 0 by {
                if a & flag_bit(j) != 0 {
                    assert(j < k);
                }
            }
            lemma_sentences_from_empty(a, i + 1);
            assert(tab =~= tb);
            assert(sentences_from(a | b, i) =~= sentences_from(a, i) + sentences_from(b, i));
        }
    } else {
        assert(sentences_from(a | b, i) =~= sentences_from(a, i) + sentences_from(b, i));
    }
}

proof fn lemma_flag_bits(a: u8, b: u8)
    ensures
        forall|j: int|
            0 <= j < 7 ==> ((a | b) & #[trigger] flag_bit(j) != 0) == (a & flag_bit(j) != 0 || b
                & flag_bit(j) != 0),
        forall|j: int| 0 <= j < 7 ==> (a | 0x80u8) & #[trigger] flag_bit(j) == a & flag_bit(j),
{
    assert(
        ((a | b) & 0x01u8 != 0) == (a & 0x01u8 != 0 || b & 0x01u8 != 0)
        && ((a | b) & 0x02u8 != 0) == (a & 0x02u8 != 0 || b & 0x02u8 != 0)
        && ((a | b) & 0x04u8 != 0) == (a & 0x04u8 != 0 || b & 0x04u8 != 0)
        && ((a | b) & 0x08u8 != 0) == (a & 0x08u8 != 0 || b & 0x08u8 != 0)
        && ((a | b) & 0x10u8 != 0) == (a & 0x10u8 != 0 || b & 0x10u8 != 0)
        && ((a | b) & 0x20u8 != 0) == (a & 0x20u8 != 0 || b & 0x20u8 != 0)
        && ((a | b) & 0x40u8 != 0) == (a & 0x40u8 != 0 || b & 0x40u8 != 0)
        && (a | 0x80u8) & 0x01u8 == a & 0x01u8 && (a | 0x80u8) & 0x02u8 == a & 0x02u8
        && (a | 0x80u8) & 0x04u8 == a & 0x04u8 && (a | 0x80u8) & 0x08u8 == a & 0x08u8
        && (a | 0x80u8) & 0x10u8 == a & 0x10u8 && (a | 0x80u8) & 0x20u8 == a & 0x20u8
        && (a | 0x80u8) & 0x40u8 == a & 0x40u8
    ) by (bit_vector);
}

/// Explanations concatenate: when every flag set in `a` comes before (in
/// flag order) every flag set in `b` — `k` separating them — the
/// explanation of `a | b` is that of `a` followed by that of `b`. Bit 7 is
/// no flag and changes nothing.
pub proof fn lemma_validation_messages_concatenate(a: u8, b: u8, k: int)
    requires
        forall|j: int| 0 <= j < 7 && a & #[trigger] flag_bit(j) != 0 ==> j < k,
        forall|j: int| 0 <= j < 7 && b & #[trigger] flag_bit(j) != 0 ==> j >= k,
    ensures
        validation_messages_spec(a | b) == validation_messages_spec(a) + validation_messages_spec(b),
        validation_messages_spec(a | 0x80u8) == validation_messages_spec(a),
{
    lemma_flag_bits(a, b);
    lemma_sentences_from_zero(a);
    lemma_sentences_from_zero(b);
    lemma_sentences_from_zero(a | b);
    lemma_sentences_from_split(a, b, k, 0);
    assert((a | 0x80u8) & 0x01u8 == a & 0x01u8 && (a | 0x80u8) & 0x02u8 == a & 0x02u8
        && (a | 0x80u8) & 0x04u8 == a & 0x04u8 && (a | 0x80u8) & 0x08u8 == a & 0x08u8
        && (a | 0x80u8) & 0x10u8 == a & 0x10u8 && (a | 0x80u8) & 0x20u8 == a & 0x20u8
        && (a | 0x80u8) & 0x40u8 == a & 0x40u8) by (bit_vector);
    assert(validation_messages_spec(a | 0x80u8) =~= validation_messages_spec(a));
}

/// Every rule has its own sentence: a mask holding only flag `i` is
/// explained by exactly `flag_sentence(i)`, and the seven sentences are
/// pairwise distinct, so no explanation repeats a sentence.
pub proof fn lemma_validation_sentences_distinct()
    ensures
        forall|i: int| 0 <= i < 7 ==> validation_messages_spec(#[trigger] flag_bit(i)) == seq![flag_sentence(i)],
        forall|i: int, j: int|
            0 <= i < 7 && 0 <= j < 7 && i != j ==> #[trigger] flag_sentence(i)@ != #[trigger] flag_sentence(j)@,
{
    reveal_strlit("Accelerator channel 1 barely moved between released and full travel. The pedal was probably not pressed all the way, or that sensor is not moving.");
    reveal_strlit("Accelerator channel 2 barely moved between released and full travel. The pedal was probably not pressed all the way, or that sensor is not moving.");
    reveal_strlit("The two accelerator channels do not agree with each other. Committing this would either trip the plausibility cut constantly or defeat it — check both sensors are connected and moving together over the whole travel.");
    reveal_strlit("An accelerator channel reads no higher at full travel than at rest. The rest and full captures were probably taken the wrong way round, or a sensor is disconnected.");
    reveal_strlit("The brake barely moved between released and pressed. Press the pedal firmly during the pressed capture.");
    reveal_strlit("The derived brake thresholds came out in the wrong order — the arming point must sit below the driverless hard-braking point, which must sit below the pressed point. Re-capture the brake with a firmer press.");
    reveal_strlit("A captured value is outside the valid 0-4095 range for a 12-bit reading.");
    assert(0x01u8 & 0x02u8 == 0 && 0x01u8 & 0x04u8 == 0 && 0x01u8 & 0x08u8 == 0 && 0x01u8 & 0x10u8 == 0
        && 0x01u8 & 0x20u8 == 0 && 0x01u8 & 0x40u8 == 0 && 0x02u8 & 0x01u8 == 0 && 0x02u8 & 0x04u8 == 0
        && 0x02u8 & 0x08u8 == 0 && 0x02u8 & 0x10u8 == 0 && 0x02u8 & 0x20u8 == 0 && 0x02u8 & 0x40u8 == 0
        && 0x04u8 & 0x01u8 == 0 && 0x04u8 & 0x02u8 == 0 && 0x04u8 & 0x08u8 == 0 && 0x04u8 & 0x10u8 == 0
        && 0x04u8 & 0x20u8 == 0 && 0x04u8 & 0x40u8 == 0 && 0x08u8 & 0x01u8 == 0 && 0x08u8 & 0x02u8 == 0
        && 0x08u8 & 0x04u8 == 0 && 0x08u8 & 0x10u8 == 0 && 0x08u8 & 0x20u8 == 0 && 0x08u8 & 0x40u8 == 0
        && 0x10u8 & 0x01u8 == 0 && 0x10u8 & 0x02u8 == 0 && 0x10u8 & 0x04u8 == 0 && 0x10u8 & 0x08u8 == 0
        && 0x10u8 & 0x20u8 == 0 && 0x10u8 & 0x40u8 == 0 && 0x20u8 & 0x01u8 == 0 && 0x20u8 & 0x02u8 == 0
        && 0x20u8 & 0x04u8 == 0 && 0x20u8 & 0x08u8 == 0 && 0x20u8 & 0x10u8 == 0 && 0x20u8 & 0x40u8 == 0
        && 0x40u8 & 0x01u8 == 0 && 0x40u8 & 0x02u8 == 0 && 0x40u8 & 0x04u8 == 0 && 0x40u8 & 0x08u8 == 0
        && 0x40u8 & 0x10u8 == 0 && 0x40u8 & 0x20u8 == 0 && 0x01u8 & 0x01u8 != 0 && 0x02u8 & 0x02u8 != 0
        && 0x04u8 & 0x04u8 != 0 && 0x08u8 & 0x08u8 != 0 && 0x10u8 & 0x10u8 != 0 && 0x20u8 & 0x20u8 != 0
        && 0x40u8 & 0x40u8 != 0) by (bit_vector);
    assert forall|i: int| 0 <= i < 7 implies validation_messages_spec(#[trigger] flag_bit(i)) == seq![flag_sentence(i)] by {
        assert(validation_messages_spec(flag_bit(i)) =~= seq![flag_sentence(i)]);
    }
    assert(MSG_APPS1_SPAN@[20] != MSG_APPS2_SPAN@[20]);
    assert(MSG_APPS1_SPAN@.len() == 146 && MSG_APPS2_SPAN@.len() == 146);
    assert(MSG_APPS_MISMATCH@.len() == 215 && MSG_APPS_NOT_MONOTONIC@.len() == 164);
    assert(MSG_BRAKE_SPAN@.len() == 103 && MSG_BRAKE_ORDER@.len() == 207);
    assert(MSG_OUT_OF_ADC_RANGE@.len() == 72);
    assert forall|i: int, j: int|
        0 <= i < 7 && 0 <= j < 7 && i != j implies #[trigger] flag_sentence(i)@ != #[trigger] flag_sentence(j)@ by {
        assert(i == 0 || i == 1 || i == 2 || i == 3 || i == 4 || i == 5 || i == 6);
        assert(j == 0 || j == 1 || j == 2 || j == 3 || j == 4 || j == 5 || j == 6);
    }
}

/// Text `needle` occurs in `hay`.
pub open spec fn contains_text(hay: Seq<char>, needle: Seq<char>) -> bool {
    exists|i: int|
        0 <= i && i + needle.len() <= hay.len() && #[trigger] hay.subrange(i, i + needle.len()) == needle
}

/// No result code reaches the operator as a bare number: every result's
/// message is a non-empty sentence, and a code this tool does not know says
/// so.
pub proof fn lemma_every_result_explains_itself(r: CalResult)
    ensures
        r.message_text()@.len() > 0,
        r is Unknown ==> contains_text(r.message_text()@, "does not recognise"@),
{
    reveal_strlit("Accepted.");
    reveal_strlit("The ECU rejected the safety word on that command. This is a client bug, not something the operator can fix — do not retry blindly.");
    reveal_strlit("No calibration session is open. It may have timed out after 30 s of inactivity, in which case anything captured has been discarded and the stored calibration is untouched. Start again.");
    reveal_strlit("The ECU refused to open a session because the car is not in a safe state. It requires the tractive system inactive, the control FSM out of Active, zero motor rpm and zero commanded torque.");
    reveal_strlit("The reading was still moving when captured. Hold the pedal steady and wait for the live value to settle before capturing again.");
    reveal_strlit("Not every capture point has been taken yet. All five are required before committing.");
    reveal_strlit("The ECU rejected the calibration and wrote nothing — the car is unchanged. Either a safety check failed (the flags say which), or the consistency CRC did not match, meaning this tool and the ECU disagree about what was captured. An empty flag set points at the CRC: abort and capture again rather than retrying the commit.");
    reveal_strlit("The ECU could not write the calibration to flash, or wrote it and failed to read it back. The previous calibration is still in force. If this repeats, the storage region may be full and need compaction.");
    reveal_strlit("The ECU did not recognise the command. The tool and the firmware are probably out of step — check the ECU firmware version.");
    reveal_strlit("The ECU returned a result code this tool does not recognise. It is newer than this build; check the ECU firmware version.");
    reveal_strlit("does not recognise");
    let needle = "does not recognise"@;
    assert(needle.len() == 18);
    assert(MSG_UNKNOWN_RESULT@.subrange(41int, 41int + needle.len()) =~= needle);
    assert(contains_text(MSG_UNKNOWN_RESULT@, needle));
}


// ---- Laws on the wire tables ---------------------------------------

/// Every `0x7E2` command is eight bytes: byte 0 the command (Poll 0, Enter 1,
/// Capture 2, ReadStored 3, ReadStaged 4, Commit 5, Abort 6, ResetDefaults
/// 7), byte 1 the capture point (none 0, accelerator rest 1, accelerator full
/// 2, brake rest 3, brake pressed 4, accelerator mid 5), bytes 2-3 zero, and
/// bytes 4-7 a big-endian guard word: `0xCA11B0DE` for Enter and
/// ResetDefaults, the CRC of the staged set for Commit (zero without one),
/// zero for every other command.
pub proof fn lemma_command_wire_layout(
    cmd: CalCommand,
    point: Option<CalPoint>,
    staged: Option<(&CalAppsFrame, &CalBrakeFrame)>,
)
    ensures
        ({
            let p = command_payload(cmd, point, staged);
            let guard = p[4] as int * 0x100_0000 + p[5] as int * 0x1_0000 + p[6] as int * 0x100
                + p[7] as int;
            &&& p.len() == 8
            &&& cmd.guarded() == (cmd is Enter || cmd is ResetDefaults)
            &&& p[0] == match cmd {
                CalCommand::Poll => 0u8,
                CalCommand::Enter => 1u8,
                CalCommand::Capture => 2u8,
                CalCommand::ReadStored => 3u8,
                CalCommand::ReadStaged => 4u8,
                CalCommand::Commit => 5u8,
                CalCommand::Abort => 6u8,
                CalCommand::ResetDefaults => 7u8,
            }
            &&& p[1] == match point {
                None => 0u8,
                Some(CalPoint::AppsRest) => 1u8,
                Some(CalPoint::AppsFull) => 2u8,
                Some(CalPoint::BrakeRest) => 3u8,
                Some(CalPoint::BrakePressed) => 4u8,
                Some(CalPoint::AppsMid) => 5u8,
            }
            &&& p[2] == 0 && p[3] == 0
            &&& guard == match cmd {
                CalCommand::Enter | CalCommand::ResetDefaults => 0xCA11_B0DEint,
                CalCommand::Commit => match staged {
                    Some((a, b)) => cal_crc32_spec(*a, *b) as int,
                    None => 0int,
                },
                _ => 0int,
            }
        }),
{
    lemma_be_u32_round_trip(command_guard(cmd, staged));
}

/// Capture points take the status-mask bits in wire order: accelerator rest
/// 0x01, accelerator full 0x02, brake rest 0x04, brake pressed 0x08,
/// accelerator mid 0x10, together the full mask 0x1F; the operator works
/// through them as accelerator rest, full, mid, then brake rest, pressed.
pub proof fn lemma_point_mask_bits(pt: CalPoint)
    ensures
        pt.bit() == match pt {
            CalPoint::AppsRest => 0x01u8,
            CalPoint::AppsFull => 0x02u8,
            CalPoint::BrakeRest => 0x04u8,
            CalPoint::BrakePressed => 0x08u8,
            CalPoint::AppsMid => 0x10u8,
        },
        CAL_ALL_POINTS_MASK == 0x1F,
        operator_order() == seq![
            CalPoint::AppsRest,
            CalPoint::AppsFull,
            CalPoint::AppsMid,
            CalPoint::BrakeRest,
            CalPoint::BrakePressed,
        ],
{
}

/// The `0x7E3` status frame, for every payload of at least six bytes: byte
/// 0 the session state (0 idle, 1 active, 2 validated, 3 committing,
/// 4 committed, 5 error, else passed through), byte 1 the last command, byte
/// 2 the result (0 accepted, 1 bad guard, 2 not in session, 3 vehicle not
/// safe, 4 sample unstable, 5 missing points, 6 validation failed, 7 NVM
/// write failed, 8 unknown command, else passed through), byte 3 the
/// captured mask, byte 4 the validation flags, byte 5 the calibration in
/// force (0 defaults, 1 loaded, 2 invalid fell back, 3 bad version fell
/// back, else passed through). Shorter payloads are no status frame.
pub proof fn lemma_status_frame_layout(p: Seq<u8>)
    ensures
        decoded_frame(0x7E3u16, p) is Some <==> p.len() >= 6,
        p.len() >= 6 ==> (decoded_frame(0x7E3u16, p) matches Some(CalFrame::Status(s)) && {
            &&& s.session_state == match p[0] {
                0 => CalSessionState::Idle,
                1 => CalSessionState::Active,
                2 => CalSessionState::Validated,
                3 => CalSessionState::Committing,
                4 => CalSessionState::Committed,
                5 => CalSessionState::Error,
                x => CalSessionState::Unknown(x),
            }
            &&& s.last_cmd == p[1]
            &&& s.result == match p[2] {
                0 => CalResult::Accepted,
                1 => CalResult::BadGuard,
                2 => CalResult::NotInSession,
                3 => CalResult::VehicleNotSafe,
                4 => CalResult::SampleUnstable,
                5 => CalResult::MissingPoints,
                6 => CalResult::ValidationFailed,
                7 => CalResult::NvmWriteFailed,
                8 => CalResult::UnknownCmd,
                x => CalResult::Unknown(x),
            }
            &&& s.captured_mask == p[3]
            &&& s.validation_flags == p[4]
            &&& s.cal_load == match p[5] {
                0 => CalLoad::Defaults,
                1 => CalLoad::Loaded,
                2 => CalLoad::InvalidFellBack,
                3 => CalLoad::BadVersionFellBack,
                x => CalLoad::Unknown(x),
            }
        }),
{
}

/// The `0x7E4` and `0x7E5` value frames carry four big-endian values each,
/// in bytes 0-1, 2-3, 4-5 and 6-7: accelerator channel 1 min and max,
/// channel 2 min and max; brake rest, arming, driverless hard-braking and
/// pressed thresholds. Payloads under eight bytes, and every identifier
/// outside `0x7E3`-`0x7E5`, decode to nothing.
pub proof fn lemma_value_frames_layout(id: u16, p: Seq<u8>)
    ensures
        id == 0x7E4 ==> (decoded_frame(id, p) is Some <==> p.len() >= 8),
        id == 0x7E5 ==> (decoded_frame(id, p) is Some <==> p.len() >= 8),
        id == 0x7E4 && p.len() >= 8 ==> (decoded_frame(id, p) matches Some(CalFrame::Apps(a))
            && a.apps1_min == p[0] as int * 256 + p[1] as int && a.apps1_max == p[2] as int * 256
            + p[3] as int && a.apps2_min == p[4] as int * 256 + p[5] as int && a.apps2_max == p[6]
            as int * 256 + p[7] as int),
        id == 0x7E5 && p.len() >= 8 ==> (decoded_frame(id, p) matches Some(CalFrame::Brake(b))
            && b.brake_rest == p[0] as int * 256 + p[1] as int && b.brake_arm == p[2] as int * 256
            + p[3] as int && b.brake_dv_hard == p[4] as int * 256 + p[5] as int && b.brake_pressed
            == p[6] as int * 256 + p[7] as int),
        !(0x7E3 <= id <= 0x7E5) ==> decoded_frame(id, p) is None,
{
}

/// The commit CRC is CRC-32 over the 18-byte record: version 1, a zero
/// byte, then the eight values big-endian in the order accelerator 1 min,
/// accelerator 1 max, accelerator 2 min, accelerator 2 max, brake rest,
/// brake arming, driverless hard braking, brake pressed.
pub proof fn lemma_cal_crc_record(apps: CalAppsFrame, brake: CalBrakeFrame)
    ensures
        cal_crc32_spec(apps, brake) == crc32_spec(
            seq![
                1u8,
                0u8,
                (apps.apps1_min / 256) as u8,
                (apps.apps1_min % 256) as u8,
                (apps.apps1_max / 256) as u8,
                (apps.apps1_max % 256) as u8,
                (apps.apps2_min / 256) as u8,
                (apps.apps2_min % 256) as u8,
                (apps.apps2_max / 256) as u8,
                (apps.apps2_max % 256) as u8,
                (brake.brake_rest / 256) as u8,
                (brake.brake_rest % 256) as u8,
                (brake.brake_arm / 256) as u8,
                (brake.brake_arm % 256) as u8,
                (brake.brake_dv_hard / 256) as u8,
                (brake.brake_dv_hard % 256) as u8,
                (brake.brake_pressed / 256) as u8,
                (brake.brake_pressed % 256) as u8,
            ],
        ),
{
    assert(forall|v: u16| #[trigger] hi_byte(v) == (v / 256) as u8 && lo_byte(v) == (v % 256) as u8)
        by {
        assert forall|v: u16| #[trigger] hi_byte(v) == (v / 256) as u8 && lo_byte(v) == (v % 256) as u8 by {
            assert((v >> 8u16) as u8 == (v / 256) as u8 && (v & 0xFFu16) as u8 == (v % 256) as u8)
                by (bit_vector);
        }
    }
    let r = seq![
        1u8,
        0u8,
        (apps.apps1_min / 256) as u8,
        (apps.apps1_min % 256) as u8,
        (apps.apps1_max / 256) as u8,
        (apps.apps1_max % 256) as u8,
        (apps.apps2_min / 256) as u8,
        (apps.apps2_min % 256) as u8,
        (apps.apps2_max / 256) as u8,
        (apps.apps2_max % 256) as u8,
        (brake.brake_rest / 256) as u8,
        (brake.brake_rest % 256) as u8,
        (brake.brake_arm / 256) as u8,
        (brake.brake_arm % 256) as u8,
        (brake.brake_dv_hard / 256) as u8,
        (brake.brake_dv_hard % 256) as u8,
        (brake.brake_pressed / 256) as u8,
        (brake.brake_pressed % 256) as u8,
    ];
    assert(cal_record(apps, brake) =~= r);
}

/// Each result code reaches the operator as its own sentence.
pub proof fn lemma_result_messages(b: u8)
    ensures
        b == 0 ==> CalResult::decoded(b).message_text() == "Accepted.",
        b == 1 ==> CalResult::decoded(b).message_text() == "The ECU rejected the safety word on that command. This is a client bug, not something the operator can fix — do not retry blindly.",
        b == 2 ==> CalResult::decoded(b).message_text() == "No calibration session is open. It may have timed out after 30 s of inactivity, in which case anything captured has been discarded and the stored calibration is untouched. Start again.",
        b == 3 ==> CalResult::decoded(b).message_text() == "The ECU refused to open a session because the car is not in a safe state. It requires the tractive system inactive, the control FSM out of Active, zero motor rpm and zero commanded torque.",
        b == 4 ==> CalResult::decoded(b).message_text() == "The reading was still moving when captured. Hold the pedal steady and wait for the live value to settle before capturing again.",
        b == 5 ==> CalResult::decoded(b).message_text() == "Not every capture point has been taken yet. All five are required before committing.",
        b == 6 ==> CalResult::decoded(b).message_text() == "The ECU rejected the calibration and wrote nothing — the car is unchanged. Either a safety check failed (the flags say which), or the consistency CRC did not match, meaning this tool and the ECU disagree about what was captured. An empty flag set points at the CRC: abort and capture again rather than retrying the commit.",
        b == 7 ==> CalResult::decoded(b).message_text() == "The ECU could not write the calibration to flash, or wrote it and failed to read it back. The previous calibration is still in force. If this repeats, the storage region may be full and need compaction.",
        b == 8 ==> CalResult::decoded(b).message_text() == "The ECU did not recognise the command. The tool and the firmware are probably out of step — check the ECU firmware version.",
        b > 8 ==> CalResult::decoded(b).message_text() == "The ECU returned a result code this tool does not recognise. It is newer than this build; check the ECU firmware version.",
{
}

/// Each validation flag, alone in the mask, is explained by its own
/// sentence: bit 0 accelerator channel 1 span, bit 1 channel 2 span, bit 2
/// channel mismatch, bit 3 not monotonic, bit 4 brake span, bit 5 brake
/// threshold order, bit 6 out of ADC range.
pub proof fn lemma_flag_sentences()
    ensures
        validation_messages_spec(0x01u8) == seq!["Accelerator channel 1 barely moved between released and full travel. The pedal was probably not pressed all the way, or that sensor is not moving."],
        validation_messages_spec(0x02u8) == seq!["Accelerator channel 2 barely moved between released and full travel. The pedal was probably not pressed all the way, or that sensor is not moving."],
        validation_messages_spec(0x04u8) == seq!["The two accelerator channels do not agree with each other. Committing this would either trip the plausibility cut constantly or defeat it — check both sensors are connected and moving together over the whole travel."],
        validation_messages_spec(0x08u8) == seq!["An accelerator channel reads no higher at full travel than at rest. The rest and full captures were probably taken the wrong way round, or a sensor is disconnected."],
        validation_messages_spec(0x10u8) == seq!["The brake barely moved between released and pressed. Press the pedal firmly during the pressed capture."],
        validation_messages_spec(0x20u8) == seq!["The derived brake thresholds came out in the wrong order — the arming point must sit below the driverless hard-braking point, which must sit below the pressed point. Re-capture the brake with a firmer press."],
        validation_messages_spec(0x40u8) == seq!["A captured value is outside the valid 0-4095 range for a 12-bit reading."],
{
    lemma_validation_sentences_distinct();
    assert(validation_messages_spec(flag_bit(0)) == seq![flag_sentence(0)]);
    assert(validation_messages_spec(flag_bit(1)) == seq![flag_sentence(1)]);
    assert(validation_messages_spec(flag_bit(2)) == seq![flag_sentence(2)]);
    assert(validation_messages_spec(flag_bit(3)) == seq![flag_sentence(3)]);
    assert(validation_messages_spec(flag_bit(4)) == seq![flag_sentence(4)]);
    assert(validation_messages_spec(flag_bit(5)) == seq![flag_sentence(5)]);
    assert(validation_messages_spec(flag_bit(6)) == seq![flag_sentence(6)]);
}

/// Each capture point comes with its own operator instruction.
pub proof fn lemma_point_instructions(pt: CalPoint)
    ensures
        pt is AppsRest ==> pt.instruction_text() == "Release the accelerator fully and let the reading settle.",
        pt is AppsFull ==> pt.instruction_text() == "Press the accelerator to the mechanical stop and hold it.",
        pt is AppsMid ==> pt.instruction_text() == "Hold the accelerator at roughly half travel and keep it steady.",
        pt is BrakeRest ==> pt.instruction_text() == "Release the brake fully and let the reading settle.",
        pt is BrakePressed ==> pt.instruction_text() == "Press the brake firmly, as in hard braking, and hold it.",
{
}

/// A status frame answers a read when it echoes one: last command 3 (read
/// stored) announces the stored set, 4 (read staged) the staged set, any
/// other command no value frames. The set is complete when all five point
/// bits 0x1F are set, whatever the other bits.
pub proof fn lemma_status_read_and_completion(s: CalStatusFrame)
    ensures
        s.read_answered() == (if s.last_cmd == 3 {
            Some(ReadKind::Stored)
        } else if s.last_cmd == 4 {
            Some(ReadKind::Staged)
        } else {
            None
        }),
        s.complete() <==> (s.captured_mask & 0x1F == 0x1F),
{
}

} // verus!
