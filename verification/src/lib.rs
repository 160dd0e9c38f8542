//! Host-side protocol logic for the IFS08 pit-lane CAN tool: the classic
//! CAN frame, the CRC-32 the bootloader and ECU share, the ECU pit-diag
//! observer stream, the operator pedal-calibration protocol, the
//! provisioning seed record, and the decision logic of a LOGFS pull.

pub mod bytes;
pub mod can_frame;
pub mod crc;
pub mod logfs_client;
pub mod pit_cal;
pub mod pit_diag;
pub mod provision_seed;
pub mod text;
