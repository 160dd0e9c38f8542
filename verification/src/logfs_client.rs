//! The decisions of a LOGFS pull: OPEN → READ loop → CRC → CLOSE, with the
//! two robustness properties a busy shared bus needs.
//!
//! - **Transport retry.** A single ranged READ is re-sent on a timeout or
//!   transport error, at most [`RETRY_ATTEMPTS`] sends in all, with a linear
//!   backoff.
//! - **Session recovery.** When the node's diag session drops mid-transfer
//!   the pull re-connects, re-opens the file and resumes the ranged read from
//!   the last acknowledged offset. It gives up only after
//!   [`MAX_STALLED_RESYNCS`] reconnects in a row without a byte of progress;
//!   the counter resets on every byte received.
//!
//! The transport performs the sends; [`PullState`] takes each outcome and
//! says what to do next.

use vstd::prelude::*;

use vstd::string::StringExecFns;

use crate::crc::{crc32, crc32_spec};
use crate::text::{append_decimal, append_padded_hex, decimal_text, padded_hex_text};

verus! {

/// Re-send an idempotent LOGFS command this many times before failing.
pub const RETRY_ATTEMPTS: u32 = 3;

/// Linear backoff base — attempt N waits `N * this`.
pub const RETRY_BACKOFF_MS: u64 = 60;

/// How many times a pull may re-establish a dropped session without the
/// transfer advancing before giving up.
pub const MAX_STALLED_RESYNCS: u32 = 5;

/// Outcome of a completed pull.
#[derive(Debug)]
pub struct PullResult {
    /// The file's bytes.
    pub data: Vec<u8>,
    /// `true` when the node's CRC matched the received bytes; `false` when
    /// verification was skipped.
    pub crc_verified: bool,
}

/// Why a pull stopped short.
#[derive(Debug)]
pub enum PullError {
    /// The operator cancelled — not a failure.
    Cancelled,
    /// Anything else, with an operator-readable explanation.
    Failed(String),
}

/// A pull failure carrying `msg`.
pub fn failed(msg: String) -> (r: PullError)
    ensures
        r matches PullError::Failed(m) && m@ == msg@,
{
    PullError::Failed(msg)
}

impl PullError {
    /// The text an operator sees.
    pub open spec fn text(&self) -> Seq<char> {
        match self {
            PullError::Cancelled => "cancelled by operator"@,
            PullError::Failed(m) => m@,
        }
    }

    /// The text an operator sees: "cancelled by operator" for a cancel, the
    /// explanation otherwise.
    pub fn message(&self) -> (r: String)
        ensures
            r@ == self.text(),
    {
        match self {
            PullError::Cancelled => "cancelled by operator".to_owned(),
            PullError::Failed(m) => m.clone(),
        }
    }
}

// ---- Transport retry ---------------------------------------------

/// Delay before re-sending after a timeout or transport error on send number
/// `attempt` (counting from 1): `None` once [`RETRY_ATTEMPTS`] sends have
/// been made, else `attempt * RETRY_BACKOFF_MS`.
pub open spec fn backoff_after(attempt: u32) -> Option<u64> {
    if attempt >= RETRY_ATTEMPTS {
        None
    } else {
        Some((attempt * RETRY_BACKOFF_MS) as u64)
    }
}

/// How long to wait before re-sending after a timeout or transport error on
/// send number `attempt` (counting from 1), or `None` to give up.
pub fn retry_backoff_ms(attempt: u32) -> (r: Option<u64>)
    ensures
        r == backoff_after(attempt),
{
    if attempt >= RETRY_ATTEMPTS {
        None
    } else {
        Some(RETRY_BACKOFF_MS * (attempt as u64))
    }
}

/// Whether an ACK answers the request: its echoed opcode must be the
/// request's first byte (any ACK answers an empty request).
pub fn ack_matches_request(request: &[u8], opcode: u8) -> (r: bool)
    ensures
        r == (request@.len() == 0 || request@[0] == opcode),
{
    request.len() == 0 || request[0] == opcode
}

/// `context: detail`, the shape of a failure that wraps another's text.
pub open spec fn context_text(context: Seq<char>, detail: Seq<char>) -> Seq<char> {
    context + ": "@ + detail
}

/// A pull failure reading `context: detail`.
pub fn failed_with(context: &str, detail: &str) -> (r: PullError)
    ensures
        r matches PullError::Failed(m) && m@ == context_text(context@, detail@),
{
    let mut m = String::from_str(context);
    m.append(": ");
    m.append(detail);
    PullError::Failed(m)
}

/// What the node answered to one application command. The texts are the
/// session layer's renderings of the NACK code and of the reply kind.
#[derive(Debug)]
pub enum Reply {
    /// Positive reply echoing an opcode, with its body.
    Ack {
        /// The echoed opcode.
        opcode: u8,
        /// The reply body.
        payload: Vec<u8>,
    },
    /// Negative reply.
    Nack {
        /// The opcode the node rejected.
        rejected_opcode: u8,
        /// `true` when the code is `BAD_SESSION`: the node lost our session.
        bad_session: bool,
        /// The NACK code as text.
        code: String,
    },
    /// Any other reply.
    Other {
        /// The reply's kind as text.
        kind: String,
    },
}

/// Why a send got no reply, with the error as text.
#[derive(Debug)]
pub enum SendError {
    /// No reply within the command timeout — the send may be repeated.
    Timeout(String),
    /// The adapter failed — the send may be repeated.
    Transport(String),
    /// Anything else.
    Other(String),
}

/// A LOGFS command's classified outcome.
#[derive(Debug)]
pub enum Sent {
    /// The node acknowledged, with this body.
    Ack(Vec<u8>),
    /// The node lost our session (`BAD_SESSION`) — recoverable by
    /// re-connecting.
    SessionLost,
    /// Anything else, already described.
    Failed(String),
}

/// What to do after one send of a LOGFS command.
#[derive(Debug)]
pub enum SendStep {
    /// Wait, then send the same (idempotent) command again as send number
    /// `next_attempt`.
    Retry {
        /// Milliseconds to wait.
        delay_ms: u64,
        /// Number of the next send, counting from 1.
        next_attempt: u32,
    },
    /// The command has an outcome.
    Done(Sent),
}

/// Failure text for an ACK echoing the wrong opcode.
pub open spec fn opcode_mismatch_text(what: Seq<char>, opcode: u8, want: u8) -> Seq<char> {
    "reply to "@ + what + " echoes opcode 0x"@ + padded_hex_text(opcode as nat, 2)
        + ", expected 0x"@ + padded_hex_text(want as nat, 2)
        + " — replies are out of step with requests"@
}

/// Failure text for a NACK other than `BAD_SESSION`.
pub open spec fn nack_text(what: Seq<char>, rejected_opcode: u8, code: Seq<char>) -> Seq<char> {
    "device NACK'd "@ + what + " (opcode 0x"@ + padded_hex_text(rejected_opcode as nat, 2) + "): "@
        + code
}

/// Failure text for a reply that is neither ACK nor NACK.
pub open spec fn other_reply_text(what: Seq<char>, kind: Seq<char>) -> Seq<char> {
    "unexpected reply to "@ + what + ": "@ + kind
}

/// Whether `step` is a failure whose text is `text`.
pub open spec fn fails_with(step: SendStep, text: Seq<char>) -> bool {
    step matches SendStep::Done(Sent::Failed(m)) && m@ == text
}

/// Classify the outcome of send number `attempt` (counting from 1) of the
/// LOGFS command `request`, named `what` in messages.
///
/// An ACK answers the command when it echoes the request's opcode; another
/// opcode means replies are out of step. `BAD_SESSION` is surfaced as a lost
/// session, so the caller can resync; every other NACK, any other reply and
/// any non-transient error fails. A timeout or transport error repeats the
/// send after a linear backoff, at most [`RETRY_ATTEMPTS`] sends in all.
pub fn classify_send(request: &[u8], what: &str, attempt: u32, outcome: Result<Reply, SendError>) -> (r: SendStep)
    ensures
        match outcome {
            Ok(Reply::Ack { opcode, payload }) => if request@.len() == 0 || request@[0] == opcode {
                r matches SendStep::Done(Sent::Ack(b)) && b@ == payload@
            } else {
                fails_with(r, opcode_mismatch_text(what@, opcode, request@[0]))
            },
            Ok(Reply::Nack { rejected_opcode, bad_session, code }) => if bad_session {
                r matches SendStep::Done(Sent::SessionLost)
            } else {
                fails_with(r, nack_text(what@, rejected_opcode, code@))
            },
            Ok(Reply::Other { kind }) => fails_with(r, other_reply_text(what@, kind@)),
            Err(SendError::Timeout(e)) => match backoff_after(attempt) {
                Some(d) => r matches SendStep::Retry { delay_ms, next_attempt } && delay_ms == d
                    && next_attempt == attempt + 1,
                None => fails_with(r, context_text(what@, e@)),
            },
            Err(SendError::Transport(e)) => match backoff_after(attempt) {
                Some(d) => r matches SendStep::Retry { delay_ms, next_attempt } && delay_ms == d
                    && next_attempt == attempt + 1,
                None => fails_with(r, context_text(what@, e@)),
            },
            Err(SendError::Other(e)) => fails_with(r, context_text(what@, e@)),
        },
{
    match outcome {
        Ok(Reply::Ack { opcode, payload }) => {
            if ack_matches_request(request, opcode) {
                SendStep::Done(Sent::Ack(payload))
            } else {
                let mut m = String::from_str("reply to ");
                m.append(what);
                m.append(" echoes opcode 0x");
                append_padded_hex(&mut m, opcode as u64, 2);
                m.append(", expected 0x");
                append_padded_hex(&mut m, request[0] as u64, 2);
                m.append(" — replies are out of step with requests");
                SendStep::Done(Sent::Failed(m))
            }
        },
        Ok(Reply::Nack { rejected_opcode, bad_session, code }) => {
            if bad_session {
                SendStep::Done(Sent::SessionLost)
            } else {
                let mut m = String::from_str("device NACK'd ");
                m.append(what);
                m.append(" (opcode 0x");
                append_padded_hex(&mut m, rejected_opcode as u64, 2);
                m.append("): ");
                m.append(code.as_str());
                SendStep::Done(Sent::Failed(m))
            }
        },
        Ok(Reply::Other { kind }) => {
            let mut m = String::from_str("unexpected reply to ");
            m.append(what);
            m.append(": ");
            m.append(kind.as_str());
            SendStep::Done(Sent::Failed(m))
        },
        Err(SendError::Timeout(e)) | Err(SendError::Transport(e)) => {
            match retry_backoff_ms(attempt) {
                Some(delay_ms) => SendStep::Retry { delay_ms, next_attempt: attempt + 1 },
                None => {
                    let mut m = String::from_str(what);
                    m.append(": ");
                    m.append(e.as_str());
                    SendStep::Done(Sent::Failed(m))
                },
            }
        },
        Err(SendError::Other(e)) => {
            let mut m = String::from_str(what);
            m.append(": ");
            m.append(e.as_str());
            SendStep::Done(Sent::Failed(m))
        },
    }
}

/// The reply body of a LOGFS command that must be acknowledged (OPEN, CRC):
/// a lost session fails with `lost`, a failure with its own text.
pub fn acknowledged_body(sent: Sent, lost: &str) -> (r: Result<Vec<u8>, PullError>)
    ensures
        match sent {
            Sent::Ack(b) => r matches Ok(body) && body@ == b@,
            Sent::SessionLost => r matches Err(PullError::Failed(m)) && m@ == lost@,
            Sent::Failed(t) => r matches Err(PullError::Failed(m)) && m@ == t@,
        },
{
    match sent {
        Sent::Ack(b) => Ok(b),
        Sent::SessionLost => Err(PullError::Failed(String::from_str(lost))),
        Sent::Failed(t) => Err(PullError::Failed(t)),
    }
}

/// Text a LOGFS_OPEN lost session fails with.
pub const OPEN_SESSION_LOST: &'static str =
    "LOGFS_OPEN rejected with BAD_SESSION — the diag session is not open";

/// Text a LOGFS_CRC lost session fails with.
pub const CRC_SESSION_LOST: &'static str =
    "session dropped before CRC verification; retry the pull";

/// The outcome of LOGFS_CLOSE: a lost session already freed the handle, so
/// only a failure is an error.
pub fn close_outcome(sent: Sent) -> (r: Result<(), PullError>)
    ensures
        match sent {
            Sent::Failed(t) => r matches Err(PullError::Failed(m)) && m@ == t@,
            _ => r is Ok,
        },
{
    match sent {
        Sent::Failed(t) => Err(PullError::Failed(t)),
        _ => Ok(()),
    }
}

/// Failure text when a READ returns no data before end of file.
pub open spec fn no_data_text(offset: u32) -> Seq<char> {
    "LOGFS_READ returned no data before EOF at offset "@ + decimal_text(offset as nat)
}

/// Failure text when the session would not hold.
pub open spec fn stalled_text(offset: u32, size: u32) -> Seq<char> {
    "session dropped mid-pull and did not hold after "@ + decimal_text(MAX_STALLED_RESYNCS as nat)
        + " reconnect(s) with no progress (stuck at "@ + decimal_text(offset as nat) + "/"@
        + decimal_text(size as nat) + " B) — the bus is too busy to finish"@
}

/// Failure text for a transfer whose length contradicts OPEN's size.
pub open spec fn size_mismatch_text(size: u32, received: nat) -> Seq<char> {
    "size mismatch: OPEN said "@ + decimal_text(size as nat) + " B, transfer produced "@
        + decimal_text(received) + " B"@
}

/// Failure text for a CRC mismatch.
pub open spec fn crc_mismatch_text(want: u32, got: u32) -> Seq<char> {
    "CRC mismatch: node says 0x"@ + padded_hex_text(want as nat, 8) + ", received bytes are 0x"@
        + padded_hex_text(got as nat, 8)
}

/// The failure for [`ReadStep::NoDataBeforeEof`].
pub fn no_data_error(offset: u32) -> (r: PullError)
    ensures
        r matches PullError::Failed(m) && m@ == no_data_text(offset),
{
    let mut m = String::from_str("LOGFS_READ returned no data before EOF at offset ");
    append_decimal(&mut m, offset as u64);
    PullError::Failed(m)
}

/// The failure for [`LostStep::GiveUp`].
pub fn stalled_error(offset: u32, size: u32) -> (r: PullError)
    ensures
        r matches PullError::Failed(m) && m@ == stalled_text(offset, size),
{
    let mut m = String::from_str("session dropped mid-pull and did not hold after ");
    append_decimal(&mut m, MAX_STALLED_RESYNCS as u64);
    m.append(" reconnect(s) with no progress (stuck at ");
    append_decimal(&mut m, offset as u64);
    m.append("/");
    append_decimal(&mut m, size as u64);
    m.append(" B) — the bus is too busy to finish");
    PullError::Failed(m)
}

// ---- The pull ----------------------------------------------------

/// What LOGFS_OPEN answered.
#[derive(Clone, Copy, Debug, PartialEq, Eq)]
pub struct OpenedFile {
    /// Handle for the following reads.
    pub handle: u16,
    /// File size in bytes; `0` when the node didn't report one.
    pub size: u32,
    /// The sealed CRC-32 of the file.
    pub crc32: u32,
    /// `true` when the node deferred the CRC to an explicit LOGFS_CRC.
    pub crc_deferred: bool,
}

/// What to do after a READ reply.
#[derive(Clone, Copy, Debug, PartialEq, Eq)]
pub enum ReadStep {
    /// Read the next window at [`PullState::offset`].
    Continue,
    /// The node reported end of file.
    Finished,
    /// The node returned no data before end of file: the pull fails.
    NoDataBeforeEof {
        /// Where the transfer stood.
        offset: u32,
    },
}

/// What to do after the node lost the session.
#[derive(Clone, Copy, Debug, PartialEq, Eq)]
pub enum LostStep {
    /// Re-connect, re-open and resume at the same offset.
    Resync,
    /// Too many reconnects without progress: the pull fails.
    GiveUp {
        /// Where the transfer stood.
        offset: u32,
        /// The size OPEN reported.
        size: u32,
    },
}

/// Send LOGFS_CLOSE on `handle` (best effort: its reply changes nothing),
/// then end the pull with `outcome`.
#[derive(Debug)]
pub struct Closing {
    /// The handle to close.
    pub handle: u16,
    /// How the pull ends once the close was sent.
    pub outcome: Result<PullResult, PullError>,
}

/// What to do once the node reported end of file.
#[derive(Debug)]
pub enum FinishStep {
    /// The transfer length contradicts the size OPEN reported: close, then
    /// fail.
    Close(Closing),
    /// Ask the node for the CRC (LOGFS_CRC on this handle), then conclude.
    FetchCrc {
        /// Handle to ask on.
        handle: u16,
    },
    /// Conclude against the CRC OPEN carried.
    CompareCrc {
        /// The node's CRC.
        want: u32,
    },
    /// No verification requested: conclude without a CRC.
    Unverified,
}

/// The stall counter after a READ reply carrying `len` bytes: any progress
/// clears it.
pub open spec fn stall_after_chunk(stalled: u32, len: nat) -> u32 {
    if len > 0 {
        0
    } else {
        stalled
    }
}

/// The stall counter after a lost session: `None` (give up) once
/// [`MAX_STALLED_RESYNCS`] reconnects without progress have been made.
pub open spec fn stall_after_loss(stalled: u32) -> Option<u32> {
    if stalled >= MAX_STALLED_RESYNCS {
        None
    } else {
        Some((stalled + 1) as u32)
    }
}

/// The transfer offset after `len` more bytes, saturating at `u32::MAX`.
pub open spec fn offset_after(offset: u32, len: nat) -> u32 {
    offset.saturating_add(len as u32)
}

/// A pull in progress.
pub struct PullState {
    /// File index being pulled.
    pub index: u16,
    /// Whether to compare the node's CRC against the received bytes.
    pub verify: bool,
    /// The current OPEN reply (replaced on every re-open).
    pub open: OpenedFile,
    /// Bytes received so far.
    pub data: Vec<u8>,
    /// Offset of the next window to read.
    pub offset: u32,
    /// Reconnects since the last byte of progress.
    pub stalled_resyncs: u32,
}

impl PullState {
    /// Whether the offset names exactly the bytes received.
    pub open spec fn in_step(&self) -> bool {
        self.offset as int == self.data@.len()
    }

    /// Start pulling after OPEN answered.
    pub fn new(index: u16, verify: bool, open: OpenedFile) -> (r: PullState)
        ensures
            r.index == index,
            r.verify == verify,
            r.open == open,
            r.data@ == Seq::<u8>::empty(),
            r.offset == 0,
            r.stalled_resyncs == 0,
            r.in_step(),
    {
        PullState { index, verify, open, data: Vec::new(), offset: 0, stalled_resyncs: 0 }
    }

    /// A READ reply: append the chunk, advance the offset, clear the stall
    /// counter on progress, and say what comes next.
    pub fn on_read_ack(&mut self, chunk: &[u8], eof: bool) -> (r: ReadStep)
        ensures
            final(self).data@ == old(self).data@ + chunk@,
            final(self).offset == offset_after(old(self).offset, chunk@.len()),
            final(self).stalled_resyncs == stall_after_chunk(
                old(self).stalled_resyncs,
                chunk@.len(),
            ),
            final(self).index == old(self).index,
            final(self).verify == old(self).verify,
            final(self).open == old(self).open,
            r == (if eof {
                ReadStep::Finished
            } else if chunk@.len() == 0 {
                ReadStep::NoDataBeforeEof { offset: final(self).offset }
            } else {
                ReadStep::Continue
            }),
    {
        if chunk.len() != 0 {
            self.stalled_resyncs = 0;
        }
        let mut extra: Vec<u8> = Vec::new();
        let mut i: usize = 0;
        while i < chunk.len()
            invariant
                i <= chunk@.len(),
                extra@ == chunk@.take(i as int),
            decreases chunk@.len() - i,
        {
            extra.push(chunk[i]);
            i = i + 1;
            assert(extra@ =~= chunk@.take(i as int));
        }
        assert(chunk@.take(chunk@.len() as int) =~= chunk@);
        self.data.append(&mut extra);
        let len = #[verifier::truncate] (chunk.len() as u32);
        self.offset = self.offset.saturating_add(len);
        if eof {
            ReadStep::Finished
        } else if chunk.len() == 0 {
            ReadStep::NoDataBeforeEof { offset: self.offset }
        } else {
            ReadStep::Continue
        }
    }

    /// The node answered `BAD_SESSION`: resync, unless the pull has already
    /// reconnected [`MAX_STALLED_RESYNCS`] times without progress.
    pub fn on_session_lost(&mut self) -> (r: LostStep)
        ensures
            r is GiveUp <==> stall_after_loss(old(self).stalled_resyncs) is None,
            r matches LostStep::GiveUp { offset, size } ==> offset == old(self).offset && size
                == old(self).open.size,
            final(self).stalled_resyncs == match stall_after_loss(old(self).stalled_resyncs) {
                Some(c) => c,
                None => old(self).stalled_resyncs,
            },
            final(self).data@ == old(self).data@,
            final(self).offset == old(self).offset,
            final(self).index == old(self).index,
            final(self).verify == old(self).verify,
            final(self).open == old(self).open,
    {
        if self.stalled_resyncs >= MAX_STALLED_RESYNCS {
            return LostStep::GiveUp { offset: self.offset, size: self.open.size };
        }
        self.stalled_resyncs = self.stalled_resyncs + 1;
        LostStep::Resync
    }

    /// The file was re-opened after a resync: read on with the new handle,
    /// at the same offset.
    pub fn on_reopened(&mut self, open: OpenedFile)
        ensures
            final(self).open == open,
            final(self).data@ == old(self).data@,
            final(self).offset == old(self).offset,
            final(self).stalled_resyncs == old(self).stalled_resyncs,
            final(self).index == old(self).index,
            final(self).verify == old(self).verify,
    {
        self.open = open;
    }

    /// The operator cancelled (polled before each READ): send no further
    /// READ; close the current handle, then end the pull as cancelled.
    pub fn on_cancel(&self) -> (r: Closing)
        ensures
            r.handle == self.open.handle,
            r.outcome matches Err(PullError::Cancelled),
    {
        Closing { handle: self.open.handle, outcome: Err(PullError::Cancelled) }
    }

    /// End of file reached: check the length against OPEN's size (when it
    /// reported one), then say how to verify. A length mismatch closes the
    /// handle and fails.
    pub fn after_transfer(&self) -> (r: FinishStep)
        ensures
            self.open.size > 0 && (self.data@.len() as u32) != self.open.size ==> (
            r matches FinishStep::Close(c) && c.handle == self.open.handle && (
            c.outcome matches Err(PullError::Failed(m)) && m@ == size_mismatch_text(
                self.open.size,
                self.data@.len(),
            ))),
            !(self.open.size > 0 && (self.data@.len() as u32) != self.open.size) ==> (if !self.verify {
                r is Unverified
            } else if self.open.crc_deferred {
                r matches FinishStep::FetchCrc { handle } && handle == self.open.handle
            } else {
                r matches FinishStep::CompareCrc { want } && want == self.open.crc32
            }),
    {
        if self.open.size > 0 && (self.data.len() as u32) != self.open.size {
            let mut m = String::from_str("size mismatch: OPEN said ");
            append_decimal(&mut m, self.open.size as u64);
            m.append(" B, transfer produced ");
            append_decimal(&mut m, self.data.len() as u64);
            m.append(" B");
            FinishStep::Close(Closing { handle: self.open.handle, outcome: Err(PullError::Failed(m)) })
        } else if !self.verify {
            FinishStep::Unverified
        } else if self.open.crc_deferred {
            FinishStep::FetchCrc { handle: self.open.handle }
        } else {
            FinishStep::CompareCrc { want: self.open.crc32 }
        }
    }

    /// Hand over the received bytes, closing the handle first. With the
    /// node's CRC (`want`) they are verified against it: a mismatch fails, a
    /// match marks the result verified. Without one the result is
    /// unverified.
    pub fn conclude(self, want: Option<u32>) -> (r: Closing)
        ensures
            r.handle == self.open.handle,
            match want {
                None => r.outcome matches Ok(res) && res.data@ == self.data@ && !res.crc_verified,
                Some(w) => if crc32_spec(self.data@) == w {
                    r.outcome matches Ok(res) && res.data@ == self.data@ && res.crc_verified
                } else {
                    r.outcome matches Err(PullError::Failed(m)) && m@ == crc_mismatch_text(
                        w,
                        crc32_spec(self.data@),
                    )
                },
            },
    {
        let handle = self.open.handle;
        match want {
            None => Closing { handle, outcome: Ok(PullResult { data: self.data, crc_verified: false }) },
            Some(w) => {
                let got = crc32(self.data.as_slice());
                if got != w {
                    let mut m = String::from_str("CRC mismatch: node says 0x");
                    append_padded_hex(&mut m, w as u64, 8);
                    m.append(", received bytes are 0x");
                    append_padded_hex(&mut m, got as u64, 8);
                    Closing { handle, outcome: Err(PullError::Failed(m)) }
                } else {
                    Closing { handle, outcome: Ok(PullResult { data: self.data, crc_verified: true }) }
                }
            },
        }
    }
}


// ---- Laws on the retry and resync budgets -------------------------

/// A timeout or transport error is retried after 60 ms on the first send
/// and 120 ms on the second; the third failed send gives up, so a command
/// is sent at most three times.
pub proof fn lemma_retry_schedule(attempt: u32)
    ensures
        1 <= attempt < 3 ==> backoff_after(attempt) == Some((60 * attempt) as u64),
        attempt >= 3 ==> backoff_after(attempt) is None,
        backoff_after(1) == Some(60u64) && backoff_after(2) == Some(120u64),
{
}

/// A dropped session is re-established at most five times in a row without
/// progress: after losses number one to five the pull resyncs (counting
/// them), the sixth gives up, and any data received clears the count.
pub proof fn lemma_resync_budget(stalled: u32, len: nat)
    ensures
        stalled < 5 ==> stall_after_loss(stalled) == Some((stalled + 1) as u32),
        stalled >= 5 ==> stall_after_loss(stalled) is None,
        len > 0 ==> stall_after_chunk(stalled, len) == 0,
        len == 0 ==> stall_after_chunk(stalled, len) == stalled,
{
}
} // verus!
