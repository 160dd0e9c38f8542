//! A classic CAN frame: an 11-bit standard identifier and up to eight data
//! bytes.

use vstd::prelude::*;

verus! {

/// Most data bytes a classic CAN frame carries.
pub const CAN_MAX_DLC: usize = 8;

/// A classic CAN frame.
#[derive(Debug, PartialEq, Eq)]
pub struct CanFrame {
    /// Standard identifier.
    pub id: u16,
    /// Data bytes; a frame built by [`CanFrame::new`] holds at most
    /// [`CAN_MAX_DLC`] of them.
    pub data: Vec<u8>,
}

impl CanFrame {
    /// The data bytes, as the model the contracts speak of.
    pub open spec fn payload_bytes(&self) -> Seq<u8> {
        self.data@
    }

    /// Build a frame. `None` when the payload does not fit a classic CAN
    /// frame (more than [`CAN_MAX_DLC`] bytes).
    pub fn new(id: u16, payload: &[u8]) -> (r: Option<CanFrame>)
        ensures
            r is Some <==> payload@.len() <= CAN_MAX_DLC,
            r matches Some(f) ==> f.id == id && f.payload_bytes() == payload@,
    {
        if payload.len() > CAN_MAX_DLC {
            return None;
        }
        let mut data: Vec<u8> = Vec::new();
        let mut i: usize = 0;
        while i < payload.len()
            invariant
                i <= payload@.len(),
                data@ == payload@.take(i as int),
            decreases payload@.len() - i,
        {
            data.push(payload[i]);
            i = i + 1;
            assert(data@ =~= payload@.take(i as int));
        }
        assert(data@ =~= payload@);
        Some(CanFrame { id, data })
    }

    /// The data bytes.
    pub fn payload(&self) -> (r: &[u8])
        ensures
            r@ == self.payload_bytes(),
    {
        self.data.as_slice()
    }
}

} // verus!
