//! The audio controller: a flat file of 48 byte registers at 0xFF10-0xFF3F.
//! No synthesis happens here; games read back what they wrote.

use vstd::prelude::*;
use vstd::pervasive::VecAdditionalExecFns;

use crate::internal_message::InternalMessage;

verus! {

/// Offset into the audio register file, or the out-of-range address.
pub type AudioRamLocation = Result<u8, u16>;

pub struct AudioController {
    pub ram: Vec<u8>,
}

impl AudioController {
    pub open spec fn wf(self) -> bool {
        self.ram@.len() == 0x30
    }

    pub fn new() -> (r: AudioController)
        ensures
            r.wf(),
            forall|i: int| 0 <= i < 0x30 ==> r.ram@[i] == 0,
    {
        let mut ram: Vec<u8> = Vec::new();
        let mut i: usize = 0;
        while i < 0x30
            invariant
                i <= 0x30,
                ram@.len() == i,
                forall|j: int| 0 <= j < i ==> ram@[j] == 0,
            decreases 0x30 - i,
        {
            ram.push(0);
            i = i + 1;
        }
        AudioController { ram }
    }

    pub fn resolve_address(&self, address: u16) -> (r: AudioRamLocation)
        ensures
            r == spec_audio_location(address),
    {
        if address < 0xFF10 || address > 0xFF3F {
            Err(address)
        } else {
            Ok((address - 0xFF10) as u8)
        }
    }

    pub fn read_8(&self, location: AudioRamLocation) -> (r: u8)
        requires
            self.wf(),
            location matches Ok(offset) && offset < 0x30,
        ensures
            r == self.ram@[location->Ok_0 as int],
    {
        match location {
            Ok(offset) => self.ram[offset as usize],
            Err(_) => 0,
        }
    }

    pub fn write_8(&mut self, location: AudioRamLocation, value: u8) -> (msg: InternalMessage)
        requires
            old(self).wf(),
            location matches Ok(offset) && offset < 0x30,
        ensures
            final (self).ram@ == old(self).ram@.update(location->Ok_0 as int, value),
            final (self).wf(),
            msg == InternalMessage::NoEffect,
    {
        match location {
            Ok(offset) => {
                self.ram.set(offset as usize, value);
            },
            Err(_) => {},
        }
        InternalMessage::NoEffect
    }
}

/// The register-file offset an address resolves to: addresses outside
/// 0xFF10-0xFF3F are out of range.
pub open spec fn spec_audio_location(address: u16) -> AudioRamLocation {
    if address < 0xFF10 || address > 0xFF3F {
        Err(address)
    } else {
        Ok((address - 0xFF10) as u8)
    }
}

} // verus!
