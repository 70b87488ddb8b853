//! The internal message protocol: a write into the bus returns a small
//! tagged value describing any deferred effect, and the device loop applies
//! it. Renderer messages are queued for the host to drain.

use vstd::prelude::*;

use crate::interrupt::Interrupt;

verus! {

#[derive(Debug, PartialEq, Eq, Structural, Clone, Copy)]
pub enum RendererMessage {
    RenderScanline(u8),
    PrepareNextFrame,
    PresentFrame,
}

#[derive(Debug, PartialEq, Eq, Structural, Clone, Copy)]
pub enum InternalMessage {
    NoEffect,
    TriggerInterrupt(Interrupt),
    DMATransfer { from: u16 },
    RendererMessage(RendererMessage),
}

} // verus!
