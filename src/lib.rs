//! Driver logic for an AC'97 audio codec on PCI, for a freestanding kernel
//! that plays audio by polling.
//!
//! `regs` gives typed views of the codec's registers, `ring` the buffer
//! descriptor ring and the windows of audio it plays, `device` the codec's
//! ports and its bring-up sequence, and `playback` the device handle and its
//! playback engine. Hardware access is left to the caller: bring-up and
//! playback are state machines that name each operation to perform.
pub mod regs;
pub mod ring;
pub mod device;
pub mod playback;
