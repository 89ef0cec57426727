//! The buffer descriptor ring that programs the output DMA, and the windows
//! of audio that one pass over the ring plays.
use vstd::prelude::*;
use crate::regs::BufferDescCtl;

verus! {

/// Entries in the ring.
pub const RING_LEN: usize = 0x1F;

/// Index of the final entry, the value of the last-valid-entry register.
pub const LAST_ENTRY: u8 = 0x1E;

/// Samples that one entry covers.
pub const ENTRY_SAMPLES: u16 = 0xFFFE;

/// Bytes that one entry covers: sixteen-bit samples.
pub const ENTRY_BYTES: u32 = 0xFFFE * 2;

/// Bytes that one pass over the whole ring plays; also the audio buffer's size.
pub const WINDOW: usize = 0x1F * 0xFFFE * 2;

/// Bytes that one entry takes in memory.
pub const DESCRIPTOR_BYTES: usize = 8;

/// One entry of the ring: where a segment lies, how many samples it holds,
/// and its control word.
#[derive(Clone, Copy, Debug, PartialEq, Eq, Structural)]
pub struct BufferDescriptor {
    pub addr: u32,
    pub samples: u16,
    pub ctl: BufferDescCtl,
}

/// Entry `i` of the ring over an audio buffer at physical address `base`.
pub open spec fn entry_ok(d: BufferDescriptor, base: u32, i: int) -> bool {
    &&& d.addr == base + i * ENTRY_BYTES
    &&& d.samples == ENTRY_SAMPLES
    &&& d.ctl.spec_last() == (i == RING_LEN - 1)
    &&& !d.ctl.spec_fire_interrupt()
    &&& d.ctl.spec_reserved() == 0
}

/// The ring over an audio buffer at physical address `base`: exactly
/// `RING_LEN` entries over consecutive, non-overlapping segments, only the
/// final one marked last.
pub open spec fn ring_ok(ring: Seq<BufferDescriptor>, base: u32) -> bool {
    &&& ring.len() == RING_LEN
    &&& forall|i: int| 0 <= i < RING_LEN ==> entry_ok(#[trigger] ring[i], base, i)
}

/// An audio buffer at `base` fits in the 32-bit physical space that the
/// descriptors can name.
pub open spec fn buffer_base_ok(base: u32) -> bool {
    base + WINDOW <= 0x1_0000_0000
}

/// Whether an audio buffer at `base` fits in 32-bit physical space.
pub fn buffer_fits(base: u32) -> (r: bool)
    ensures
        r == buffer_base_ok(base),
{
    base as u64 + WINDOW as u64 <= 0x1_0000_0000
}

/// Builds the ring over an audio buffer at physical address `base`.
pub fn build(base: u32) -> (r: Vec<BufferDescriptor>)
    requires
        buffer_base_ok(base),
    ensures
        ring_ok(r@, base),
{
    let plain = BufferDescCtl::new();
    let mut ring: Vec<BufferDescriptor> = Vec::new();
    let mut i: usize = 0;
    while i < RING_LEN
        invariant
            i <= RING_LEN,
            buffer_base_ok(base),
            !plain.spec_last(),
            !plain.spec_fire_interrupt(),
            plain.spec_reserved() == 0,
            ring@.len() == i,
            forall|j: int| 0 <= j < i ==> #[trigger] entry_ok(ring@[j], base, j),
        decreases RING_LEN - i,
    {
        assert(i * ENTRY_BYTES <= 30 * ENTRY_BYTES) by (nonlinear_arith)
            requires
                i < RING_LEN,
        ;
        let addr = base + (i as u32) * ENTRY_BYTES;
        let ctl = if i == RING_LEN - 1 {
            plain.with_last(true)
        } else {
            plain
        };
        ring.push(BufferDescriptor { addr, samples: ENTRY_SAMPLES, ctl });
        assert(entry_ok(ring@[i as int], base, i as int));
        i = i + 1;
    }
    ring
}

/// Byte `k` (least significant first) of a value.
pub open spec fn byte_of(x: int, k: nat) -> u8 {
    ((x / pow256(k)) % 256) as u8
}

pub open spec fn pow256(k: nat) -> int
    decreases k,
{
    if k == 0 {
        1
    } else {
        256 * pow256((k - 1) as nat)
    }
}

/// The eight bytes that the hardware reads for one entry: the address, the
/// sample count and the control word, each little-endian.
pub open spec fn descriptor_bytes(d: BufferDescriptor) -> Seq<u8> {
    seq![
        byte_of(d.addr as int, 0),
        byte_of(d.addr as int, 1),
        byte_of(d.addr as int, 2),
        byte_of(d.addr as int, 3),
        byte_of(d.samples as int, 0),
        byte_of(d.samples as int, 1),
        byte_of(d.ctl.bits as int, 0),
        byte_of(d.ctl.bits as int, 1),
    ]
}

/// The memory image of a ring: its entries' bytes one after another.
pub open spec fn ring_bytes(ring: Seq<BufferDescriptor>) -> Seq<u8>
    decreases ring.len(),
{
    if ring.len() == 0 {
        seq![]
    } else {
        ring_bytes(ring.drop_last()) + descriptor_bytes(ring.last())
    }
}

/// Lays the ring out in memory as the hardware reads it.
pub fn encode(ring: &Vec<BufferDescriptor>) -> (r: Vec<u8>)
    requires
        ring@.len() <= RING_LEN,
    ensures
        r@ == ring_bytes(ring@),
        r@.len() == ring@.len() * DESCRIPTOR_BYTES,
{
    let mut out: Vec<u8> = Vec::new();
    let mut i: usize = 0;
    while i < ring.len()
        invariant
            i <= ring@.len() <= RING_LEN,
            out@ == ring_bytes(ring@.subrange(0, i as int)),
            out@.len() == i * DESCRIPTOR_BYTES,
        decreases ring@.len() - i,
    {
        let d = ring[i];
        let a = d.addr;
        let s = d.samples;
        let c = d.ctl.bits;
        proof {
            reveal_with_fuel(pow256, 4);
        }
        out.push((a % 256) as u8);
        out.push(((a / 256) % 256) as u8);
        out.push(((a / 65536) % 256) as u8);
        out.push(((a / 16777216) % 256) as u8);
        out.push((s % 256) as u8);
        out.push(((s / 256) % 256) as u8);
        out.push((c % 256) as u8);
        out.push(((c / 256) % 256) as u8);
        proof {
            let next = ring@.subrange(0, i + 1);
            assert(next.drop_last() =~= ring@.subrange(0, i as int));
            assert(next.last() == d);
        }
        i = i + 1;
    }
    proof {
        assert(ring@.subrange(0, ring@.len() as int) =~= ring@);
    }
    out
}

/// What the audio buffer holds for the window of `data` that starts at
/// byte `off`: the data there, then zeros up to the window's end.
pub open spec fn window_content(data: Seq<u8>, off: int) -> Seq<u8> {
    Seq::new(WINDOW as nat, |i: int| if off + i < data.len() { data[off + i] } else { 0u8 })
}

/// How many windows playing `len` bytes takes: `len / WINDOW`, rounded up.
pub open spec fn window_count(len: nat) -> nat {
    ((len + WINDOW - 1) / (WINDOW as int)) as nat
}

/// A fresh audio buffer: one window of silence.
pub fn new_audio_buffer() -> (r: Vec<u8>)
    ensures
        r@ == Seq::new(WINDOW as nat, |i: int| 0u8),
{
    let mut buf: Vec<u8> = Vec::new();
    let mut i: usize = 0;
    while i < WINDOW
        invariant
            i <= WINDOW,
            buf@ == Seq::new(i as nat, |j: int| 0u8),
        decreases WINDOW - i,
    {
        buf.push(0);
        i = i + 1;
        proof {
            assert(buf@ =~= Seq::new(i as nat, |j: int| 0u8));
        }
    }
    buf
}

/// Copies the window of `data` that starts at `off` into the audio buffer,
/// padding with zeros past the end of `data`.
pub fn fill_window(buf: &mut Vec<u8>, data: &[u8], off: usize)
    requires
        old(buf)@.len() == WINDOW,
    ensures
        final(buf)@ == window_content(data@, off as int),
{
    let mut i: usize = 0;
    while i < WINDOW
        invariant
            i <= WINDOW,
            buf@.len() == WINDOW,
            forall|j: int|
                0 <= j < i ==> buf@[j] == #[trigger] window_content(data@, off as int)[j],
        decreases WINDOW - i,
    {
        let b: u8 = if off < data.len() && i < data.len() - off {
            data[off + i]
        } else {
            0
        };
        buf.set(i, b);
        i = i + 1;
    }
    proof {
        assert(buf@ =~= window_content(data@, off as int));
    }
}

} // verus!
