//! The device handle and its playback engine.
//!
//! Playing a buffer is a state machine, like bring-up: each step takes the
//! value that the previous operation read and names the next operation.
//! The audio is played one window at a time: reset the output engine and
//! wait for the reset to clear, point it at the ring again, copy the window
//! into the audio buffer (zero-padded at the end of the input), start the
//! transfer and wait for its end.
use vstd::prelude::*;
use vstd::arithmetic::div_mod::{lemma_fundamental_div_mod, lemma_fundamental_div_mod_converse};
use crate::device::{
    Ac97Regs, Op, Width, byte_of_input, is_port_write, low_byte, low_word, spend_spin,
    spins_after_miss, transfer_reset_of, transfer_start_of, word_of_input, written,
};
use crate::regs::{RegBoxStatus, RegBoxTransfer};
use crate::ring::{
    BufferDescriptor, LAST_ENTRY, WINDOW, buffer_base_ok, fill_window, ring_bytes, ring_ok,
    window_content, window_count,
};

verus! {

/// Where a play stands: the operation named last, whose result the next
/// step takes.
#[derive(Clone, Copy, Debug, PartialEq, Eq, Structural)]
pub enum PlayPhase {
    Idle,
    CtlReadForReset,
    ResetWritten,
    ResetPolled,
    PausedForReset,
    BdlAddrWritten,
    LastEntWritten,
    CtlReadForStart,
    StartWritten,
    StatusPolled,
    PausedForStatus,
    GaveUp,
}

/// The progress of a play: the input's length, the start of the current
/// window, and how many transfers were started.
#[derive(Clone, Copy, Debug, PartialEq, Eq, Structural)]
pub struct PlayState {
    pub phase: PlayPhase,
    pub len: usize,
    pub cursor: usize,
    pub started: usize,
    pub spins_left: Option<u64>,
}

/// Fixed parts of the device that a play uses.
#[derive(Clone, Copy, Debug, PartialEq, Eq, Structural)]
pub struct PlayConfig {
    pub regs: Ac97Regs,
    pub bdl_phys: u32,
    pub spin_limit: Option<u64>,
}

/// Phases between the start of a window and its start pulse.
pub open spec fn before_start(p: PlayPhase) -> bool {
    p == PlayPhase::CtlReadForReset || p == PlayPhase::ResetWritten || p == PlayPhase::ResetPolled
        || p == PlayPhase::PausedForReset || p == PlayPhase::BdlAddrWritten || p
        == PlayPhase::LastEntWritten || p == PlayPhase::CtlReadForStart
}

/// Phases between a window's start pulse and its end.
pub open spec fn after_start(p: PlayPhase) -> bool {
    p == PlayPhase::StartWritten || p == PlayPhase::StatusPolled || p == PlayPhase::PausedForStatus
}

/// What holds at every point of a play: windows start at multiples of
/// `WINDOW` inside the input, one start pulse per window begun, and a
/// finished play has started one transfer per window.
pub open spec fn play_ok(s: PlayState) -> bool {
    &&& s.started <= window_count(s.len as nat)
    &&& (s.phase == PlayPhase::Idle ==> s.started == window_count(s.len as nat))
    &&& (before_start(s.phase) ==> s.cursor < s.len && s.cursor == s.started * WINDOW)
    &&& (after_start(s.phase) ==> s.cursor < s.len && s.started >= 1 && s.cursor == (s.started - 1)
        * WINDOW)
}

/// One step of a play: from `s`, given the value `input` that the last
/// operation read, the play goes to `t` and names `op`.
pub open spec fn play_step_ok(c: PlayConfig, s: PlayState, input: u32, t: PlayState, op: Op) -> bool {
    let ctl = c.regs.pcm_out_transf_ctl;
    &&& t.len == s.len
    &&& (t.cursor == s.cursor || s.phase == PlayPhase::StatusPolled)
    &&& (t.started == s.started || s.phase == PlayPhase::CtlReadForStart)
    &&& (t.spins_left == s.spins_left || s.phase == PlayPhase::ResetWritten || s.phase
        == PlayPhase::ResetPolled || s.phase == PlayPhase::StartWritten || s.phase
        == PlayPhase::StatusPolled)
    &&& match s.phase {
        PlayPhase::Idle => t.phase == PlayPhase::Idle && op == Op::Done,
        PlayPhase::GaveUp => t.phase == PlayPhase::GaveUp && op == Op::GaveUp,
        PlayPhase::CtlReadForReset => t.phase == PlayPhase::ResetWritten && is_port_write(
            op,
            ctl,
            Width::Byte,
        ) && written(op) < 0x100 && transfer_reset_of(
            RegBoxTransfer { bits: low_byte(input) },
            RegBoxTransfer { bits: written(op) as u8 },
        ),
        PlayPhase::ResetWritten => t.phase == PlayPhase::ResetPolled && t.spins_left == c.spin_limit
            && op == Op::PortRead { port: ctl, width: Width::Byte },
        PlayPhase::ResetPolled => if (RegBoxTransfer { bits: low_byte(input) }).spec_reset() {
            match spins_after_miss(s.spins_left) {
                None => t.phase == PlayPhase::GaveUp && op == Op::GaveUp,
                Some(left) => t.phase == PlayPhase::PausedForReset && t.spins_left == left && op
                    == Op::Pause,
            }
        } else {
            t.phase == PlayPhase::BdlAddrWritten && t.spins_left == s.spins_left && op
                == Op::PortWrite {
                port: c.regs.pcm_out_bdl_addr,
                value: c.bdl_phys,
                width: Width::DWord,
            }
        },
        PlayPhase::PausedForReset => t.phase == PlayPhase::ResetPolled && op == Op::PortRead {
            port: ctl,
            width: Width::Byte,
        },
        PlayPhase::BdlAddrWritten => t.phase == PlayPhase::LastEntWritten && op == Op::PortWrite {
            port: c.regs.pcm_out_bdl_last_ent,
            value: LAST_ENTRY as u32,
            width: Width::Byte,
        },
        PlayPhase::LastEntWritten => t.phase == PlayPhase::CtlReadForStart && op == Op::PortRead {
            port: ctl,
            width: Width::Byte,
        },
        PlayPhase::CtlReadForStart => t.phase == PlayPhase::StartWritten && t.started == s.started
            + 1 && is_port_write(op, ctl, Width::Byte) && written(op) < 0x100 && transfer_start_of(
            RegBoxTransfer { bits: low_byte(input) },
            RegBoxTransfer { bits: written(op) as u8 },
        ),
        PlayPhase::StartWritten => t.phase == PlayPhase::StatusPolled && t.spins_left
            == c.spin_limit && op == Op::PortRead {
            port: c.regs.pcm_out_transf_sts,
            width: Width::Word,
        },
        PlayPhase::StatusPolled => if !(RegBoxStatus { bits: low_word(input) }).spec_end_of_transfer() {
            t.cursor == s.cursor && match spins_after_miss(s.spins_left) {
                None => t.phase == PlayPhase::GaveUp && op == Op::GaveUp,
                Some(left) => t.phase == PlayPhase::PausedForStatus && t.spins_left == left && op
                    == Op::Pause,
            }
        } else if s.len - s.cursor > WINDOW {
            t.phase == PlayPhase::CtlReadForReset && t.cursor == s.cursor + WINDOW && t.spins_left
                == s.spins_left && op == Op::PortRead { port: ctl, width: Width::Byte }
        } else {
            t.phase == PlayPhase::Idle && t.cursor == s.cursor && t.spins_left == s.spins_left && op
                == Op::Done
        },
        PlayPhase::PausedForStatus => t.phase == PlayPhase::StatusPolled && op == Op::PortRead {
            port: c.regs.pcm_out_transf_sts,
            width: Width::Word,
        },
    }
}

/// `len` bytes take `k` windows when they reach past `k - 1` windows but
/// not past `k`.
pub proof fn lemma_window_count(len: nat, k: nat)
    requires
        k >= 1,
        (k - 1) * WINDOW < len <= k * WINDOW,
    ensures
        window_count(len) == k,
{
    let w = WINDOW as int;
    let n = len + w - 1;
    assert(0 <= n - k * w < w) by (nonlinear_arith)
        requires
            (k - 1) * w < len <= k * w,
            n == len + w - 1,
            w > 0,
    ;
    lemma_fundamental_div_mod_converse(n, w, k as int, n - k * w);
}

/// Input that reaches past `k` windows takes more than `k`.
pub proof fn lemma_window_count_past(len: nat, k: nat)
    requires
        k * WINDOW < len,
    ensures
        window_count(len) >= k + 1,
{
    let w = WINDOW as int;
    let n = len + w - 1;
    lemma_fundamental_div_mod(n, w);
    let q = n / w;
    let r = n % w;
    assert(q >= k + 1) by (nonlinear_arith)
        requires
            n == w * q + r,
            0 <= r < w,
            k * w < len,
            n == len + w - 1,
            w > 0,
    ;
}

/// Fewer windows than bytes start inside the input.
proof fn lemma_started_fits(k: nat, len: nat)
    requires
        k * WINDOW < len,
    ensures
        k < len,
{
    let w = WINDOW as int;
    assert(k < len) by (nonlinear_arith)
        requires
            k * w < len,
            w >= 1,
    ;
}

/// The window after window `k - 1` is window `k`.
proof fn lemma_next_window(k: nat)
    requires
        k >= 1,
    ensures
        (k - 1) * WINDOW + WINDOW == k * WINDOW,
{
    let w = WINDOW as int;
    assert((k - 1) * w + w == k * w) by (nonlinear_arith);
}

/// Empty input takes no window, so a play of it starts no transfer.
pub proof fn lemma_empty_input()
    ensures
        window_count(0) == 0,
{
    lemma_fundamental_div_mod_converse(WINDOW - 1, WINDOW as int, 0, WINDOW - 1);
}

/// Input of exactly one window takes one transfer, and that window is the
/// input itself with no padding.
pub proof fn lemma_one_window(data: Seq<u8>)
    requires
        data.len() == WINDOW,
    ensures
        window_count(data.len()) == 1,
        window_content(data, 0) == data,
{
    lemma_window_count(data.len(), 1);
    assert(window_content(data, 0) =~= data);
}

/// Input one byte longer than a window takes two transfers, and the second
/// window holds that byte followed by silence.
pub proof fn lemma_window_and_one(data: Seq<u8>)
    requires
        data.len() == WINDOW + 1,
    ensures
        window_count(data.len()) == 2,
        window_content(data, 0) == data.subrange(0, WINDOW as int),
        window_content(data, WINDOW as int) == seq![data[WINDOW as int]] + Seq::new(
            (WINDOW - 1) as nat,
            |i: int| 0u8,
        ),
{
    lemma_window_count(data.len(), 2);
    assert(window_content(data, 0) =~= data.subrange(0, WINDOW as int));
    assert(window_content(data, WINDOW as int) =~= seq![data[WINDOW as int]] + Seq::new(
        (WINDOW - 1) as nat,
        |i: int| 0u8,
    ));
}

/// The device handle: the codec's ports, the audio buffer and the
/// descriptor ring over it, and the state of the current play. It is the
/// only owner of all of them; it cannot be cloned, and playing takes it
/// mutably, so two plays on one device cannot overlap.
pub struct Ac97 {
    regs: Ac97Regs,
    buf: Vec<u8>,
    bdl: Vec<BufferDescriptor>,
    bdl_image: Vec<u8>,
    buf_phys: u32,
    bdl_phys: u32,
    spin_limit: Option<u64>,
    play: PlayState,
}

impl Ac97 {
    pub closed spec fn spec_config(&self) -> PlayConfig {
        PlayConfig { regs: self.regs, bdl_phys: self.bdl_phys, spin_limit: self.spin_limit }
    }

    pub closed spec fn spec_state(&self) -> PlayState {
        self.play
    }

    pub closed spec fn spec_buffer(&self) -> Seq<u8> {
        self.buf@
    }

    pub closed spec fn spec_ring(&self) -> Seq<BufferDescriptor> {
        self.bdl@
    }

    pub closed spec fn spec_ring_image(&self) -> Seq<u8> {
        self.bdl_image@
    }

    pub closed spec fn spec_buf_phys(&self) -> u32 {
        self.buf_phys
    }

    /// The handle's invariant: a buffer of one window, the ring over it at
    /// its physical address, the ring's memory image, and a consistent play.
    pub closed spec fn wf(&self) -> bool {
        &&& self.buf@.len() == WINDOW
        &&& buffer_base_ok(self.buf_phys)
        &&& ring_ok(self.bdl@, self.buf_phys)
        &&& self.bdl_image@ == ring_bytes(self.bdl@)
        &&& play_ok(self.play)
    }

    /// A handle over a silent audio buffer at physical address `buf_phys`,
    /// the ring `bdl` over it, and that ring's memory image at `bdl_phys`.
    pub fn new(
        regs: Ac97Regs,
        buf: Vec<u8>,
        bdl: Vec<BufferDescriptor>,
        bdl_image: Vec<u8>,
        buf_phys: u32,
        bdl_phys: u32,
        spin_limit: Option<u64>,
    ) -> (r: Self)
        requires
            buf@ == Seq::new(WINDOW as nat, |i: int| 0u8),
            buffer_base_ok(buf_phys),
            ring_ok(bdl@, buf_phys),
            bdl_image@ == ring_bytes(bdl@),
        ensures
            r.wf(),
            r.spec_config() == (PlayConfig { regs, bdl_phys, spin_limit }),
            r.spec_buffer() == buf@,
            r.spec_ring() == bdl@,
            r.spec_ring_image() == bdl_image@,
            r.spec_buf_phys() == buf_phys,
            r.spec_state().phase == PlayPhase::Idle,
            r.spec_state().len == 0,
            r.spec_state().started == 0,
    {
        proof {
            lemma_empty_input();
        }
        Ac97 {
            regs,
            buf,
            bdl,
            bdl_image,
            buf_phys,
            bdl_phys,
            spin_limit,
            play: PlayState { phase: PlayPhase::Idle, len: 0, cursor: 0, started: 0, spins_left: spin_limit },
        }
    }

    pub fn regs(&self) -> (r: Ac97Regs)
        ensures
            r == self.spec_config().regs,
    {
        self.regs
    }

    pub fn buffer(&self) -> (r: &Vec<u8>)
        ensures
            r@ == self.spec_buffer(),
    {
        &self.buf
    }

    pub fn ring(&self) -> (r: &Vec<BufferDescriptor>)
        ensures
            r@ == self.spec_ring(),
    {
        &self.bdl
    }

    pub fn ring_image(&self) -> (r: &Vec<u8>)
        ensures
            r@ == self.spec_ring_image(),
    {
        &self.bdl_image
    }

    pub fn state(&self) -> (r: PlayState)
        ensures
            r == self.spec_state(),
    {
        self.play
    }

    /// Begins playing `data`. Empty input needs no hardware at all: the play
    /// is over at once. Otherwise the first window begins by reading the
    /// transfer control so as to reset the output engine.
    pub fn play_start(&mut self, data: &[u8]) -> (op: Op)
        requires
            old(self).wf(),
        ensures
            final(self).wf(),
            final(self).spec_config() == old(self).spec_config(),
            final(self).spec_buffer() == old(self).spec_buffer(),
            final(self).spec_ring() == old(self).spec_ring(),
            final(self).spec_ring_image() == old(self).spec_ring_image(),
            final(self).spec_state().len == data@.len(),
            final(self).spec_state().cursor == 0,
            final(self).spec_state().started == 0,
            data@.len() == 0 ==> op == Op::Done && final(self).spec_state().phase == PlayPhase::Idle,
            data@.len() > 0 ==> op == (Op::PortRead {
                port: old(self).spec_config().regs.pcm_out_transf_ctl,
                width: Width::Byte,
            }) && final(self).spec_state().phase == PlayPhase::CtlReadForReset,
    {
        let len = data.len();
        if len == 0 {
            proof {
                lemma_empty_input();
            }
            self.play = PlayState { phase: PlayPhase::Idle, len, cursor: 0, started: 0, spins_left: self.spin_limit };
            Op::Done
        } else {
            proof {
                lemma_window_count_past(len as nat, 0);
            }
            self.play = PlayState {
                phase: PlayPhase::CtlReadForReset,
                len,
                cursor: 0,
                started: 0,
                spins_left: self.spin_limit,
            };
            Op::PortRead { port: self.regs.pcm_out_transf_ctl, width: Width::Byte }
        }
    }

    /// Takes the value that the last operation read and names the next one;
    /// on the step after the ring is armed, copies the current window of
    /// `data` into the audio buffer. A play that ends in `Done` has started
    /// one transfer per window of its input.
    pub fn play_step(&mut self, data: &[u8], input: u32) -> (op: Op)
        requires
            old(self).wf(),
            data@.len() == old(self).spec_state().len,
        ensures
            final(self).wf(),
            final(self).spec_config() == old(self).spec_config(),
            final(self).spec_ring() == old(self).spec_ring(),
            final(self).spec_ring_image() == old(self).spec_ring_image(),
            play_step_ok(
                old(self).spec_config(),
                old(self).spec_state(),
                input,
                final(self).spec_state(),
                op,
            ),
            final(self).spec_buffer() == if old(self).spec_state().phase == PlayPhase::LastEntWritten {
                window_content(data@, old(self).spec_state().cursor as int)
            } else {
                old(self).spec_buffer()
            },
            op == Op::Done ==> final(self).spec_state().phase == PlayPhase::Idle
                && final(self).spec_state().started == window_count(data@.len()),
    {
        let ctl = self.regs.pcm_out_transf_ctl;
        match self.play.phase {
            PlayPhase::Idle => Op::Done,
            PlayPhase::GaveUp => Op::GaveUp,
            PlayPhase::CtlReadForReset => {
                self.play.phase = PlayPhase::ResetWritten;
                let v = RegBoxTransfer::from_bits(byte_of_input(input)).with_reset(true);
                Op::PortWrite { port: ctl, value: v.into_bits() as u32, width: Width::Byte }
            },
            PlayPhase::ResetWritten => {
                self.play.phase = PlayPhase::ResetPolled;
                self.play.spins_left = self.spin_limit;
                Op::PortRead { port: ctl, width: Width::Byte }
            },
            PlayPhase::ResetPolled => {
                if RegBoxTransfer::from_bits(byte_of_input(input)).reset() {
                    match spend_spin(self.play.spins_left) {
                        None => {
                            self.play.phase = PlayPhase::GaveUp;
                            Op::GaveUp
                        },
                        Some(left) => {
                            self.play.phase = PlayPhase::PausedForReset;
                            self.play.spins_left = left;
                            Op::Pause
                        },
                    }
                } else {
                    self.play.phase = PlayPhase::BdlAddrWritten;
                    Op::PortWrite { port: self.regs.pcm_out_bdl_addr, value: self.bdl_phys, width: Width::DWord }
                }
            },
            PlayPhase::PausedForReset => {
                self.play.phase = PlayPhase::ResetPolled;
                Op::PortRead { port: ctl, width: Width::Byte }
            },
            PlayPhase::BdlAddrWritten => {
                self.play.phase = PlayPhase::LastEntWritten;
                Op::PortWrite {
                    port: self.regs.pcm_out_bdl_last_ent,
                    value: LAST_ENTRY as u32,
                    width: Width::Byte,
                }
            },
            PlayPhase::LastEntWritten => {
                fill_window(&mut self.buf, data, self.play.cursor);
                self.play.phase = PlayPhase::CtlReadForStart;
                Op::PortRead { port: ctl, width: Width::Byte }
            },
            PlayPhase::CtlReadForStart => {
                proof {
                    lemma_window_count_past(self.play.len as nat, self.play.started as nat);
                    lemma_started_fits(self.play.started as nat, self.play.len as nat);
                }
                self.play.phase = PlayPhase::StartWritten;
                self.play.started = self.play.started + 1;
                let v = RegBoxTransfer::from_bits(byte_of_input(input)).with_transfer_data(true);
                Op::PortWrite { port: ctl, value: v.into_bits() as u32, width: Width::Byte }
            },
            PlayPhase::StartWritten => {
                self.play.phase = PlayPhase::StatusPolled;
                self.play.spins_left = self.spin_limit;
                Op::PortRead { port: self.regs.pcm_out_transf_sts, width: Width::Word }
            },
            PlayPhase::StatusPolled => {
                if !RegBoxStatus::from_bits(word_of_input(input)).end_of_transfer() {
                    match spend_spin(self.play.spins_left) {
                        None => {
                            self.play.phase = PlayPhase::GaveUp;
                            Op::GaveUp
                        },
                        Some(left) => {
                            self.play.phase = PlayPhase::PausedForStatus;
                            self.play.spins_left = left;
                            Op::Pause
                        },
                    }
                } else if self.play.len - self.play.cursor > WINDOW {
                    proof {
                        lemma_next_window(self.play.started as nat);
                    }
                    self.play.phase = PlayPhase::CtlReadForReset;
                    self.play.cursor = self.play.cursor + WINDOW;
                    Op::PortRead { port: ctl, width: Width::Byte }
                } else {
                    proof {
                        lemma_next_window(self.play.started as nat);
                        lemma_window_count(self.play.len as nat, self.play.started as nat);
                    }
                    self.play.phase = PlayPhase::Idle;
                    Op::Done
                }
            },
            PlayPhase::PausedForStatus => {
                self.play.phase = PlayPhase::StatusPolled;
                Op::PortRead { port: self.regs.pcm_out_transf_sts, width: Width::Word }
            },
        }
    }
}

} // verus!
