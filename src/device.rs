//! Register addresses of the codec and the bring-up sequence that readies
//! it for playback.
//!
//! The sequence is a state machine: each step takes the value that the
//! previous hardware operation read (ignored after a write) and names the
//! next operation. The caller performs the operations on the hardware.
use vstd::prelude::*;
use crate::regs::{GlobalControl, MasterOutputVolume, PcmOutputVolume, RegBoxTransfer};
use crate::ring::LAST_ENTRY;

verus! {

/// Access width of a configuration-space or port operation.
#[derive(Clone, Copy, Debug, PartialEq, Eq, Structural)]
pub enum Width {
    Byte,
    Word,
    DWord,
}

/// One hardware operation for the caller to perform.
#[derive(Clone, Copy, Debug, PartialEq, Eq, Structural)]
pub enum Op {
    /// Read the PCI configuration space; hand the value to the next step.
    ConfigRead { offset: u8, width: Width },
    /// Write the PCI configuration space.
    ConfigWrite { offset: u8, value: u32, width: Width },
    /// Read a port; hand the value to the next step.
    PortRead { port: u16, width: Width },
    /// Write a port.
    PortWrite { port: u16, value: u32, width: Width },
    /// Halt until the next interrupt, then go on.
    Halt,
    /// Spin briefly, then go on.
    Pause,
    /// The sequence is over.
    Done,
    /// A wait ran out of polls; the sequence is over.
    GaveUp,
}

/// Offset of the command register in PCI configuration space.
pub const PCI_COMMAND: u8 = 0x04;
/// Offset of the base address register of the mixer ports.
pub const PCI_BAR0: u8 = 0x10;
/// Offset of the base address register of the bus-master ports.
pub const PCI_BAR1: u8 = 0x14;
/// Command bit: respond to port accesses.
pub const PCI_CMD_PIO: u16 = 0x1;
/// Command bit: act as a bus master.
pub const PCI_CMD_BUS_MASTER: u16 = 0x4;
/// Command bit: raise no legacy interrupts.
pub const PCI_CMD_DISABLE_INTRS: u16 = 0x400;
/// Value written to the mixer's reset register.
pub const MIXER_RESET: u16 = 0xFFFF;
/// Output sample rate in Hz.
pub const SAMPLE_RATE: u16 = 44100;

/// Registers of the native audio mixer, by offset from its base port.
#[derive(Clone, Copy, Debug, PartialEq, Eq, Structural)]
pub enum NamRegs {
    Reset,
    MasterVolume,
    PcmOutVolume,
    SampleRate,
}

impl NamRegs {
    pub open spec fn spec_offset(self) -> u16 {
        match self {
            NamRegs::Reset => 0x0,
            NamRegs::MasterVolume => 0x2,
            NamRegs::PcmOutVolume => 0x18,
            NamRegs::SampleRate => 0x2C,
        }
    }

    pub fn offset(self) -> (r: u16)
        ensures
            r == self.spec_offset(),
    {
        match self {
            NamRegs::Reset => 0x0,
            NamRegs::MasterVolume => 0x2,
            NamRegs::PcmOutVolume => 0x18,
            NamRegs::SampleRate => 0x2C,
        }
    }
}

/// Registers of the native audio bus master, by offset from its base port.
#[derive(Clone, Copy, Debug, PartialEq, Eq, Structural)]
pub enum NabmRegs {
    PcmOutBdlAddr,
    PcmOutLastEnt,
    PcmOutStatus,
    PcmOutTransferControl,
    GlobalControl,
    GlobalStatus,
}

impl NabmRegs {
    pub open spec fn spec_offset(self) -> u16 {
        match self {
            NabmRegs::PcmOutBdlAddr => 0x10,
            NabmRegs::PcmOutLastEnt => 0x15,
            NabmRegs::PcmOutStatus => 0x16,
            NabmRegs::PcmOutTransferControl => 0x1B,
            NabmRegs::GlobalControl => 0x2C,
            NabmRegs::GlobalStatus => 0x30,
        }
    }

    pub fn offset(self) -> (r: u16)
        ensures
            r == self.spec_offset(),
    {
        match self {
            NabmRegs::PcmOutBdlAddr => 0x10,
            NabmRegs::PcmOutLastEnt => 0x15,
            NabmRegs::PcmOutStatus => 0x16,
            NabmRegs::PcmOutTransferControl => 0x1B,
            NabmRegs::GlobalControl => 0x2C,
            NabmRegs::GlobalStatus => 0x30,
        }
    }
}

/// The port base that an I/O base address register names: its low 16 bits
/// with the I/O-space flag (bit 0) cleared.
pub open spec fn io_base(bar: u32) -> u16 {
    ((bar % 0x10000) / 2 * 2) as u16
}

/// The port at `offset` from `base`, in the 16-bit port space.
pub open spec fn port_at(base: u16, offset: u16) -> u16 {
    ((base + offset) % 0x10000) as u16
}

/// The ports of one codec.
#[derive(Clone, Copy, Debug, PartialEq, Eq, Structural)]
pub struct Ac97Regs {
    pub mixer_reset: u16,
    pub mixer_master_vol: u16,
    pub mixer_pcm_vol: u16,
    pub mixer_sample_rate: u16,
    pub global_ctl: u16,
    pub global_sts: u16,
    pub pcm_out_bdl_last_ent: u16,
    pub pcm_out_bdl_addr: u16,
    pub pcm_out_transf_ctl: u16,
    pub pcm_out_transf_sts: u16,
}

/// The ports of a codec whose mixer starts at `nam` and whose bus master
/// starts at `nabm`.
pub open spec fn ports_of(nam: u16, nabm: u16) -> Ac97Regs {
    Ac97Regs {
        mixer_reset: port_at(nam, NamRegs::Reset.spec_offset()),
        mixer_master_vol: port_at(nam, NamRegs::MasterVolume.spec_offset()),
        mixer_pcm_vol: port_at(nam, NamRegs::PcmOutVolume.spec_offset()),
        mixer_sample_rate: port_at(nam, NamRegs::SampleRate.spec_offset()),
        global_ctl: port_at(nabm, NabmRegs::GlobalControl.spec_offset()),
        global_sts: port_at(nabm, NabmRegs::GlobalStatus.spec_offset()),
        pcm_out_bdl_last_ent: port_at(nabm, NabmRegs::PcmOutLastEnt.spec_offset()),
        pcm_out_bdl_addr: port_at(nabm, NabmRegs::PcmOutBdlAddr.spec_offset()),
        pcm_out_transf_ctl: port_at(nabm, NabmRegs::PcmOutTransferControl.spec_offset()),
        pcm_out_transf_sts: port_at(nabm, NabmRegs::PcmOutStatus.spec_offset()),
    }
}

fn port(base: u16, offset: u16) -> (r: u16)
    ensures
        r == port_at(base, offset),
{
    ((base as u32 + offset as u32) % 0x10000) as u16
}

/// Port base named by an I/O base address register.
pub fn io_base_of(bar: u32) -> (r: u16)
    ensures
        r == io_base(bar),
{
    ((bar % 0x10000) / 2 * 2) as u16
}

impl Ac97Regs {
    /// Resolves the ports from the two base address registers: the mixer's
    /// (`bar0`) and the bus master's (`bar1`).
    pub fn resolve(bar0: u32, bar1: u32) -> (r: Self)
        ensures
            r == ports_of(io_base(bar0), io_base(bar1)),
    {
        Self::resolve_bases(io_base_of(bar0), io_base_of(bar1))
    }

    /// The ports of a codec whose mixer starts at `nam` and whose bus master
    /// starts at `nabm`.
    pub fn resolve_bases(nam: u16, nabm: u16) -> (r: Self)
        ensures
            r == ports_of(nam, nabm),
    {
        Ac97Regs {
            mixer_reset: port(nam, NamRegs::Reset.offset()),
            mixer_master_vol: port(nam, NamRegs::MasterVolume.offset()),
            mixer_pcm_vol: port(nam, NamRegs::PcmOutVolume.offset()),
            mixer_sample_rate: port(nam, NamRegs::SampleRate.offset()),
            global_ctl: port(nabm, NabmRegs::GlobalControl.offset()),
            global_sts: port(nabm, NabmRegs::GlobalStatus.offset()),
            pcm_out_bdl_last_ent: port(nabm, NabmRegs::PcmOutLastEnt.offset()),
            pcm_out_bdl_addr: port(nabm, NabmRegs::PcmOutBdlAddr.offset()),
            pcm_out_transf_ctl: port(nabm, NabmRegs::PcmOutTransferControl.offset()),
            pcm_out_transf_sts: port(nabm, NabmRegs::PcmOutStatus.offset()),
        }
    }
}

/// The command register with port access and bus mastering on and legacy
/// interrupts off; other bits as they were.
pub open spec fn spec_enable_command(cmd: u16) -> u16 {
    cmd | PCI_CMD_PIO | PCI_CMD_BUS_MASTER | PCI_CMD_DISABLE_INTRS
}

pub fn enable_command(cmd: u16) -> (r: u16)
    ensures
        r == spec_enable_command(cmd),
{
    cmd | PCI_CMD_PIO | PCI_CMD_BUS_MASTER | PCI_CMD_DISABLE_INTRS
}

/// `new` is `old` with cold reset released (bit set) and interrupts off,
/// every other field and the reserved bits kept.
pub open spec fn cold_reset_of(old: GlobalControl, new: GlobalControl) -> bool {
    &&& new.spec_cold_reset()
    &&& !new.spec_interrupts()
    &&& new.spec_warm_reset() == old.spec_warm_reset()
    &&& new.spec_shut_down() == old.spec_shut_down()
    &&& new.spec_channels_code() == old.spec_channels_code()
    &&& new.spec_pcm_out_mode_code() == old.spec_pcm_out_mode_code()
    &&& new.spec_reserved() == old.spec_reserved()
}

pub fn cold_reset(gc: GlobalControl) -> (r: GlobalControl)
    ensures
        cold_reset_of(gc, r),
{
    gc.with_cold_reset(true).with_interrupts(false)
}

/// Both channels at the top of their range and not muted.
pub open spec fn master_volume_full(v: MasterOutputVolume) -> bool {
    v.spec_right() == 0x3f && v.spec_left() == 0x3f && !v.spec_mute() && v.spec_reserved() == 0
}

pub fn master_volume() -> (r: MasterOutputVolume)
    ensures
        master_volume_full(r),
{
    MasterOutputVolume::new().with_right(0x3F).with_left(0x3F).with_mute(false)
}

/// Both PCM channels at the top of their range and not muted.
pub open spec fn pcm_volume_full(v: PcmOutputVolume) -> bool {
    v.spec_right() == 0x1f && v.spec_left() == 0x1f && !v.spec_mute() && v.spec_reserved() == 0
}

pub fn pcm_volume() -> (r: PcmOutputVolume)
    ensures
        pcm_volume_full(r),
{
    PcmOutputVolume::new().with_right(0x1F).with_left(0x1F).with_mute(false)
}

/// `new` is `old` with the reset flag of the transfer control set, every
/// other flag and the reserved bits kept.
pub open spec fn transfer_reset_of(old: RegBoxTransfer, new: RegBoxTransfer) -> bool {
    &&& new.spec_reset()
    &&& new.spec_transfer_data() == old.spec_transfer_data()
    &&& new.spec_last_ent_fire_intr() == old.spec_last_ent_fire_intr()
    &&& new.spec_ioc_intr() == old.spec_ioc_intr()
    &&& new.spec_fifo_err_intr() == old.spec_fifo_err_intr()
    &&& new.spec_reserved() == old.spec_reserved()
}

/// `new` is `old` with the run flag of the transfer control set, every
/// other flag and the reserved bits kept.
pub open spec fn transfer_start_of(old: RegBoxTransfer, new: RegBoxTransfer) -> bool {
    &&& new.spec_transfer_data()
    &&& new.spec_reset() == old.spec_reset()
    &&& new.spec_last_ent_fire_intr() == old.spec_last_ent_fire_intr()
    &&& new.spec_ioc_intr() == old.spec_ioc_intr()
    &&& new.spec_fifo_err_intr() == old.spec_fifo_err_intr()
    &&& new.spec_reserved() == old.spec_reserved()
}

/// The value of a byte-wide register, read back in a `u32`.
pub open spec fn low_byte(input: u32) -> u8 {
    (input % 0x100) as u8
}

/// The value of a word-wide register, read back in a `u32`.
pub open spec fn low_word(input: u32) -> u16 {
    (input % 0x10000) as u16
}

pub fn byte_of_input(input: u32) -> (r: u8)
    ensures
        r == low_byte(input),
{
    (input % 0x100) as u8
}

pub fn word_of_input(input: u32) -> (r: u16)
    ensures
        r == low_word(input),
{
    (input % 0x10000) as u16
}

/// The polls that a wait has left after one more poll found the hardware
/// not ready: `None` where it had none left and gives up, `Some(None)` where
/// its polls are unbounded.
pub open spec fn spins_after_miss(left: Option<u64>) -> Option<Option<u64>> {
    match left {
        None => Some(None),
        Some(k) => if k == 0 { None } else { Some(Some((k - 1) as u64)) },
    }
}

pub fn spend_spin(left: Option<u64>) -> (r: Option<Option<u64>>)
    ensures
        r == spins_after_miss(left),
{
    match left {
        None => Some(None),
        Some(k) => if k == 0 { None } else { Some(Some(k - 1)) },
    }
}

/// The physical address of the memory at virtual address `virt`, where
/// physical memory is mapped at `phys_virt_offset`; `None` where `virt` lies
/// below the mapping or the address does not fit the 32 bits that DMA names.
pub open spec fn spec_phys_of(virt: u64, phys_virt_offset: u64) -> Option<u32> {
    if virt >= phys_virt_offset && virt - phys_virt_offset <= u32::MAX {
        Some((virt - phys_virt_offset) as u32)
    } else {
        None
    }
}

pub fn phys_of(virt: u64, phys_virt_offset: u64) -> (r: Option<u32>)
    ensures
        r == spec_phys_of(virt, phys_virt_offset),
{
    if virt >= phys_virt_offset && virt - phys_virt_offset <= u32::MAX as u64 {
        Some((virt - phys_virt_offset) as u32)
    } else {
        None
    }
}

/// Whether `op` writes `port` with the given width.
pub open spec fn is_port_write(op: Op, port: u16, width: Width) -> bool {
    match op {
        Op::PortWrite { port: p, value: _, width: w } => p == port && w == width,
        _ => false,
    }
}

/// The value that a write operation writes.
pub open spec fn written(op: Op) -> u32 {
    match op {
        Op::PortWrite { port: _, value: v, width: _ } => v,
        Op::ConfigWrite { offset: _, value: v, width: _ } => v,
        _ => 0,
    }
}

/// Where the bring-up sequence stands: the operation named last, whose
/// result the next step takes.
#[derive(Clone, Copy, Debug, PartialEq, Eq, Structural)]
pub enum BringUpPhase {
    Start,
    CommandRead,
    CommandWritten,
    Bar1Read,
    Bar0Read,
    GlobalCtlRead,
    GlobalCtlWritten,
    MixerReset,
    MasterVolumeSet,
    PcmVolumeSet,
    SampleRateSet,
    TransferCtlRead,
    TransferResetWritten,
    ResetPolled,
    Halted,
    BdlAddrSet,
    LastEntrySet,
    Finished,
    GaveUp,
}

/// The bring-up sequence: enable the device on the bus, find its ports,
/// release the codec from cold reset, reset the mixer, set both volumes and
/// the sample rate, reset the output engine and wait for it, then point the
/// engine at the descriptor ring at `bdl_phys`.
#[derive(Clone, Copy, Debug, PartialEq, Eq, Structural)]
pub struct BringUp {
    pub phase: BringUpPhase,
    pub nam: u16,
    pub nabm: u16,
    pub bdl_phys: u32,
    pub spin_limit: Option<u64>,
    pub spins_left: Option<u64>,
}

/// One step of the bring-up sequence: from `s`, given the value `input` that
/// the last operation read, the sequence goes to `t` and names `op`.
pub open spec fn bring_up_step(s: BringUp, input: u32, t: BringUp, op: Op) -> bool {
    let ports = ports_of(t.nam, t.nabm);
    &&& t.bdl_phys == s.bdl_phys
    &&& t.spin_limit == s.spin_limit
    &&& (t.nam == s.nam || s.phase == BringUpPhase::Bar0Read)
    &&& (t.nabm == s.nabm || s.phase == BringUpPhase::Bar1Read)
    &&& (t.spins_left == s.spins_left || s.phase == BringUpPhase::TransferResetWritten
        || s.phase == BringUpPhase::ResetPolled)
    &&& match s.phase {
        BringUpPhase::Start => t.phase == BringUpPhase::CommandRead && op == Op::ConfigRead {
            offset: PCI_COMMAND,
            width: Width::Word,
        },
        BringUpPhase::CommandRead => t.phase == BringUpPhase::CommandWritten && op
            == Op::ConfigWrite {
            offset: PCI_COMMAND,
            value: spec_enable_command(low_word(input)) as u32,
            width: Width::Word,
        },
        BringUpPhase::CommandWritten => t.phase == BringUpPhase::Bar1Read && op == Op::ConfigRead {
            offset: PCI_BAR1,
            width: Width::DWord,
        },
        BringUpPhase::Bar1Read => t.phase == BringUpPhase::Bar0Read && t.nabm == io_base(input)
            && op == Op::ConfigRead { offset: PCI_BAR0, width: Width::DWord },
        BringUpPhase::Bar0Read => t.phase == BringUpPhase::GlobalCtlRead && t.nam == io_base(input)
            && op == Op::PortRead { port: ports.global_ctl, width: Width::DWord },
        BringUpPhase::GlobalCtlRead => t.phase == BringUpPhase::GlobalCtlWritten && is_port_write(
            op,
            ports.global_ctl,
            Width::DWord,
        ) && cold_reset_of(GlobalControl { bits: input }, GlobalControl { bits: written(op) }),
        BringUpPhase::GlobalCtlWritten => t.phase == BringUpPhase::MixerReset && op
            == Op::PortWrite { port: ports.mixer_reset, value: MIXER_RESET as u32, width: Width::Word },
        BringUpPhase::MixerReset => t.phase == BringUpPhase::MasterVolumeSet && is_port_write(
            op,
            ports.mixer_master_vol,
            Width::Word,
        ) && written(op) < 0x10000 && master_volume_full(
            MasterOutputVolume { bits: written(op) as u16 },
        ),
        BringUpPhase::MasterVolumeSet => t.phase == BringUpPhase::PcmVolumeSet && is_port_write(
            op,
            ports.mixer_pcm_vol,
            Width::Word,
        ) && written(op) < 0x10000 && pcm_volume_full(PcmOutputVolume { bits: written(op) as u16 }),
        BringUpPhase::PcmVolumeSet => t.phase == BringUpPhase::SampleRateSet && op == Op::PortWrite {
            port: ports.mixer_sample_rate,
            value: SAMPLE_RATE as u32,
            width: Width::Word,
        },
        BringUpPhase::SampleRateSet => t.phase == BringUpPhase::TransferCtlRead && op
            == Op::PortRead { port: ports.pcm_out_transf_ctl, width: Width::Byte },
        BringUpPhase::TransferCtlRead => t.phase == BringUpPhase::TransferResetWritten
            && is_port_write(op, ports.pcm_out_transf_ctl, Width::Byte) && written(op) < 0x100
            && transfer_reset_of(
            RegBoxTransfer { bits: low_byte(input) },
            RegBoxTransfer { bits: written(op) as u8 },
        ),
        BringUpPhase::TransferResetWritten => t.phase == BringUpPhase::ResetPolled && t.spins_left
            == s.spin_limit && op == Op::PortRead {
            port: ports.pcm_out_transf_ctl,
            width: Width::Byte,
        },
        BringUpPhase::ResetPolled => if (RegBoxTransfer { bits: low_byte(input) }).spec_reset() {
            match spins_after_miss(s.spins_left) {
                None => t.phase == BringUpPhase::GaveUp && op == Op::GaveUp,
                Some(left) => t.phase == BringUpPhase::Halted && t.spins_left == left && op
                    == Op::Halt,
            }
        } else {
            t.phase == BringUpPhase::BdlAddrSet && t.spins_left == s.spins_left && op
                == Op::PortWrite { port: ports.pcm_out_bdl_addr, value: s.bdl_phys, width: Width::DWord }
        },
        BringUpPhase::Halted => t.phase == BringUpPhase::ResetPolled && op == Op::PortRead {
            port: ports.pcm_out_transf_ctl,
            width: Width::Byte,
        },
        BringUpPhase::BdlAddrSet => t.phase == BringUpPhase::LastEntrySet && op == Op::PortWrite {
            port: ports.pcm_out_bdl_last_ent,
            value: LAST_ENTRY as u32,
            width: Width::Byte,
        },
        BringUpPhase::LastEntrySet => t.phase == BringUpPhase::Finished && op == Op::Done,
        BringUpPhase::Finished => t.phase == BringUpPhase::Finished && op == Op::Done,
        BringUpPhase::GaveUp => t.phase == BringUpPhase::GaveUp && op == Op::GaveUp,
    }
}

impl BringUp {
    /// A sequence that has not started, for a ring at `bdl_phys`, whose waits
    /// poll at most `spin_limit` extra times (without bound for `None`).
    pub fn new(bdl_phys: u32, spin_limit: Option<u64>) -> (r: Self)
        ensures
            r.phase == BringUpPhase::Start,
            r.bdl_phys == bdl_phys,
            r.spin_limit == spin_limit,
    {
        BringUp { phase: BringUpPhase::Start, nam: 0, nabm: 0, bdl_phys, spin_limit, spins_left: spin_limit }
    }

    /// The ports found so far; those of the device once the sequence is past
    /// reading its base address registers.
    pub fn regs(&self) -> (r: Ac97Regs)
        ensures
            r == ports_of(self.nam, self.nabm),
    {
        Ac97Regs::resolve_bases(self.nam, self.nabm)
    }

    /// Takes the value that the last operation read and names the next one.
    pub fn step(&mut self, input: u32) -> (op: Op)
        ensures
            bring_up_step(*old(self), input, *final(self), op),
    {
        let ports = Ac97Regs::resolve_bases(self.nam, self.nabm);
        match self.phase {
            BringUpPhase::Start => {
                self.phase = BringUpPhase::CommandRead;
                Op::ConfigRead { offset: PCI_COMMAND, width: Width::Word }
            },
            BringUpPhase::CommandRead => {
                self.phase = BringUpPhase::CommandWritten;
                let cmd = enable_command(word_of_input(input));
                Op::ConfigWrite { offset: PCI_COMMAND, value: cmd as u32, width: Width::Word }
            },
            BringUpPhase::CommandWritten => {
                self.phase = BringUpPhase::Bar1Read;
                Op::ConfigRead { offset: PCI_BAR1, width: Width::DWord }
            },
            BringUpPhase::Bar1Read => {
                self.phase = BringUpPhase::Bar0Read;
                self.nabm = io_base_of(input);
                Op::ConfigRead { offset: PCI_BAR0, width: Width::DWord }
            },
            BringUpPhase::Bar0Read => {
                self.phase = BringUpPhase::GlobalCtlRead;
                self.nam = io_base_of(input);
                let ports = Ac97Regs::resolve_bases(self.nam, self.nabm);
                Op::PortRead { port: ports.global_ctl, width: Width::DWord }
            },
            BringUpPhase::GlobalCtlRead => {
                self.phase = BringUpPhase::GlobalCtlWritten;
                let v = cold_reset(GlobalControl::from_bits(input));
                Op::PortWrite { port: ports.global_ctl, value: v.into_bits(), width: Width::DWord }
            },
            BringUpPhase::GlobalCtlWritten => {
                self.phase = BringUpPhase::MixerReset;
                Op::PortWrite { port: ports.mixer_reset, value: MIXER_RESET as u32, width: Width::Word }
            },
            BringUpPhase::MixerReset => {
                self.phase = BringUpPhase::MasterVolumeSet;
                let v = master_volume();
                Op::PortWrite {
                    port: ports.mixer_master_vol,
                    value: v.into_bits() as u32,
                    width: Width::Word,
                }
            },
            BringUpPhase::MasterVolumeSet => {
                self.phase = BringUpPhase::PcmVolumeSet;
                let v = pcm_volume();
                Op::PortWrite { port: ports.mixer_pcm_vol, value: v.into_bits() as u32, width: Width::Word }
            },
            BringUpPhase::PcmVolumeSet => {
                self.phase = BringUpPhase::SampleRateSet;
                Op::PortWrite {
                    port: ports.mixer_sample_rate,
                    value: SAMPLE_RATE as u32,
                    width: Width::Word,
                }
            },
            BringUpPhase::SampleRateSet => {
                self.phase = BringUpPhase::TransferCtlRead;
                Op::PortRead { port: ports.pcm_out_transf_ctl, width: Width::Byte }
            },
            BringUpPhase::TransferCtlRead => {
                self.phase = BringUpPhase::TransferResetWritten;
                let v = RegBoxTransfer::from_bits(byte_of_input(input)).with_reset(true);
                Op::PortWrite {
                    port: ports.pcm_out_transf_ctl,
                    value: v.into_bits() as u32,
                    width: Width::Byte,
                }
            },
            BringUpPhase::TransferResetWritten => {
                self.phase = BringUpPhase::ResetPolled;
                self.spins_left = self.spin_limit;
                Op::PortRead { port: ports.pcm_out_transf_ctl, width: Width::Byte }
            },
            BringUpPhase::ResetPolled => {
                if RegBoxTransfer::from_bits(byte_of_input(input)).reset() {
                    match spend_spin(self.spins_left) {
                        None => {
                            self.phase = BringUpPhase::GaveUp;
                            Op::GaveUp
                        },
                        Some(left) => {
                            self.phase = BringUpPhase::Halted;
                            self.spins_left = left;
                            Op::Halt
                        },
                    }
                } else {
                    self.phase = BringUpPhase::BdlAddrSet;
                    Op::PortWrite {
                        port: ports.pcm_out_bdl_addr,
                        value: self.bdl_phys,
                        width: Width::DWord,
                    }
                }
            },
            BringUpPhase::Halted => {
                self.phase = BringUpPhase::ResetPolled;
                Op::PortRead { port: ports.pcm_out_transf_ctl, width: Width::Byte }
            },
            BringUpPhase::BdlAddrSet => {
                self.phase = BringUpPhase::LastEntrySet;
                Op::PortWrite {
                    port: ports.pcm_out_bdl_last_ent,
                    value: LAST_ENTRY as u32,
                    width: Width::Byte,
                }
            },
            BringUpPhase::LastEntrySet => {
                self.phase = BringUpPhase::Finished;
                Op::Done
            },
            BringUpPhase::Finished => Op::Done,
            BringUpPhase::GaveUp => Op::GaveUp,
        }
    }
}

} // verus!
