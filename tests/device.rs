use ac97::device::{
    enable_command, io_base_of, phys_of, Ac97Regs, BringUp, BringUpPhase, NabmRegs, NamRegs, Op,
    Width, SAMPLE_RATE,
};
use ac97::playback::{Ac97, PlayPhase};
use ac97::ring::{build, encode, new_audio_buffer, WINDOW};

#[test]
fn command_register_enabled() {
    assert_eq!(enable_command(0), 0x0405);
    assert_eq!(enable_command(0x0002), 0x0407);
    assert_eq!(enable_command(0xFFFF), 0xFFFF);
}

#[test]
fn port_bases_and_offsets() {
    assert_eq!(io_base_of(0xC001), 0xC000);
    assert_eq!(io_base_of(0x0001_D101), 0xD100);
    assert_eq!(NamRegs::SampleRate.offset(), 0x2C);
    assert_eq!(NabmRegs::GlobalStatus.offset(), 0x30);
    let r = Ac97Regs::resolve(0xC001, 0xC101);
    assert_eq!(r.mixer_reset, 0xC000);
    assert_eq!(r.mixer_master_vol, 0xC002);
    assert_eq!(r.mixer_pcm_vol, 0xC018);
    assert_eq!(r.mixer_sample_rate, 0xC02C);
    assert_eq!(r.pcm_out_bdl_addr, 0xC110);
    assert_eq!(r.pcm_out_bdl_last_ent, 0xC115);
    assert_eq!(r.pcm_out_transf_sts, 0xC116);
    assert_eq!(r.pcm_out_transf_ctl, 0xC11B);
    assert_eq!(r.global_ctl, 0xC12C);
    assert_eq!(r.global_sts, 0xC130);
}

#[test]
fn ports_wrap_in_port_space() {
    let r = Ac97Regs::resolve(0xFFFF, 0xFFF1);
    assert_eq!(r.mixer_sample_rate, 0x002A);
    assert_eq!(r.global_ctl, 0x001C);
}

#[test]
fn physical_translation() {
    assert_eq!(phys_of(0xFFFF_8000_0010_0000, 0xFFFF_8000_0000_0000), Some(0x0010_0000));
    assert_eq!(phys_of(0x10, 0x20), None);
    assert_eq!(phys_of(0x1_0000_0000, 0), None);
    assert_eq!(phys_of(0xFFFF_FFFF, 0), Some(0xFFFF_FFFF));
}

/// Runs the bring-up sequence against a device that reads back the given
/// values, and returns the operations it named.
fn run_bring_up(reset_polls: usize, limit: Option<u64>) -> Vec<Op> {
    let mut seq = BringUp::new(0x0020_0000, limit);
    let mut ops = Vec::new();
    let mut input: u32 = 0;
    let mut polls = 0;
    loop {
        let op = seq.step(input);
        ops.push(op);
        input = match op {
            Op::ConfigRead { offset: 0x04, .. } => 0x0002,
            Op::ConfigRead { offset: 0x10, .. } => 0xC001,
            Op::ConfigRead { offset: 0x14, .. } => 0xC101,
            Op::PortRead { port: 0xC12C, .. } => 0x0000_0001,
            Op::PortRead { port: 0xC11B, .. } => {
                polls += 1;
                if polls >= 2 && polls < 2 + reset_polls { 0x02 } else { 0x00 }
            }
            _ => 0,
        };
        if op == Op::Done || op == Op::GaveUp {
            break;
        }
        assert!(ops.len() < 1000);
    }
    ops
}

#[test]
fn bring_up_sequence() {
    let ops = run_bring_up(1, None);
    let expected = vec![
        Op::ConfigRead { offset: 0x04, width: Width::Word },
        Op::ConfigWrite { offset: 0x04, value: 0x0407, width: Width::Word },
        Op::ConfigRead { offset: 0x14, width: Width::DWord },
        Op::ConfigRead { offset: 0x10, width: Width::DWord },
        Op::PortRead { port: 0xC12C, width: Width::DWord },
        Op::PortWrite { port: 0xC12C, value: 0x0000_0002, width: Width::DWord },
        Op::PortWrite { port: 0xC000, value: 0xFFFF, width: Width::Word },
        Op::PortWrite { port: 0xC002, value: 0x3F3F, width: Width::Word },
        Op::PortWrite { port: 0xC018, value: 0x1F1F, width: Width::Word },
        Op::PortWrite { port: 0xC02C, value: SAMPLE_RATE as u32, width: Width::Word },
        Op::PortRead { port: 0xC11B, width: Width::Byte },
        Op::PortWrite { port: 0xC11B, value: 0x02, width: Width::Byte },
        Op::PortRead { port: 0xC11B, width: Width::Byte },
        Op::Halt,
        Op::PortRead { port: 0xC11B, width: Width::Byte },
        Op::PortWrite { port: 0xC110, value: 0x0020_0000, width: Width::DWord },
        Op::PortWrite { port: 0xC115, value: 30, width: Width::Byte },
        Op::Done,
    ];
    assert_eq!(ops, expected);
    assert_eq!(SAMPLE_RATE, 44100);
}

#[test]
fn bring_up_gives_up_after_limit() {
    let ops = run_bring_up(100, Some(3));
    assert_eq!(*ops.last().unwrap(), Op::GaveUp);
    assert_eq!(ops.iter().filter(|o| **o == Op::Halt).count(), 3);
}

#[test]
fn bring_up_ports_resolved() {
    let mut seq = BringUp::new(0, None);
    let inputs = [0u32, 0, 0, 0xE001, 0xD001];
    for i in inputs {
        seq.step(i);
    }
    assert_eq!(seq.phase, BringUpPhase::GlobalCtlRead);
    let r = seq.regs();
    assert_eq!(r.mixer_reset, 0xD000);
    assert_eq!(r.global_ctl, 0xE02C);
}

const BUF_PHYS: u32 = 0x0100_0000;
const BDL_PHYS: u32 = 0x0200_0000;

fn device(limit: Option<u64>) -> Ac97 {
    let ring = build(BUF_PHYS);
    let image = encode(&ring);
    Ac97::new(Ac97Regs::resolve(0xC001, 0xC101), new_audio_buffer(), ring, image, BUF_PHYS, BDL_PHYS, limit)
}

/// A play against a device whose resets clear and whose transfers end at
/// once. Returns the number of start pulses and, for each, the audio
/// buffer's contents when it was sent.
fn play(dev: &mut Ac97, data: &[u8]) -> (usize, Vec<Vec<u8>>, Op) {
    let ctl = dev.regs().pcm_out_transf_ctl;
    let sts = dev.regs().pcm_out_transf_sts;
    let mut starts = 0;
    let mut snapshots = Vec::new();
    let mut op = dev.play_start(data);
    let mut steps = 0;
    while op != Op::Done && op != Op::GaveUp {
        let input = match op {
            Op::PortWrite { port, value, .. } if port == ctl && value & 1 == 1 => {
                starts += 1;
                snapshots.push(dev.buffer().clone());
                0
            }
            Op::PortRead { port, .. } if port == sts => 0x0002,
            _ => 0,
        };
        op = dev.play_step(data, input);
        steps += 1;
        assert!(steps < 1000);
    }
    (starts, snapshots, op)
}

#[test]
fn play_empty_input() {
    let mut dev = device(None);
    let data: Vec<u8> = Vec::new();
    assert_eq!(dev.play_start(&data), Op::Done);
    assert_eq!(dev.state().phase, PlayPhase::Idle);
    assert_eq!(dev.state().started, 0);
    let (starts, _, last) = play(&mut dev, &data);
    assert_eq!(starts, 0);
    assert_eq!(last, Op::Done);
}

#[test]
fn play_exactly_one_window() {
    let mut dev = device(None);
    let data: Vec<u8> = (0..WINDOW).map(|i| (i % 251) as u8 + 1).collect();
    let (starts, snaps, last) = play(&mut dev, &data);
    assert_eq!(last, Op::Done);
    assert_eq!(starts, 1);
    assert_eq!(dev.state().started, 1);
    assert!(snaps[0] == data);
}

#[test]
fn play_one_window_and_a_byte() {
    let mut dev = device(None);
    let mut data: Vec<u8> = vec![0x55; WINDOW];
    data.push(0xAA);
    let (starts, snaps, last) = play(&mut dev, &data);
    assert_eq!(last, Op::Done);
    assert_eq!(starts, 2);
    assert!(snaps[0][..] == data[..WINDOW]);
    assert_eq!(snaps[1][0], 0xAA);
    assert!(snaps[1][1..].iter().all(|b| *b == 0));
    assert_eq!(snaps[1].len(), WINDOW);
}

#[test]
fn play_short_input_one_window() {
    let mut dev = device(None);
    let data: Vec<u8> = vec![1, 2, 3];
    let ctl = dev.regs().pcm_out_transf_ctl;
    let mut ops = vec![dev.play_start(&data)];
    let replies = [0u32, 0, 0, 0, 0, 0x10, 0, 0x0002, 0, 0];
    for r in replies {
        ops.push(dev.play_step(&data, r));
    }
    assert_eq!(
        ops,
        vec![
            Op::PortRead { port: ctl, width: Width::Byte },
            Op::PortWrite { port: ctl, value: 0x02, width: Width::Byte },
            Op::PortRead { port: ctl, width: Width::Byte },
            Op::PortWrite { port: 0xC110, value: BDL_PHYS, width: Width::DWord },
            Op::PortWrite { port: 0xC115, value: 30, width: Width::Byte },
            Op::PortRead { port: ctl, width: Width::Byte },
            Op::PortWrite { port: ctl, value: 0x11, width: Width::Byte },
            Op::PortRead { port: 0xC116, width: Width::Word },
            Op::Done,
            Op::Done,
            Op::Done,
        ]
    );
    assert_eq!(&dev.buffer()[0..4], &[1, 2, 3, 0]);
    assert_eq!(dev.state().started, 1);
}

#[test]
fn play_waits_and_gives_up() {
    let mut dev = device(Some(2));
    let data: Vec<u8> = vec![1];
    let mut op = dev.play_start(&data);
    let mut pauses = 0;
    let mut steps = 0;
    while op != Op::Done && op != Op::GaveUp {
        if op == Op::Pause {
            pauses += 1;
        }
        op = dev.play_step(&data, 0x02);
        steps += 1;
        assert!(steps < 100);
    }
    assert_eq!(op, Op::GaveUp);
    assert_eq!(pauses, 2);
    assert_eq!(dev.state().phase, PlayPhase::GaveUp);
}
