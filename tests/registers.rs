use ac97::regs::{
    BufferDescCtl, GlobalControl, GlobalStatus, MasterOutputVolume, PcmChannels, PcmOutMode,
    PcmOutputVolume, RegBoxStatus, RegBoxTransfer,
};

#[test]
fn master_volume_fields_round_trip() {
    let v = MasterOutputVolume::new().with_right(0x3F).with_left(0x3F).with_mute(false);
    assert_eq!(v.into_bits(), 0x3F3F);
    let back = MasterOutputVolume::from_bits(v.into_bits());
    assert_eq!(back, v);
    assert_eq!(back.right(), 0x3F);
    assert_eq!(back.left(), 0x3F);
    assert!(!back.mute());

    let m = MasterOutputVolume::new().with_right(1).with_left(2).with_mute(true);
    assert_eq!(m.into_bits(), 0x8201);
    let back = MasterOutputVolume::from_bits(m.into_bits());
    assert_eq!((back.right(), back.left(), back.mute()), (1, 2, true));
}

#[test]
fn master_volume_keeps_reserved_bits() {
    let v = MasterOutputVolume::from_bits(0xFFFF).with_right(0).with_left(0).with_mute(false);
    assert_eq!(v.into_bits(), 0x40C0);
}

#[test]
fn pcm_volume_fields_round_trip() {
    let v = PcmOutputVolume::new().with_right(0x1F).with_left(0x1F).with_mute(false);
    assert_eq!(v.into_bits(), 0x1F1F);
    let back = PcmOutputVolume::from_bits(v.into_bits());
    assert_eq!((back.right(), back.left(), back.mute()), (0x1F, 0x1F, false));
    let muted = PcmOutputVolume::new().with_mute(true);
    assert_eq!(muted.into_bits(), 0x8000);
    assert!(PcmOutputVolume::from_bits(0x8000).mute());
    assert_eq!(PcmOutputVolume::from_bits(0xFFFF).with_left(0).into_bits(), 0xE0FF);
}

#[test]
fn transfer_control_flags() {
    let r = RegBoxTransfer::new().with_reset(true);
    assert_eq!(r.into_bits(), 0x02);
    assert!(RegBoxTransfer::from_bits(0x02).reset());
    assert!(!RegBoxTransfer::from_bits(0x02).transfer_data());
    let all = RegBoxTransfer::new()
        .with_transfer_data(true)
        .with_reset(true)
        .with_last_ent_fire_intr(true)
        .with_ioc_intr(true)
        .with_fifo_err_intr(true);
    assert_eq!(all.into_bits(), 0x1F);
    assert_eq!(RegBoxTransfer::from_bits(0xE0).with_transfer_data(true).into_bits(), 0xE1);
    assert_eq!(RegBoxTransfer::from_bits(0xFF).with_reset(false).into_bits(), 0xFD);
}

#[test]
fn transfer_status_flags() {
    let s = RegBoxStatus::from_bits(0x0002);
    assert!(s.end_of_transfer());
    assert!(!s.transfer_data());
    assert!(!RegBoxStatus::from_bits(0xFFFD).end_of_transfer());
    let all = RegBoxStatus::new()
        .with_transfer_data(true)
        .with_end_of_transfer(true)
        .with_last_ent_fire_intr(true)
        .with_ioc_intr(true)
        .with_fifo_err_intr(true);
    assert_eq!(all.into_bits(), 0x1F);
    let back = RegBoxStatus::from_bits(all.into_bits());
    assert!(back.fifo_err_intr() && back.ioc_intr() && back.last_ent_fire_intr());
}

#[test]
fn global_control_enumerated_fields() {
    let g = GlobalControl::new();
    assert_eq!(g.channels(), Some(PcmChannels::Two));
    assert_eq!(g.pcm_out_mode(), Some(PcmOutMode::SixteenSamples));
    for ch in [PcmChannels::Two, PcmChannels::Four, PcmChannels::Six] {
        for mode in [PcmOutMode::SixteenSamples, PcmOutMode::TwentySamples] {
            let v = GlobalControl::new().with_channels(ch).with_pcm_out_mode(mode);
            let back = GlobalControl::from_bits(v.into_bits());
            assert_eq!(back.channels(), Some(ch));
            assert_eq!(back.pcm_out_mode(), Some(mode));
        }
    }
    assert_eq!(GlobalControl::new().with_channels(PcmChannels::Six).into_bits(), 0x0020_0000);
    assert_eq!(GlobalControl::new().with_pcm_out_mode(PcmOutMode::TwentySamples).into_bits(), 0x0040_0000);
    assert_eq!(GlobalControl::from_bits(0x0030_0000).channels(), None);
    assert_eq!(GlobalControl::from_bits(0x0080_0000).pcm_out_mode(), None);
}

#[test]
fn global_control_flags() {
    let g = GlobalControl::new()
        .with_interrupts(true)
        .with_cold_reset(true)
        .with_warm_reset(true)
        .with_shut_down(true);
    assert_eq!(g.into_bits(), 0xF);
    let cleared = GlobalControl::from_bits(0xFFFF_FFFF).with_interrupts(false).with_cold_reset(false);
    assert_eq!(cleared.into_bits(), 0xFFFF_FFFC);
    assert!(cleared.warm_reset() && cleared.shut_down());
}

#[test]
fn global_status_fields() {
    let s = GlobalStatus::from_bits(0x0010_0000);
    assert_eq!(s.channel_caps(), Some(PcmChannels::Four));
    assert_eq!(s.sample_caps(), Some(PcmOutMode::SixteenSamples));
    let t = GlobalStatus::new().with_sample_caps(PcmOutMode::TwentySamples);
    assert_eq!(t.into_bits(), 0x0040_0000);
    assert_eq!(t.sample_caps(), Some(PcmOutMode::TwentySamples));
}

#[test]
fn descriptor_control_word() {
    assert_eq!(BufferDescCtl::new().with_last(true).into_bits(), 0x4000);
    assert_eq!(BufferDescCtl::new().with_fire_interrupt(true).into_bits(), 0x8000);
    let c = BufferDescCtl::from_bits(0xC000);
    assert!(c.last() && c.fire_interrupt());
}

#[test]
fn enum_defaults_and_codes() {
    assert_eq!(PcmChannels::default(), PcmChannels::Two);
    assert_eq!(PcmOutMode::default(), PcmOutMode::SixteenSamples);
    assert_eq!(PcmChannels::Six.code(), 2);
    assert_eq!(PcmChannels::from_code(3), None);
    assert_eq!(PcmOutMode::from_code(1), Some(PcmOutMode::TwentySamples));
    assert_eq!(PcmOutMode::from_code(2), None);
}

#[test]
fn raw_conversions() {
    let v = MasterOutputVolume::from(0x3F3Fu16);
    assert_eq!(v.left(), 0x3F);
    assert_eq!(u16::from(v), 0x3F3F);
    let t = RegBoxTransfer::from(0x02u8);
    assert!(t.reset());
    assert_eq!(u8::from(t.with_transfer_data(true)), 0x03);
    assert_eq!(u32::from(GlobalControl::from(0x0040_0002u32)), 0x0040_0002);
    assert_eq!(u16::from(BufferDescCtl::from(0x4000u16)), 0x4000);
    assert_eq!(u16::from(PcmOutputVolume::from(0x1F1Fu16).with_mute(true)), 0x9F1F);
    assert_eq!(u16::from(RegBoxStatus::from(2u16)), 2);
    assert_eq!(u32::from(GlobalStatus::from(0x0010_0000u32)), 0x0010_0000);
}
