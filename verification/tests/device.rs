use si4703::config::{
    Band, ChannelSpacing, DeEmphasis, Gpio1Config, Gpio2Config, Gpio3Config, OutputMode,
    SoftmuteAttenuation, SoftmuteRate, StereoToMonoBlendLevel, Volume,
};
use si4703::device::{ChannelReading, Si4703};
use si4703::ic;

const POWERCFG: usize = 2;
const SYSCONFIG1: usize = 4;
const SYSCONFIG2: usize = 5;
const SYSCONFIG3: usize = 6;
const TEST1: usize = 7;

/// A register file with a distinct, busy pattern in every register.
fn sample_regs() -> [u16; 16] {
    let mut regs = [0u16; 16];
    for r in 0..16 {
        regs[r] = 0x5A5A ^ (0x0101 * r as u16);
    }
    regs
}

fn read_image(regs: &[u16; 16]) -> [u8; 32] {
    let mut data = [0u8; 32];
    for i in 0..16 {
        let r = regs[(i + 0x0A) % 16];
        data[2 * i] = (r >> 8) as u8;
        data[2 * i + 1] = r as u8;
    }
    data
}

fn powercfg_image(powercfg: u16) -> [u8; 18] {
    let mut data = [0xEEu8; 18];
    data[16] = (powercfg >> 8) as u8;
    data[17] = powercfg as u8;
    data
}

/// The registers that a write sends, by address.
fn decode_write(out: &[u8]) -> Vec<(usize, u16)> {
    assert_eq!(out.len() % 2, 0);
    out.chunks(2)
        .enumerate()
        .map(|(i, b)| (i + 2, (u16::from(b[0]) << 8) | u16::from(b[1])))
        .collect()
}

/// Checks that `out` writes POWERCFG..=last, each register as in `regs`
/// except those listed in `changed`, and returns the sent register file.
fn check_write(out: &[u8], regs: &[u16; 16], last: usize, changed: &[(usize, u16)]) {
    let sent = decode_write(out);
    assert_eq!(sent.len(), last - 1);
    for (r, w) in sent {
        match changed.iter().find(|(c, _)| *c == r) {
            Some((_, expected)) => assert_eq!(w, *expected, "register {}", r),
            None => assert_eq!(w, regs[r], "register {}", r),
        }
    }
}

fn dev() -> Si4703<(), ic::Si4703> {
    Si4703::new(())
}

#[test]
fn new_and_destroy_hand_back_the_bus() {
    let d = Si4703::new(42u8);
    assert_eq!(d.destroy(), 42u8);
    let d = Si4703::new_si4702("bus");
    assert_eq!(d.destroy(), "bus");
}

#[test]
fn enable_oscillator_sets_xoscen() {
    let regs = sample_regs();
    let out = dev().enable_oscillator(&read_image(&regs));
    check_write(&out, &regs, TEST1, &[(TEST1, regs[TEST1] | 0x8000)]);
}

#[test]
fn enable_sets_enable_and_clears_disable() {
    let out = dev().enable(&powercfg_image(0x0040));
    assert_eq!(out, vec![0x00, 0x01]);
    let out = dev().enable(&powercfg_image(0xC0C0));
    assert_eq!(out, vec![0xC0, 0x81]);
}

#[test]
fn disable_sets_enable_and_disable() {
    let out = dev().disable(&powercfg_image(0x4001));
    assert_eq!(out, vec![0x40, 0x41]);
}

#[test]
fn unmute_and_mute_toggle_dmute() {
    assert_eq!(dev().unmute(&powercfg_image(0x0001)), vec![0x40, 0x01]);
    assert_eq!(dev().mute(&powercfg_image(0x4001)), vec![0x00, 0x01]);
    assert_eq!(dev().mute(&powercfg_image(0x0001)), vec![0x00, 0x01]);
}

#[test]
fn disable_softmute_sets_dsmute() {
    assert_eq!(dev().disable_softmute(&powercfg_image(0x4001)), vec![0xC0, 0x01]);
}

#[test]
fn enable_softmute_writes_rate_and_attenuation() {
    let regs = sample_regs();
    let out = dev().enable_softmute(
        SoftmuteRate::Slow,
        SoftmuteAttenuation::Db14,
        &read_image(&regs),
    );
    check_write(
        &out,
        &regs,
        SYSCONFIG3,
        &[
            (POWERCFG, regs[POWERCFG] & !0x8000),
            (SYSCONFIG3, (regs[SYSCONFIG3] & 0x0FFF) | (2 << 14) | (1 << 12)),
        ],
    );
    let out = dev().enable_softmute(
        SoftmuteRate::Fastest,
        SoftmuteAttenuation::Db16,
        &read_image(&[0xFFFF; 16]),
    );
    check_write(&out, &[0xFFFF; 16], SYSCONFIG3, &[(POWERCFG, 0x7FFF), (SYSCONFIG3, 0x0FFF)]);
}

#[test]
fn output_mode_follows_st() {
    assert_eq!(dev().output_mode(&[0x01, 0x00]), OutputMode::Stereo);
    assert_eq!(dev().output_mode(&[0xFE, 0xFF]), OutputMode::Mono);
}

#[test]
fn set_output_mode_writes_mono() {
    assert_eq!(dev().set_output_mode(OutputMode::Mono, &powercfg_image(0x4001)), vec![0x60, 0x01]);
    assert_eq!(dev().set_output_mode(OutputMode::Stereo, &powercfg_image(0x6001)), vec![0x40, 0x01]);
}

#[test]
fn set_deemphasis_writes_de() {
    let regs = sample_regs();
    let data = read_image(&regs);
    let out = dev().set_deemphasis(DeEmphasis::Us50, &data);
    check_write(&out, &regs, SYSCONFIG1, &[(SYSCONFIG1, regs[SYSCONFIG1] | 0x0800)]);
    let out = dev().set_deemphasis(DeEmphasis::Us75, &data);
    check_write(&out, &regs, SYSCONFIG1, &[(SYSCONFIG1, regs[SYSCONFIG1] & !0x0800)]);
}

#[test]
fn set_volume_mute_writes_up_to_sysconfig2() {
    let regs = [0xFFFF; 16];
    let out = dev().set_volume(Volume::Mute, &read_image(&regs));
    check_write(&out, &regs, SYSCONFIG2, &[(SYSCONFIG2, 0xFFF0)]);
}

#[test]
fn set_volume_extended_range_sets_volext() {
    let regs = [0x0000; 16];
    let out = dev().set_volume(Volume::Dbfsm58, &read_image(&regs));
    check_write(&out, &regs, SYSCONFIG3, &[(SYSCONFIG2, 0x0001), (SYSCONFIG3, 0x0100)]);
    let out = dev().set_volume(Volume::Dbfsm30, &read_image(&regs));
    check_write(&out, &regs, SYSCONFIG3, &[(SYSCONFIG2, 0x000F), (SYSCONFIG3, 0x0100)]);
}

#[test]
fn set_volume_normal_range_clears_volext() {
    let regs = [0xFFFF; 16];
    let out = dev().set_volume(Volume::Dbfsm28, &read_image(&regs));
    check_write(&out, &regs, SYSCONFIG3, &[(SYSCONFIG2, 0xFFF1), (SYSCONFIG3, 0xFEFF)]);
    let out = dev().set_volume(Volume::Dbfs0, &read_image(&regs));
    check_write(&out, &regs, SYSCONFIG3, &[(SYSCONFIG2, 0xFFFF), (SYSCONFIG3, 0xFEFF)]);
}

#[test]
fn every_volume_has_its_own_setting() {
    let all = [
        Volume::Mute, Volume::Dbfsm58, Volume::Dbfsm56, Volume::Dbfsm54, Volume::Dbfsm52,
        Volume::Dbfsm50, Volume::Dbfsm48, Volume::Dbfsm46, Volume::Dbfsm44, Volume::Dbfsm42,
        Volume::Dbfsm40, Volume::Dbfsm38, Volume::Dbfsm36, Volume::Dbfsm34, Volume::Dbfsm32,
        Volume::Dbfsm30, Volume::Dbfsm28, Volume::Dbfsm26, Volume::Dbfsm24, Volume::Dbfsm22,
        Volume::Dbfsm20, Volume::Dbfsm18, Volume::Dbfsm16, Volume::Dbfsm14, Volume::Dbfsm12,
        Volume::Dbfsm10, Volume::Dbfsm8, Volume::Dbfsm6, Volume::Dbfsm4, Volume::Dbfsm2,
        Volume::Dbfs0,
    ];
    let data = read_image(&[0u16; 16]);
    let mut settings = Vec::new();
    for (i, v) in all.iter().enumerate() {
        let out = dev().set_volume(*v, &data);
        let sent = decode_write(&out);
        let code = sent[SYSCONFIG2 - 2].1 & 0x000F;
        let volext = sent.get(SYSCONFIG3 - 2).map(|(_, w)| w & 0x0100 != 0);
        // The level in dBFS follows from the setting.
        if i > 0 {
            let ext = volext.unwrap();
            let level = 2 * i as i32 - 60;
            assert_eq!(level, 2 * code as i32 - 30 - if ext { 30 } else { 0 });
        } else {
            assert_eq!(code, 0);
        }
        assert!(!settings.contains(&(code, volext)));
        settings.push((code, volext));
    }
}

#[test]
fn set_band_writes_band_field() {
    let regs = [0xFFFF; 16];
    let out = dev().set_band(Band::Mhz76_90, &read_image(&regs));
    check_write(&out, &regs, SYSCONFIG2, &[(SYSCONFIG2, 0xFFBF)]);
    let out = dev().set_band(Band::Mhz875_108, &read_image(&regs));
    check_write(&out, &regs, SYSCONFIG2, &[(SYSCONFIG2, 0xFF3F)]);
    let regs = [0u16; 16];
    let out = dev().set_band(Band::Mhz76_108, &read_image(&regs));
    check_write(&out, &regs, SYSCONFIG2, &[(SYSCONFIG2, 0x0040)]);
}

#[test]
fn set_channel_spacing_writes_space_field() {
    let regs = [0xFFFF; 16];
    let out = dev().set_channel_spacing(ChannelSpacing::Khz100, &read_image(&regs));
    check_write(&out, &regs, SYSCONFIG2, &[(SYSCONFIG2, 0xFFDF)]);
    let regs = [0u16; 16];
    let out = dev().set_channel_spacing(ChannelSpacing::Khz50, &read_image(&regs));
    check_write(&out, &regs, SYSCONFIG2, &[(SYSCONFIG2, 0x0020)]);
}

#[test]
fn stc_interrupts_toggle_stcien() {
    let regs = sample_regs();
    let data = read_image(&regs);
    let out = dev().enable_stc_interrupts(&data);
    check_write(&out, &regs, SYSCONFIG1, &[(SYSCONFIG1, regs[SYSCONFIG1] | 0x4000)]);
    let out = dev().disable_stc_interrupts(&data);
    check_write(&out, &regs, SYSCONFIG1, &[(SYSCONFIG1, regs[SYSCONFIG1] & !0x4000)]);
}

#[test]
fn gpio_settings_write_their_fields() {
    let regs = [0xFFFF; 16];
    let data = read_image(&regs);
    check_write(&dev().set_gpio1(Gpio1Config::Low, &data), &regs, SYSCONFIG1, &[(SYSCONFIG1, 0xFFFE)]);
    check_write(
        &dev().set_gpio1(Gpio1Config::HighImpedance, &data),
        &regs,
        SYSCONFIG1,
        &[(SYSCONFIG1, 0xFFFC)],
    );
    check_write(
        &dev().set_gpio2(Gpio2Config::StcRdsInterrupt, &data),
        &regs,
        SYSCONFIG1,
        &[(SYSCONFIG1, 0xFFF7)],
    );
    check_write(
        &dev().set_gpio3(Gpio3Config::MonoStereoIndicator, &data),
        &regs,
        SYSCONFIG1,
        &[(SYSCONFIG1, 0xFFDF)],
    );
    let regs = [0u16; 16];
    let data = read_image(&regs);
    check_write(&dev().set_gpio1(Gpio1Config::High, &data), &regs, SYSCONFIG1, &[(SYSCONFIG1, 0x0003)]);
    check_write(&dev().set_gpio2(Gpio2Config::Low, &data), &regs, SYSCONFIG1, &[(SYSCONFIG1, 0x0008)]);
    check_write(&dev().set_gpio3(Gpio3Config::High, &data), &regs, SYSCONFIG1, &[(SYSCONFIG1, 0x0030)]);
}

#[test]
fn auto_gain_control_toggles_agcd() {
    let regs = sample_regs();
    let data = read_image(&regs);
    let out = dev().disable_auto_gain_control(&data);
    check_write(&out, &regs, SYSCONFIG1, &[(SYSCONFIG1, regs[SYSCONFIG1] | 0x0400)]);
    let out = dev().enable_auto_gain_control(&data);
    check_write(&out, &regs, SYSCONFIG1, &[(SYSCONFIG1, regs[SYSCONFIG1] & !0x0400)]);
}

#[test]
fn blend_level_writes_blndadj() {
    let regs = [0u16; 16];
    let out = dev().set_stereo_to_mono_blend_level(StereoToMonoBlendLevel::Dbuv25_43, &read_image(&regs));
    check_write(&out, &regs, SYSCONFIG1, &[(SYSCONFIG1, 0x00C0)]);
    let regs = [0xFFFF; 16];
    let out = dev().set_stereo_to_mono_blend_level(StereoToMonoBlendLevel::Dbuv37_55, &read_image(&regs));
    check_write(&out, &regs, SYSCONFIG1, &[(SYSCONFIG1, 0xFF7F)]);
}

#[test]
fn audio_high_z_toggles_ahizen() {
    let regs = sample_regs();
    let data = read_image(&regs);
    let out = dev().enable_audio_high_z(&data);
    check_write(&out, &regs, TEST1, &[(TEST1, regs[TEST1] | 0x4000)]);
    let out = dev().disable_audio_high_z(&data);
    check_write(&out, &regs, TEST1, &[(TEST1, regs[TEST1] & !0x4000)]);
}

#[test]
fn channel_reads_number_spacing_and_band() {
    let mut regs = [0u16; 16];
    regs[0x0B] = 0xFC00 | 101;
    regs[SYSCONFIG2] = 0x0010;
    let reading = dev().channel(&read_image(&regs));
    assert_eq!(
        reading,
        ChannelReading { channel: 101, spacing: ChannelSpacing::Khz100, starts_at_76_mhz: false }
    );
    regs[SYSCONFIG2] = 0x00B0;
    let reading = dev().channel(&read_image(&regs));
    assert_eq!(reading.spacing, ChannelSpacing::Khz50);
    assert!(reading.starts_at_76_mhz);
    regs[SYSCONFIG2] = 0x0000;
    assert_eq!(dev().channel(&read_image(&regs)).spacing, ChannelSpacing::Khz200);
}

#[test]
fn rssi_is_low_byte_of_status() {
    let mut data = [0u8; 12];
    data[0] = 0x15;
    data[1] = 0x2A;
    assert_eq!(dev().rssi(&data), 0x2A);
}

#[test]
fn device_id_splits_part_and_manufacturer() {
    let mut regs = [0u16; 16];
    regs[0] = 0x1242;
    assert_eq!(dev().device_id(&read_image(&regs)), (0x1, 0x242));
}

#[test]
fn chip_id_splits_revision_device_firmware() {
    let mut regs = [0u16; 16];
    regs[1] = 0x1253;
    assert_eq!(dev().chip_id(&read_image(&regs)), (0x04, 0x09, 0x13));
    regs[1] = 0xFFFF;
    assert_eq!(dev().chip_id(&read_image(&regs)), (0x3F, 0x0F, 0x3F));
}

#[test]
fn repeated_and_overwritten_settings() {
    // Setting a field twice: the second setting decides; writing the value a
    // register already holds sends it back unchanged.
    let regs = sample_regs();
    let first = dev().set_gpio2(Gpio2Config::High, &read_image(&regs));
    let mut after = regs;
    for (r, w) in decode_write(&first) {
        after[r] = w;
    }
    let second = dev().set_gpio2(Gpio2Config::Low, &read_image(&after));
    let direct = dev().set_gpio2(Gpio2Config::Low, &read_image(&regs));
    assert_eq!(second, direct);
    let again = dev().set_gpio2(Gpio2Config::High, &read_image(&after));
    check_write(&again, &after, SYSCONFIG1, &[]);
}

#[test]
fn disjoint_settings_commute() {
    let regs = sample_regs();
    let apply = |regs: &[u16; 16], out: Vec<u8>| {
        let mut next = *regs;
        for (r, w) in decode_write(&out) {
            next[r] = w;
        }
        next
    };
    let a = apply(&regs, dev().set_gpio1(Gpio1Config::High, &read_image(&regs)));
    let ab = apply(&a, dev().set_deemphasis(DeEmphasis::Us50, &read_image(&a)));
    let b = apply(&regs, dev().set_deemphasis(DeEmphasis::Us50, &read_image(&regs)));
    let ba = apply(&b, dev().set_gpio1(Gpio1Config::High, &read_image(&b)));
    assert_eq!(ab, ba);
}
