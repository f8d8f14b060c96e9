//! The driver: one method per operation of the chip.
//!
//! Each operation is one bus read followed, for the ones that change the
//! configuration, by one bus write. A method takes the bytes of the read and
//! returns what the operation yields: the bytes of the write, or a value
//! decoded from the registers. The bus itself is carried by the driver and
//! handed back by `destroy`.

use core::marker::PhantomData;
use vstd::prelude::*;

use crate::config::{
    band_bottom_khz, band_code, band_top_khz, blend_bottom_dbuv, blend_code, blend_top_dbuv, gpio1_output, gpio2_output, gpio3_output, gpio_field, halved, lemma_band_code_meaning, lemma_blend_code_steps, lemma_gpio1_code_layout, lemma_gpio2_code_layout, lemma_gpio3_code_layout, lemma_softmute_attenuation_steps, lemma_spacing_code_halves, lemma_spacing_read_back, softmute_attenuation_db, spacing_khz, spacing_of_code, two_bit_signed, gpio1_code, gpio2_code, gpio3_code, softmute_attenuation_code,
    softmute_rate_code, spacing_code, volume_code, volume_extended, Band, ChannelSpacing,
    DeEmphasis, Gpio1Config, Gpio2Config, Gpio3Config, OperationState, OutputMode,
    SoftmuteAttenuation, SoftmuteRate, StereoToMonoBlendLevel, Volume,
};
use crate::ic;
use crate::registers::{
    field, powercfg_from_read, powercfg_to_write, read_reg, registers_from_read,
    registers_to_write, sent_reg, status_from_read, with_field, with_flag, writes_back, AGCD,
    AHIZEN, BAND, BLNDADJ, CHIP_ID, DE, DEVICE, DEVICE_ID, DISABLE, DMUTE, DSMUTE, ENABLE,
    FIRMWARE, GPIO1, GPIO2, GPIO3, MANUFACTURER, MONO, PART_NUMBER, POWERCFG, READCHAN,
    READCHAN_CHANNEL, REVISION, RSSI, SMUTEA, SMUTER, SPACE, ST, STATUSRSSI, STCIEN, SYSCONFIG1,
    SYSCONFIG2, SYSCONFIG3, TEST1, VOLEXT, VOLUME, XOSCEN,
};

verus! {

/// Driver for a Si4702 or Si4703 on the bus `I2C`.
pub struct Si4703<I2C, IC> {
    /// The I²C bus that the chip is on.
    pub i2c: I2C,
    seeking_state: OperationState,
    tuning_state: OperationState,
    _ic: PhantomData<IC>,
}

/// The tuned channel as the registers give it: the frequency in MHz is
/// `channel * spacing + base`, with the base 76 MHz or 87.5 MHz.
#[derive(Debug, Clone, Copy, PartialEq, Eq)]
pub struct ChannelReading {
    /// Channel number (READCHAN)
    pub channel: u16,
    /// Channel spacing (SPACE)
    pub spacing: ChannelSpacing,
    /// Whether the band starts at 76 MHz rather than 87.5 MHz (BAND)
    pub starts_at_76_mhz: bool,
}

impl<I2C, IC> Si4703<I2C, IC> {
    /// The bus that the driver carries.
    pub closed spec fn bus(&self) -> I2C {
        self.i2c
    }

    /// Whether a seek is in progress.
    pub closed spec fn seeking(&self) -> OperationState {
        self.seeking_state
    }

    /// Whether a tune is in progress.
    pub closed spec fn tuning(&self) -> OperationState {
        self.tuning_state
    }
}

impl<I2C> Si4703<I2C, ic::Si4703> {
    /// Create new instance of a Si4703 device
    pub fn new(i2c: I2C) -> (dev: Self)
        ensures
            dev.bus() == i2c,
            dev.seeking() == OperationState::Idle,
            dev.tuning() == OperationState::Idle,
    {
        Si4703 {
            i2c,
            seeking_state: OperationState::Idle,
            tuning_state: OperationState::Idle,
            _ic: PhantomData,
        }
    }
}

impl<I2C> Si4703<I2C, ic::Si4702> {
    /// Create new instance of a Si4702 device
    pub fn new_si4702(i2c: I2C) -> (dev: Self)
        ensures
            dev.bus() == i2c,
            dev.seeking() == OperationState::Idle,
            dev.tuning() == OperationState::Idle,
    {
        Si4703 {
            i2c,
            seeking_state: OperationState::Idle,
            tuning_state: OperationState::Idle,
            _ic: PhantomData,
        }
    }
}

impl<I2C, IC> Si4703<I2C, IC> {
    /// Destroy driver instance, return I²C bus instance.
    pub fn destroy(self) -> (i2c: I2C)
        ensures
            i2c == self.bus(),
    {
        self.i2c
    }

    /// Enable the oscillator.
    ///
    /// This must be called before enabling the device.
    /// After calling this, a minimum of 500ms must be waited in order
    /// for the oscillator to power up.
    ///
    /// Takes a read of all registers; returns the write that sets XOSCEN.
    pub fn enable_oscillator(&self, data: &[u8; 32]) -> (out: Vec<u8>)
        ensures
            writes_back(out@, data@, TEST1 as int, set![TEST1 as int]),
            with_flag(sent_reg(out@, TEST1 as int), read_reg(data@, TEST1 as int), XOSCEN, true),
    {
        write_with_flag(data, TEST1, XOSCEN, true, TEST1)
    }

    /// Enable the device.
    ///
    /// After calling this it must be waited for the device to power up.
    /// See: Powerup time in the datasheet.
    /// On the Si4703, this is a maximum of 110ms.
    ///
    /// Takes a read up to POWERCFG; returns the write of POWERCFG with ENABLE
    /// set and DISABLE cleared.
    pub fn enable(&self, data: &[u8; 18]) -> (out: Vec<u8>)
        ensures
            out@.len() == 2,
            with_field(
                sent_reg(out@, POWERCFG as int),
                read_reg(data@, POWERCFG as int),
                ENABLE | DISABLE,
                0,
                ENABLE,
            ),
    {
        let powercfg = powercfg_from_read(data);
        let new = (powercfg | ENABLE) & !DISABLE;
        assert(with_field(new, powercfg, 0x0041u16, 0, 0x0001u16)) by (bit_vector)
            requires
                new == (powercfg | 0x0001u16) & !0x0040u16,
        ;
        assert(ENABLE | DISABLE == 0x0041u16) by (bit_vector);
        powercfg_to_write(new)
    }

    /// Disable the device (power down).
    ///
    /// Takes a read up to POWERCFG; returns the write of POWERCFG with both
    /// ENABLE and DISABLE set.
    pub fn disable(&self, data: &[u8; 18]) -> (out: Vec<u8>)
        ensures
            out@.len() == 2,
            with_field(
                sent_reg(out@, POWERCFG as int),
                read_reg(data@, POWERCFG as int),
                ENABLE | DISABLE,
                0,
                ENABLE | DISABLE,
            ),
    {
        let powercfg = powercfg_from_read(data);
        let new = powercfg | ENABLE | DISABLE;
        assert(with_field(new, powercfg, 0x0041u16, 0, 0x0041u16)) by (bit_vector)
            requires
                new == powercfg | 0x0001u16 | 0x0040u16,
        ;
        assert(ENABLE | DISABLE == 0x0041u16) by (bit_vector);
        powercfg_to_write(new)
    }

    /// Unmute (disable mute)
    ///
    /// Takes a read up to POWERCFG; returns the write of POWERCFG with DMUTE
    /// set.
    pub fn unmute(&self, data: &[u8; 18]) -> (out: Vec<u8>)
        ensures
            out@.len() == 2,
            with_flag(sent_reg(out@, POWERCFG as int), read_reg(data@, POWERCFG as int), DMUTE, true),
    {
        powercfg_with_flag(data, DMUTE, true)
    }

    /// Mute (enable mute)
    ///
    /// Takes a read up to POWERCFG; returns the write of POWERCFG with DMUTE
    /// cleared.
    pub fn mute(&self, data: &[u8; 18]) -> (out: Vec<u8>)
        ensures
            out@.len() == 2,
            with_flag(sent_reg(out@, POWERCFG as int), read_reg(data@, POWERCFG as int), DMUTE, false),
    {
        powercfg_with_flag(data, DMUTE, false)
    }

    /// Enable softmute
    ///
    /// Takes a read of all registers; returns the write that clears DSMUTE
    /// and sets the softmute rate and attenuation.
    pub fn enable_softmute(
        &self,
        rate: SoftmuteRate,
        attenuation: SoftmuteAttenuation,
        data: &[u8; 32],
    ) -> (out: Vec<u8>)
        ensures
            writes_back(
                out@,
                data@,
                SYSCONFIG3 as int,
                set![POWERCFG as int, SYSCONFIG3 as int],
            ),
            with_flag(
                sent_reg(out@, POWERCFG as int),
                read_reg(data@, POWERCFG as int),
                DSMUTE,
                false,
            ),
            field(sent_reg(out@, SYSCONFIG3 as int), SMUTER, 14) == softmute_rate_code(rate),
            field(sent_reg(out@, SYSCONFIG3 as int), SMUTEA, 12) == softmute_attenuation_code(
                attenuation,
            ),
            sent_reg(out@, SYSCONFIG3 as int) & !(SMUTER | SMUTEA) == read_reg(
                data@,
                SYSCONFIG3 as int,
            ) & !(SMUTER | SMUTEA),
            softmute_attenuation_db(attenuation) == 16 - 2 * field(
                sent_reg(out@, SYSCONFIG3 as int),
                SMUTEA,
                12,
            ),
    {
        proof {
            lemma_softmute_attenuation_steps(attenuation);
        }
        let rate_mask: u16 = match rate {
            SoftmuteRate::Fastest => 0,
            SoftmuteRate::Fast => 1,
            SoftmuteRate::Slow => 2,
            SoftmuteRate::Slowest => 3,
        };
        let attenuation_mask: u16 = match attenuation {
            SoftmuteAttenuation::Db16 => 0,
            SoftmuteAttenuation::Db14 => 1,
            SoftmuteAttenuation::Db12 => 2,
            SoftmuteAttenuation::Db10 => 3,
        };

        let mut regs = registers_from_read(data);
        let powercfg = regs[POWERCFG];
        let new_powercfg = powercfg & !DSMUTE;
        proof {
            lemma_flag_update(powercfg, DSMUTE, false);
        }
        regs.set(POWERCFG, new_powercfg);

        let sysconfig3 = regs[SYSCONFIG3];
        let new_sysconfig3 = (sysconfig3 & 0x0FFF) | (rate_mask << 14u16) | (attenuation_mask << 12u16);
        assert({
            &&& field(new_sysconfig3, 0xC000u16, 14) == rate_mask
            &&& field(new_sysconfig3, 0x3000u16, 12) == attenuation_mask
            &&& new_sysconfig3 & !(0xC000u16 | 0x3000u16) == sysconfig3 & !(0xC000u16 | 0x3000u16)
        }) by (bit_vector)
            requires
                new_sysconfig3 == (sysconfig3 & 0x0FFFu16) | (rate_mask << 14u16) | (
                attenuation_mask << 12u16),
                rate_mask < 4,
                attenuation_mask < 4,
        ;
        regs.set(SYSCONFIG3, new_sysconfig3);
        registers_to_write(&regs, SYSCONFIG3)
    }

    /// Disable softmute
    ///
    /// Takes a read up to POWERCFG; returns the write of POWERCFG with DSMUTE
    /// set.
    pub fn disable_softmute(&self, data: &[u8; 18]) -> (out: Vec<u8>)
        ensures
            out@.len() == 2,
            with_flag(sent_reg(out@, POWERCFG as int), read_reg(data@, POWERCFG as int), DSMUTE, true),
    {
        powercfg_with_flag(data, DSMUTE, true)
    }

    /// Get output mode: Stereo/Mono
    ///
    /// Takes a read of STATUSRSSI; the mode is stereo exactly when ST is set.
    pub fn output_mode(&self, data: &[u8; 2]) -> (mode: OutputMode)
        ensures
            mode == (if read_reg(data@, STATUSRSSI as int) & ST != 0 {
                OutputMode::Stereo
            } else {
                OutputMode::Mono
            }),
    {
        let status = status_from_read(data);
        if (status & ST) != 0 {
            OutputMode::Stereo
        } else {
            OutputMode::Mono
        }
    }

    /// Set output mode: Stereo/Mono
    ///
    /// Takes a read up to POWERCFG; returns the write of POWERCFG with MONO
    /// set for mono and cleared for stereo.
    pub fn set_output_mode(&self, mode: OutputMode, data: &[u8; 18]) -> (out: Vec<u8>)
        ensures
            out@.len() == 2,
            with_flag(
                sent_reg(out@, POWERCFG as int),
                read_reg(data@, POWERCFG as int),
                MONO,
                mode == OutputMode::Mono,
            ),
    {
        match mode {
            OutputMode::Stereo => powercfg_with_flag(data, MONO, false),
            OutputMode::Mono => powercfg_with_flag(data, MONO, true),
        }
    }

    /// Set de-emphasis
    ///
    /// Takes a read of all registers; returns the write that sets DE for
    /// 50 µs and clears it for 75 µs.
    pub fn set_deemphasis(&self, de: DeEmphasis, data: &[u8; 32]) -> (out: Vec<u8>)
        ensures
            writes_back(out@, data@, SYSCONFIG1 as int, set![SYSCONFIG1 as int]),
            with_flag(
                sent_reg(out@, SYSCONFIG1 as int),
                read_reg(data@, SYSCONFIG1 as int),
                DE,
                de == DeEmphasis::Us50,
            ),
    {
        match de {
            DeEmphasis::Us75 => write_with_flag(data, SYSCONFIG1, DE, false, SYSCONFIG1),
            DeEmphasis::Us50 => write_with_flag(data, SYSCONFIG1, DE, true, SYSCONFIG1),
        }
    }

    /// Set the volume
    ///
    /// This will automatically activate or deactivate the extended volume
    /// range as appropriate.
    ///
    /// Takes a read of all registers. Muting writes up to SYSCONFIG2 and
    /// clears VOLUME; any other volume also writes SYSCONFIG3, with VOLEXT
    /// selecting the range that holds the volume.
    pub fn set_volume(&self, volume: Volume, data: &[u8; 32]) -> (out: Vec<u8>)
        ensures
            volume == Volume::Mute ==> writes_back(
                out@,
                data@,
                SYSCONFIG2 as int,
                set![SYSCONFIG2 as int],
            ),
            volume != Volume::Mute ==> writes_back(
                out@,
                data@,
                SYSCONFIG3 as int,
                set![SYSCONFIG2 as int, SYSCONFIG3 as int],
            ),
            with_field(
                sent_reg(out@, SYSCONFIG2 as int),
                read_reg(data@, SYSCONFIG2 as int),
                VOLUME,
                0,
                volume_code(volume),
            ),
            volume != Volume::Mute ==> with_flag(
                sent_reg(out@, SYSCONFIG3 as int),
                read_reg(data@, SYSCONFIG3 as int),
                VOLEXT,
                volume_extended(volume),
            ),
    {
        let (volume_mask, volext) = match volume {
            Volume::Mute => (0_u16, false),
            Volume::Dbfsm58 => (1, true),
            Volume::Dbfsm56 => (2, true),
            Volume::Dbfsm54 => (3, true),
            Volume::Dbfsm52 => (4, true),
            Volume::Dbfsm50 => (5, true),
            Volume::Dbfsm48 => (6, true),
            Volume::Dbfsm46 => (7, true),
            Volume::Dbfsm44 => (8, true),
            Volume::Dbfsm42 => (9, true),
            Volume::Dbfsm40 => (10, true),
            Volume::Dbfsm38 => (11, true),
            Volume::Dbfsm36 => (12, true),
            Volume::Dbfsm34 => (13, true),
            Volume::Dbfsm32 => (14, true),
            Volume::Dbfsm30 => (15, true),
            Volume::Dbfsm28 => (1, false),
            Volume::Dbfsm26 => (2, false),
            Volume::Dbfsm24 => (3, false),
            Volume::Dbfsm22 => (4, false),
            Volume::Dbfsm20 => (5, false),
            Volume::Dbfsm18 => (6, false),
            Volume::Dbfsm16 => (7, false),
            Volume::Dbfsm14 => (8, false),
            Volume::Dbfsm12 => (9, false),
            Volume::Dbfsm10 => (10, false),
            Volume::Dbfsm8 => (11, false),
            Volume::Dbfsm6 => (12, false),
            Volume::Dbfsm4 => (13, false),
            Volume::Dbfsm2 => (14, false),
            Volume::Dbfs0 => (15, false),
        };
        assert(volume_mask == volume_code(volume));
        assert(volume != Volume::Mute ==> volext == volume_extended(volume));
        assert(volume_mask == 0 <==> volume == Volume::Mute);

        let mut regs = registers_from_read(data);
        let sysconfig2 = regs[SYSCONFIG2];
        let new_sysconfig2 = (sysconfig2 & 0xFFF0) | volume_mask;
        assert(with_field(new_sysconfig2, sysconfig2, 0x000Fu16, 0, volume_mask)) by (bit_vector)
            requires
                new_sysconfig2 == (sysconfig2 & 0xFFF0u16) | volume_mask,
                volume_mask < 16,
        ;
        regs.set(SYSCONFIG2, new_sysconfig2);
        if volume_mask == 0 {
            registers_to_write(&regs, SYSCONFIG2)
        } else {
            let sysconfig3 = regs[SYSCONFIG3];
            let new_sysconfig3 = if volext {
                sysconfig3 | VOLEXT
            } else {
                sysconfig3 & !VOLEXT
            };
            proof {
                lemma_flag_update(sysconfig3, VOLEXT, volext);
            }
            regs.set(SYSCONFIG3, new_sysconfig3);
            registers_to_write(&regs, SYSCONFIG3)
        }
    }

    /// Set band
    ///
    /// Takes a read of all registers; returns the write that sets BAND.
    pub fn set_band(&self, band: Band, data: &[u8; 32]) -> (out: Vec<u8>)
        ensures
            writes_back(out@, data@, SYSCONFIG2 as int, set![SYSCONFIG2 as int]),
            with_field(
                sent_reg(out@, SYSCONFIG2 as int),
                read_reg(data@, SYSCONFIG2 as int),
                BAND,
                6,
                band_code(band),
            ),
            field(sent_reg(out@, SYSCONFIG2 as int), BAND, 6) <= 2,
            (field(sent_reg(out@, SYSCONFIG2 as int), BAND, 6) == 0) == (band_bottom_khz(band) == 87500),
            (field(sent_reg(out@, SYSCONFIG2 as int), BAND, 6) == 2) == (band_top_khz(band) == 90000),
    {
        proof {
            lemma_band_code_meaning(band);
        }
        let mask: u16 = match band {
            Band::Mhz875_108 => 0,
            Band::Mhz76_108 => 1,
            Band::Mhz76_90 => 2,
        };
        proof {
            lemma_two_bit_field(mask, 6);
        }
        assert(BAND == 3u16 << 6u16) by (bit_vector);
        write_with_field(data, SYSCONFIG2, BAND, 6, mask, SYSCONFIG2)
    }

    /// Set channel spacing
    ///
    /// Takes a read of all registers; returns the write that sets SPACE.
    pub fn set_channel_spacing(&self, spacing: ChannelSpacing, data: &[u8; 32]) -> (out: Vec<u8>)
        ensures
            writes_back(out@, data@, SYSCONFIG2 as int, set![SYSCONFIG2 as int]),
            with_field(
                sent_reg(out@, SYSCONFIG2 as int),
                read_reg(data@, SYSCONFIG2 as int),
                SPACE,
                4,
                spacing_code(spacing),
            ),
            field(sent_reg(out@, SYSCONFIG2 as int), SPACE, 4) <= 2,
            spacing_khz(spacing) == halved(200, field(sent_reg(out@, SYSCONFIG2 as int), SPACE, 4) as nat),
            spacing_of_code(field(sent_reg(out@, SYSCONFIG2 as int), SPACE, 4)) == spacing,
    {
        proof {
            lemma_spacing_code_halves(spacing);
            lemma_spacing_read_back(spacing, 0);
        }
        let mask: u16 = match spacing {
            ChannelSpacing::Khz200 => 0,
            ChannelSpacing::Khz100 => 1,
            ChannelSpacing::Khz50 => 2,
        };
        proof {
            lemma_two_bit_field(mask, 4);
        }
        assert(SPACE == 3u16 << 4u16) by (bit_vector);
        write_with_field(data, SYSCONFIG2, SPACE, 4, mask, SYSCONFIG2)
    }

    /// Enable generating STC interrupts.
    ///
    /// For this to be useful, gpio2 pin must be configured to be
    /// used as STC/RDS interrupt.
    ///
    /// Takes a read of all registers; returns the write that sets STCIEN.
    pub fn enable_stc_interrupts(&self, data: &[u8; 32]) -> (out: Vec<u8>)
        ensures
            writes_back(out@, data@, SYSCONFIG1 as int, set![SYSCONFIG1 as int]),
            with_flag(sent_reg(out@, SYSCONFIG1 as int), read_reg(data@, SYSCONFIG1 as int), STCIEN, true),
    {
        write_with_flag(data, SYSCONFIG1, STCIEN, true, SYSCONFIG1)
    }

    /// Disable generating STC interrupts.
    ///
    /// Takes a read of all registers; returns the write that clears STCIEN.
    pub fn disable_stc_interrupts(&self, data: &[u8; 32]) -> (out: Vec<u8>)
        ensures
            writes_back(out@, data@, SYSCONFIG1 as int, set![SYSCONFIG1 as int]),
            with_flag(sent_reg(out@, SYSCONFIG1 as int), read_reg(data@, SYSCONFIG1 as int), STCIEN, false),
    {
        write_with_flag(data, SYSCONFIG1, STCIEN, false, SYSCONFIG1)
    }

    /// Set the GPIO1
    ///
    /// Takes a read of all registers; returns the write that sets GPIO1.
    pub fn set_gpio1(&self, config: Gpio1Config, data: &[u8; 32]) -> (out: Vec<u8>)
        ensures
            writes_back(out@, data@, SYSCONFIG1 as int, set![SYSCONFIG1 as int]),
            with_field(
                sent_reg(out@, SYSCONFIG1 as int),
                read_reg(data@, SYSCONFIG1 as int),
                GPIO1,
                0,
                gpio1_code(config),
            ),
            field(sent_reg(out@, SYSCONFIG1 as int), GPIO1, 0) == gpio_field(gpio1_output(config), false),
    {
        proof {
            lemma_gpio1_code_layout(config);
        }
        let mask: u16 = match config {
            Gpio1Config::HighImpedance => 0,
            Gpio1Config::Low => 2,
            Gpio1Config::High => 3,
        };
        proof {
            lemma_two_bit_field(mask, 0);
        }
        assert(GPIO1 == 3u16 << 0u16) by (bit_vector);
        write_with_field(data, SYSCONFIG1, GPIO1, 0, mask, SYSCONFIG1)
    }

    /// Set GPIO2 function / status
    ///
    /// Takes a read of all registers; returns the write that sets GPIO2.
    pub fn set_gpio2(&self, config: Gpio2Config, data: &[u8; 32]) -> (out: Vec<u8>)
        ensures
            writes_back(out@, data@, SYSCONFIG1 as int, set![SYSCONFIG1 as int]),
            with_field(
                sent_reg(out@, SYSCONFIG1 as int),
                read_reg(data@, SYSCONFIG1 as int),
                GPIO2,
                2,
                gpio2_code(config),
            ),
            field(sent_reg(out@, SYSCONFIG1 as int), GPIO2, 2) == gpio_field(
                gpio2_output(config),
                config == Gpio2Config::StcRdsInterrupt,
            ),
    {
        proof {
            lemma_gpio2_code_layout(config);
        }
        let mask: u16 = match config {
            Gpio2Config::HighImpedance => 0,
            Gpio2Config::StcRdsInterrupt => 1,
            Gpio2Config::Low => 2,
            Gpio2Config::High => 3,
        };
        proof {
            lemma_two_bit_field(mask, 2);
        }
        assert(GPIO2 == 3u16 << 2u16) by (bit_vector);
        write_with_field(data, SYSCONFIG1, GPIO2, 2, mask, SYSCONFIG1)
    }

    /// Set the GPIO3
    ///
    /// Takes a read of all registers; returns the write that sets GPIO3.
    pub fn set_gpio3(&self, config: Gpio3Config, data: &[u8; 32]) -> (out: Vec<u8>)
        ensures
            writes_back(out@, data@, SYSCONFIG1 as int, set![SYSCONFIG1 as int]),
            with_field(
                sent_reg(out@, SYSCONFIG1 as int),
                read_reg(data@, SYSCONFIG1 as int),
                GPIO3,
                4,
                gpio3_code(config),
            ),
            field(sent_reg(out@, SYSCONFIG1 as int), GPIO3, 4) == gpio_field(
                gpio3_output(config),
                config == Gpio3Config::MonoStereoIndicator,
            ),
    {
        proof {
            lemma_gpio3_code_layout(config);
        }
        let mask: u16 = match config {
            Gpio3Config::HighImpedance => 0,
            Gpio3Config::MonoStereoIndicator => 1,
            Gpio3Config::Low => 2,
            Gpio3Config::High => 3,
        };
        proof {
            lemma_two_bit_field(mask, 4);
        }
        assert(GPIO3 == 3u16 << 4u16) by (bit_vector);
        write_with_field(data, SYSCONFIG1, GPIO3, 4, mask, SYSCONFIG1)
    }

    /// Enable automatic gain control (default).
    ///
    /// Takes a read of all registers; returns the write that clears AGCD.
    pub fn enable_auto_gain_control(&self, data: &[u8; 32]) -> (out: Vec<u8>)
        ensures
            writes_back(out@, data@, SYSCONFIG1 as int, set![SYSCONFIG1 as int]),
            with_flag(sent_reg(out@, SYSCONFIG1 as int), read_reg(data@, SYSCONFIG1 as int), AGCD, false),
    {
        write_with_flag(data, SYSCONFIG1, AGCD, false, SYSCONFIG1)
    }

    /// Disable automatic gain control.
    ///
    /// Takes a read of all registers; returns the write that sets AGCD.
    pub fn disable_auto_gain_control(&self, data: &[u8; 32]) -> (out: Vec<u8>)
        ensures
            writes_back(out@, data@, SYSCONFIG1 as int, set![SYSCONFIG1 as int]),
            with_flag(sent_reg(out@, SYSCONFIG1 as int), read_reg(data@, SYSCONFIG1 as int), AGCD, true),
    {
        write_with_flag(data, SYSCONFIG1, AGCD, true, SYSCONFIG1)
    }

    /// Set the stereo to mono blend level
    ///
    /// Takes a read of all registers; returns the write that sets BLNDADJ.
    pub fn set_stereo_to_mono_blend_level(
        &self,
        level: StereoToMonoBlendLevel,
        data: &[u8; 32],
    ) -> (out: Vec<u8>)
        ensures
            writes_back(out@, data@, SYSCONFIG1 as int, set![SYSCONFIG1 as int]),
            with_field(
                sent_reg(out@, SYSCONFIG1 as int),
                read_reg(data@, SYSCONFIG1 as int),
                BLNDADJ,
                6,
                blend_code(level),
            ),
            blend_bottom_dbuv(level) == 31 + 6 * two_bit_signed(field(sent_reg(out@, SYSCONFIG1 as int), BLNDADJ, 6)),
    {
        proof {
            lemma_blend_code_steps(level);
        }
        let mask: u16 = match level {
            StereoToMonoBlendLevel::Dbuv31_49 => 0,
            StereoToMonoBlendLevel::Dbuv37_55 => 1,
            StereoToMonoBlendLevel::Dbuv19_37 => 2,
            StereoToMonoBlendLevel::Dbuv25_43 => 3,
        };
        proof {
            lemma_two_bit_field(mask, 6);
        }
        assert(BLNDADJ == 3u16 << 6u16) by (bit_vector);
        write_with_field(data, SYSCONFIG1, BLNDADJ, 6, mask, SYSCONFIG1)
    }

    /// Enable the audio High-Z.
    ///
    /// This must be called before enabling the device.
    ///
    /// Takes a read of all registers; returns the write that sets AHIZEN.
    pub fn enable_audio_high_z(&self, data: &[u8; 32]) -> (out: Vec<u8>)
        ensures
            writes_back(out@, data@, TEST1 as int, set![TEST1 as int]),
            with_flag(sent_reg(out@, TEST1 as int), read_reg(data@, TEST1 as int), AHIZEN, true),
    {
        write_with_flag(data, TEST1, AHIZEN, true, TEST1)
    }

    /// Disable the audio High-Z.
    ///
    /// This must be called before enabling the device.
    ///
    /// Takes a read of all registers; returns the write that clears AHIZEN.
    pub fn disable_audio_high_z(&self, data: &[u8; 32]) -> (out: Vec<u8>)
        ensures
            writes_back(out@, data@, TEST1 as int, set![TEST1 as int]),
            with_flag(sent_reg(out@, TEST1 as int), read_reg(data@, TEST1 as int), AHIZEN, false),
    {
        write_with_flag(data, TEST1, AHIZEN, false, TEST1)
    }

    /// Read the channel
    ///
    /// Takes a read of all registers; returns the channel number, the channel
    /// spacing and the start of the band, from which the frequency follows.
    pub fn channel(&self, data: &[u8; 32]) -> (reading: ChannelReading)
        ensures
            reading.channel == field(read_reg(data@, READCHAN as int), READCHAN_CHANNEL, 0),
            reading.spacing == spacing_of_code(field(read_reg(data@, SYSCONFIG2 as int), SPACE, 4)),
            reading.starts_at_76_mhz == (field(read_reg(data@, SYSCONFIG2 as int), BAND, 6) != 0),
            field(read_reg(data@, SYSCONFIG2 as int), SPACE, 4) <= 2 ==> spacing_khz(reading.spacing) == halved(200, field(read_reg(data@, SYSCONFIG2 as int), SPACE, 4) as nat),
            field(read_reg(data@, SYSCONFIG2 as int), SPACE, 4) > 2 ==> reading.spacing == ChannelSpacing::Khz50,
    {
        proof {
            lemma_spacing_read_back(ChannelSpacing::Khz50, field(read_reg(data@, SYSCONFIG2 as int), SPACE, 4));
        }
        let regs = registers_from_read(data);
        let sysconfig2 = regs[SYSCONFIG2];
        let spacing = (sysconfig2 & (0b11 << 4u16)) >> 4u16;
        let spacing = match spacing {
            0 => ChannelSpacing::Khz200,
            1 => ChannelSpacing::Khz100,
            _ => ChannelSpacing::Khz50,
        };
        let base = sysconfig2 & (0b11 << 6u16);
        let channel = regs[READCHAN] & 0x3FF;
        let readchan = regs[READCHAN];
        assert({
            &&& (sysconfig2 & (3u16 << 4u16)) >> 4u16 == (sysconfig2 & 0x0030u16) >> 4u16
            &&& (sysconfig2 & (3u16 << 6u16) == 0) == ((sysconfig2 & 0x00C0u16) >> 6u16 == 0)
            &&& readchan & 0x3FFu16 == (readchan & 0x03FFu16) >> 0u16
        }) by (bit_vector);
        ChannelReading { channel, spacing, starts_at_76_mhz: base != 0 }
    }

    /// Read the rssi
    ///
    /// Takes a read of the RDS registers, which starts with STATUSRSSI; the
    /// received signal strength is its low byte.
    pub fn rssi(&self, data: &[u8; 12]) -> (rssi: u8)
        ensures
            rssi == field(read_reg(data@, STATUSRSSI as int), RSSI, 0),
    {
        let status = status_from_read(data);
        let lower_byte: u8 = (status & 0xFF) as u8;
        assert((((status & 0xFFu16) as u8) as u16) == (status & 0x00FFu16) >> 0u16) by (bit_vector);
        lower_byte
    }

    /// Get the device ID
    ///
    /// Returns the (part number, manufacturer ID) as a tuple
    pub fn device_id(&self, data: &[u8; 32]) -> (id: (u8, u16))
        ensures
            id.0 == field(read_reg(data@, DEVICE_ID as int), PART_NUMBER, 12),
            id.1 == field(read_reg(data@, DEVICE_ID as int), MANUFACTURER, 0),
    {
        let regs = registers_from_read(data);
        let device_id = regs[DEVICE_ID];
        let pn = ((device_id & 0xF000) >> 12u16) as u8;
        let mfid = device_id & 0xFFF;
        assert({
            &&& ((((device_id & 0xF000u16) >> 12u16) as u8) as u16) == (device_id & 0xF000u16) >> 12u16
            &&& device_id & 0x0FFFu16 == (device_id & 0x0FFFu16) >> 0u16
        }) by (bit_vector);
        (pn, mfid)
    }

    /// Get the chip ID
    ///
    /// Returns the (revision, device, firmware) as a tuple
    pub fn chip_id(&self, data: &[u8; 32]) -> (id: (u8, u8, u8))
        ensures
            id.0 == field(read_reg(data@, CHIP_ID as int), REVISION, 10),
            id.1 == field(read_reg(data@, CHIP_ID as int), DEVICE, 6),
            id.2 == field(read_reg(data@, CHIP_ID as int), FIRMWARE, 0),
    {
        let regs = registers_from_read(data);
        let chip_id = regs[CHIP_ID];
        let rev = ((chip_id & 0xFC00) >> 10u16) as u8;
        let dev = ((chip_id & 0x3C0) >> 6u16) as u8;
        let firmware = (chip_id & 0x3F) as u8;
        assert({
            &&& ((((chip_id & 0xFC00u16) >> 10u16) as u8) as u16) == (chip_id & 0xFC00u16) >> 10u16
            &&& ((((chip_id & 0x03C0u16) >> 6u16) as u8) as u16) == (chip_id & 0x03C0u16) >> 6u16
            &&& (((chip_id & 0x003Fu16) as u8) as u16) == (chip_id & 0x003Fu16) >> 0u16
        }) by (bit_vector);
        (rev, dev, firmware)
    }
}

/// `(old | flag)` sets and `(old & !flag)` clears exactly the bits of `flag`.
proof fn lemma_flag_update(old: u16, flag: u16, on: bool)
    ensures
        with_flag(if on { old | flag } else { old & !flag }, old, flag, on),
{
    let new = if on { old | flag } else { old & !flag };
    assert(with_flag(new, old, flag, on)) by (bit_vector)
        requires
            new == if on { old | flag } else { old & !flag },
    ;
}

/// A two-bit value shifted to `shift` stays inside the field `3 << shift` and
/// shifts back unchanged.
proof fn lemma_two_bit_field(value: u16, shift: u16)
    requires
        value < 4,
        shift <= 14,
    ensures
        (value << shift) & (3u16 << shift) == value << shift,
        (value << shift) >> shift == value,
{
    assert({
        &&& (value << shift) & (3u16 << shift) == value << shift
        &&& (value << shift) >> shift == value
    }) by (bit_vector)
        requires
            value < 4,
            shift <= 14,
    ;
}

/// The write of the registers from POWERCFG up to `last` after a read of all
/// registers, with `flag` of register `reg` set (`on`) or cleared.
fn write_with_flag(data: &[u8; 32], reg: usize, flag: u16, on: bool, last: usize) -> (out: Vec<u8>)
    requires
        POWERCFG <= reg <= last < 16,
    ensures
        writes_back(out@, data@, last as int, set![reg as int]),
        with_flag(sent_reg(out@, reg as int), read_reg(data@, reg as int), flag, on),
{
    let mut regs = registers_from_read(data);
    let old = regs[reg];
    let new = if on {
        old | flag
    } else {
        old & !flag
    };
    proof {
        lemma_flag_update(old, flag, on);
    }
    regs.set(reg, new);
    registers_to_write(&regs, last)
}

/// The write of the registers from POWERCFG up to `last` after a read of all
/// registers, with the field of register `reg` under `mask` set to `value`.
fn write_with_field(
    data: &[u8; 32],
    reg: usize,
    mask: u16,
    shift: u16,
    value: u16,
    last: usize,
) -> (out: Vec<u8>)
    requires
        POWERCFG <= reg <= last < 16,
        shift < 16,
        (value << shift) & mask == value << shift,
        (value << shift) >> shift == value,
    ensures
        writes_back(out@, data@, last as int, set![reg as int]),
        with_field(sent_reg(out@, reg as int), read_reg(data@, reg as int), mask, shift, value),
{
    let mut regs = registers_from_read(data);
    let old = regs[reg];
    let new = (old & !mask) | (value << shift);
    assert(with_field(new, old, mask, shift, value)) by (bit_vector)
        requires
            new == (old & !mask) | (value << shift),
            shift < 16,
            (value << shift) & mask == value << shift,
            (value << shift) >> shift == value,
    ;
    regs.set(reg, new);
    registers_to_write(&regs, last)
}

/// The write of POWERCFG after a read up to it, with `flag` set (`on`) or
/// cleared.
fn powercfg_with_flag(data: &[u8; 18], flag: u16, on: bool) -> (out: Vec<u8>)
    ensures
        out@.len() == 2,
        with_flag(sent_reg(out@, POWERCFG as int), read_reg(data@, POWERCFG as int), flag, on),
{
    let powercfg = powercfg_from_read(data);
    let new = if on {
        powercfg | flag
    } else {
        powercfg & !flag
    };
    proof {
        lemma_flag_update(powercfg, flag, on);
    }
    powercfg_to_write(new)
}

} // verus!
