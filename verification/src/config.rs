//! The settings that the driver's operations take and return, and the register
//! values that select them.

use vstd::prelude::*;

verus! {

/// Whether a seek or a tune is in progress.
#[derive(Debug, Clone, Copy, PartialEq, Eq)]
pub enum OperationState {
    Idle,
    Busy,
}

/// Audio output mode.
#[derive(Debug, Clone, Copy, PartialEq, Eq)]
pub enum OutputMode {
    Stereo,
    Mono,
}

/// De-emphasis time constant.
#[derive(Debug, Clone, Copy, PartialEq, Eq)]
pub enum DeEmphasis {
    /// 75 µs (used in the USA)
    Us75,
    /// 50 µs (used in Europe, Australia and Japan)
    Us50,
}

/// Band.
#[derive(Debug, Clone, Copy, PartialEq, Eq)]
pub enum Band {
    /// 87.5-108 MHz (USA, Europe)
    Mhz875_108,
    /// 76-108 MHz (Japan wide band)
    Mhz76_108,
    /// 76-90 MHz (Japan)
    Mhz76_90,
}

/// Channel spacing.
#[derive(Debug, Clone, Copy, PartialEq, Eq)]
pub enum ChannelSpacing {
    /// 200 kHz (USA, Australia)
    Khz200,
    /// 100 kHz (Europe, Japan)
    Khz100,
    /// 50 kHz
    Khz50,
}

/// Softmute attack and recover rate.
#[derive(Debug, Clone, Copy, PartialEq, Eq)]
pub enum SoftmuteRate {
    Fastest,
    Fast,
    Slow,
    Slowest,
}

/// Softmute attenuation.
#[derive(Debug, Clone, Copy, PartialEq, Eq)]
pub enum SoftmuteAttenuation {
    Db16,
    Db14,
    Db12,
    Db10,
}

/// GPIO1 configuration.
#[derive(Debug, Clone, Copy, PartialEq, Eq)]
pub enum Gpio1Config {
    HighImpedance,
    Low,
    High,
}

/// GPIO2 configuration.
#[derive(Debug, Clone, Copy, PartialEq, Eq)]
pub enum Gpio2Config {
    HighImpedance,
    /// Seek/Tune complete and RDS ready interrupt
    StcRdsInterrupt,
    Low,
    High,
}

/// GPIO3 configuration.
#[derive(Debug, Clone, Copy, PartialEq, Eq)]
pub enum Gpio3Config {
    HighImpedance,
    /// Mono/Stereo indicator
    MonoStereoIndicator,
    Low,
    High,
}

/// Stereo to mono blend level, as an RSSI range in dBµV.
#[derive(Debug, Clone, Copy, PartialEq, Eq)]
pub enum StereoToMonoBlendLevel {
    /// 31-49 dBµV (default)
    Dbuv31_49,
    /// 37-55 dBµV (+6 dB)
    Dbuv37_55,
    /// 19-37 dBµV (-12 dB)
    Dbuv19_37,
    /// 25-43 dBµV (-6 dB)
    Dbuv25_43,
}

/// Volume, in dB below full scale.
#[derive(Debug, Clone, Copy, PartialEq, Eq)]
pub enum Volume {
    Mute,
    Dbfsm58,
    Dbfsm56,
    Dbfsm54,
    Dbfsm52,
    Dbfsm50,
    Dbfsm48,
    Dbfsm46,
    Dbfsm44,
    Dbfsm42,
    Dbfsm40,
    Dbfsm38,
    Dbfsm36,
    Dbfsm34,
    Dbfsm32,
    Dbfsm30,
    Dbfsm28,
    Dbfsm26,
    Dbfsm24,
    Dbfsm22,
    Dbfsm20,
    Dbfsm18,
    Dbfsm16,
    Dbfsm14,
    Dbfsm12,
    Dbfsm10,
    Dbfsm8,
    Dbfsm6,
    Dbfsm4,
    Dbfsm2,
    Dbfs0,
}

/// BAND field value that selects `band`.
pub open spec fn band_code(band: Band) -> u16 {
    match band {
        Band::Mhz875_108 => 0,
        Band::Mhz76_108 => 1,
        Band::Mhz76_90 => 2,
    }
}

/// SPACE field value that selects `spacing`.
pub open spec fn spacing_code(spacing: ChannelSpacing) -> u16 {
    match spacing {
        ChannelSpacing::Khz200 => 0,
        ChannelSpacing::Khz100 => 1,
        ChannelSpacing::Khz50 => 2,
    }
}

/// SMUTER field value that selects `rate`.
pub open spec fn softmute_rate_code(rate: SoftmuteRate) -> u16 {
    match rate {
        SoftmuteRate::Fastest => 0,
        SoftmuteRate::Fast => 1,
        SoftmuteRate::Slow => 2,
        SoftmuteRate::Slowest => 3,
    }
}

/// SMUTEA field value that selects `attenuation`.
pub open spec fn softmute_attenuation_code(attenuation: SoftmuteAttenuation) -> u16 {
    match attenuation {
        SoftmuteAttenuation::Db16 => 0,
        SoftmuteAttenuation::Db14 => 1,
        SoftmuteAttenuation::Db12 => 2,
        SoftmuteAttenuation::Db10 => 3,
    }
}

/// GPIO1 field value that selects `config`.
pub open spec fn gpio1_code(config: Gpio1Config) -> u16 {
    match config {
        Gpio1Config::HighImpedance => 0,
        Gpio1Config::Low => 2,
        Gpio1Config::High => 3,
    }
}

/// GPIO2 field value that selects `config`.
pub open spec fn gpio2_code(config: Gpio2Config) -> u16 {
    match config {
        Gpio2Config::HighImpedance => 0,
        Gpio2Config::StcRdsInterrupt => 1,
        Gpio2Config::Low => 2,
        Gpio2Config::High => 3,
    }
}

/// GPIO3 field value that selects `config`.
pub open spec fn gpio3_code(config: Gpio3Config) -> u16 {
    match config {
        Gpio3Config::HighImpedance => 0,
        Gpio3Config::MonoStereoIndicator => 1,
        Gpio3Config::Low => 2,
        Gpio3Config::High => 3,
    }
}

/// BLNDADJ field value that selects `level`.
pub open spec fn blend_code(level: StereoToMonoBlendLevel) -> u16 {
    match level {
        StereoToMonoBlendLevel::Dbuv31_49 => 0,
        StereoToMonoBlendLevel::Dbuv37_55 => 1,
        StereoToMonoBlendLevel::Dbuv19_37 => 2,
        StereoToMonoBlendLevel::Dbuv25_43 => 3,
    }
}

/// The level in dBFS that `volume` names; none for `Mute`.
pub open spec fn volume_level(volume: Volume) -> Option<int> {
    match volume {
        Volume::Mute => None,
        Volume::Dbfsm58 => Some(-58),
        Volume::Dbfsm56 => Some(-56),
        Volume::Dbfsm54 => Some(-54),
        Volume::Dbfsm52 => Some(-52),
        Volume::Dbfsm50 => Some(-50),
        Volume::Dbfsm48 => Some(-48),
        Volume::Dbfsm46 => Some(-46),
        Volume::Dbfsm44 => Some(-44),
        Volume::Dbfsm42 => Some(-42),
        Volume::Dbfsm40 => Some(-40),
        Volume::Dbfsm38 => Some(-38),
        Volume::Dbfsm36 => Some(-36),
        Volume::Dbfsm34 => Some(-34),
        Volume::Dbfsm32 => Some(-32),
        Volume::Dbfsm30 => Some(-30),
        Volume::Dbfsm28 => Some(-28),
        Volume::Dbfsm26 => Some(-26),
        Volume::Dbfsm24 => Some(-24),
        Volume::Dbfsm22 => Some(-22),
        Volume::Dbfsm20 => Some(-20),
        Volume::Dbfsm18 => Some(-18),
        Volume::Dbfsm16 => Some(-16),
        Volume::Dbfsm14 => Some(-14),
        Volume::Dbfsm12 => Some(-12),
        Volume::Dbfsm10 => Some(-10),
        Volume::Dbfsm8 => Some(-8),
        Volume::Dbfsm6 => Some(-6),
        Volume::Dbfsm4 => Some(-4),
        Volume::Dbfsm2 => Some(-2),
        Volume::Dbfs0 => Some(0),
    }
}

/// Whether `volume` lies in the extended range (VOLEXT set), which spans
/// -58 to -30 dBFS; the normal range spans -28 to 0 dBFS.
pub open spec fn volume_extended(volume: Volume) -> bool {
    match volume_level(volume) {
        Some(db) => db <= -30,
        None => false,
    }
}

/// VOLUME field value that selects `volume`: 0 mutes, and each step above it
/// is 2 dB louder, starting at the bottom of the range that VOLEXT selects.
pub open spec fn volume_code(volume: Volume) -> u16 {
    match volume_level(volume) {
        Some(db) => (if db <= -30 { (db + 60) / 2 } else { (db + 30) / 2 }) as u16,
        None => 0,
    }
}

/// The volumes other than `Mute`, from the quietest to the loudest.
pub open spec fn audible_volumes() -> Seq<Volume> {
    seq![
        Volume::Dbfsm58, Volume::Dbfsm56, Volume::Dbfsm54, Volume::Dbfsm52, Volume::Dbfsm50,
        Volume::Dbfsm48, Volume::Dbfsm46, Volume::Dbfsm44, Volume::Dbfsm42, Volume::Dbfsm40,
        Volume::Dbfsm38, Volume::Dbfsm36, Volume::Dbfsm34, Volume::Dbfsm32, Volume::Dbfsm30,
        Volume::Dbfsm28, Volume::Dbfsm26, Volume::Dbfsm24, Volume::Dbfsm22, Volume::Dbfsm20,
        Volume::Dbfsm18, Volume::Dbfsm16, Volume::Dbfsm14, Volume::Dbfsm12, Volume::Dbfsm10,
        Volume::Dbfsm8, Volume::Dbfsm6, Volume::Dbfsm4, Volume::Dbfsm2, Volume::Dbfs0,
    ]
}

/// The volume at level `db` dBFS, or `Mute` where no volume has that level.
pub open spec fn volume_at_level(db: int) -> Volume {
    if -58 <= db <= 0 && db % 2 == 0 {
        audible_volumes()[(db + 58) / 2]
    } else {
        Volume::Mute
    }
}

/// Every volume other than `Mute` is selected by a VOLUME value from 1 to 15,
/// and its level is read back from that value and VOLEXT.
pub proof fn lemma_volume_level_from_setting(volume: Volume)
    requires
        volume != Volume::Mute,
    ensures
        1 <= volume_code(volume) <= 15,
        volume_level(volume) == Some(
            2 * volume_code(volume) - 30 - (if volume_extended(volume) { 30int } else { 0int }),
        ),
{
}

/// Two volumes that select the same register setting are the same volume.
pub proof fn lemma_volume_setting_injective(a: Volume, b: Volume)
    requires
        volume_code(a) == volume_code(b),
        volume_extended(a) == volume_extended(b),
    ensures
        a == b,
{
    assert(volume_at_level(volume_level(a).unwrap_or(1)) == a);
    assert(volume_at_level(volume_level(b).unwrap_or(1)) == b);
    if a != Volume::Mute && b != Volume::Mute {
        lemma_volume_level_from_setting(a);
        lemma_volume_level_from_setting(b);
    }
}

/// Channel spacing in kHz, as the name of `spacing` gives it.
pub open spec fn spacing_khz(spacing: ChannelSpacing) -> int {
    match spacing {
        ChannelSpacing::Khz200 => 200,
        ChannelSpacing::Khz100 => 100,
        ChannelSpacing::Khz50 => 50,
    }
}

/// `khz` halved `n` times.
pub open spec fn halved(khz: int, n: nat) -> int
    decreases n,
{
    if n == 0 {
        khz
    } else {
        halved(khz, (n - 1) as nat) / 2
    }
}

/// Channel spacing that the SPACE field value `code` selects, the reserved
/// value counting as 50 kHz.
pub open spec fn spacing_of_code(code: u16) -> ChannelSpacing {
    if code == 0 {
        ChannelSpacing::Khz200
    } else if code == 1 {
        ChannelSpacing::Khz100
    } else {
        ChannelSpacing::Khz50
    }
}

/// SPACE: each step of the field value halves the channel spacing, from
/// 200 kHz at 0 down to 50 kHz at 2.
pub proof fn lemma_spacing_code_halves(spacing: ChannelSpacing)
    ensures
        spacing_code(spacing) <= 2,
        spacing_khz(spacing) == halved(200, spacing_code(spacing) as nat),
{
    reveal_with_fuel(halved, 3);
}

/// Reading the SPACE value back gives the spacing it was written for, and
/// for each value up to 2 the spacing read is 200 kHz halved that many times.
pub proof fn lemma_spacing_read_back(spacing: ChannelSpacing, code: u16)
    ensures
        spacing_of_code(spacing_code(spacing)) == spacing,
        code <= 2 ==> spacing_khz(spacing_of_code(code)) == halved(200, code as nat),
        code > 2 ==> spacing_of_code(code) == ChannelSpacing::Khz50,
{
    reveal_with_fuel(halved, 3);
}

/// Distinct channel spacings select distinct SPACE values.
pub proof fn lemma_spacing_code_injective(a: ChannelSpacing, b: ChannelSpacing)
    requires
        spacing_code(a) == spacing_code(b),
    ensures
        a == b,
{
    lemma_spacing_read_back(a, 0);
    lemma_spacing_read_back(b, 0);
}

/// Bottom of `band` in kHz, as its name gives it.
pub open spec fn band_bottom_khz(band: Band) -> int {
    match band {
        Band::Mhz875_108 => 87500,
        Band::Mhz76_108 => 76000,
        Band::Mhz76_90 => 76000,
    }
}

/// Top of `band` in kHz, as its name gives it.
pub open spec fn band_top_khz(band: Band) -> int {
    match band {
        Band::Mhz875_108 => 108000,
        Band::Mhz76_108 => 108000,
        Band::Mhz76_90 => 90000,
    }
}

/// BAND: 0 selects the band from 87.5 MHz, any other value the bands from
/// 76 MHz, and 2 the one that ends at 90 MHz rather than 108 MHz.
pub proof fn lemma_band_code_meaning(band: Band)
    ensures
        band_code(band) <= 2,
        (band_code(band) == 0) == (band_bottom_khz(band) == 87500),
        (band_code(band) != 0) == (band_bottom_khz(band) == 76000),
        (band_code(band) == 2) == (band_top_khz(band) == 90000),
{
}

/// Distinct bands select distinct BAND values.
pub proof fn lemma_band_code_injective(a: Band, b: Band)
    requires
        band_code(a) == band_code(b),
    ensures
        a == b,
{
    lemma_band_code_meaning(a);
    lemma_band_code_meaning(b);
}

/// SMUTER: the slower the softmute rate, the larger the field value, from 0
/// for the fastest to 3 for the slowest.
pub proof fn lemma_softmute_rate_order()
    ensures
        softmute_rate_code(SoftmuteRate::Fastest) < softmute_rate_code(SoftmuteRate::Fast),
        softmute_rate_code(SoftmuteRate::Fast) < softmute_rate_code(SoftmuteRate::Slow),
        softmute_rate_code(SoftmuteRate::Slow) < softmute_rate_code(SoftmuteRate::Slowest),
        softmute_rate_code(SoftmuteRate::Slowest) <= 3,
{
}

/// Distinct softmute rates select distinct SMUTER values.
pub proof fn lemma_softmute_rate_code_injective(a: SoftmuteRate, b: SoftmuteRate)
    requires
        softmute_rate_code(a) == softmute_rate_code(b),
    ensures
        a == b,
{
    lemma_softmute_rate_order();
}

/// Softmute attenuation in dB, as the name of `attenuation` gives it.
pub open spec fn softmute_attenuation_db(attenuation: SoftmuteAttenuation) -> int {
    match attenuation {
        SoftmuteAttenuation::Db16 => 16,
        SoftmuteAttenuation::Db14 => 14,
        SoftmuteAttenuation::Db12 => 12,
        SoftmuteAttenuation::Db10 => 10,
    }
}

/// SMUTEA: each step of the field value lowers the attenuation by 2 dB,
/// from 16 dB at 0.
pub proof fn lemma_softmute_attenuation_steps(attenuation: SoftmuteAttenuation)
    ensures
        softmute_attenuation_code(attenuation) <= 3,
        softmute_attenuation_db(attenuation) == 16 - 2 * softmute_attenuation_code(attenuation),
{
}

/// Distinct softmute attenuations select distinct SMUTEA values.
pub proof fn lemma_softmute_attenuation_code_injective(
    a: SoftmuteAttenuation,
    b: SoftmuteAttenuation,
)
    requires
        softmute_attenuation_code(a) == softmute_attenuation_code(b),
    ensures
        a == b,
{
    lemma_softmute_attenuation_steps(a);
    lemma_softmute_attenuation_steps(b);
}

/// GPIO field value for a pin that is a plain output at level `high`
/// (`Some(high)`), or else runs its own function (`function`) or floats: bit 1
/// makes the pin an output and bit 0 is then its level; with bit 1 clear,
/// bit 0 selects the pin's function over high impedance.
pub open spec fn gpio_field(output: Option<bool>, function: bool) -> u16 {
    match output {
        Some(high) => if high { 3 } else { 2 },
        None => if function { 1 } else { 0 },
    }
}

/// The level at which `config` drives GPIO1 as a plain output, if it does.
pub open spec fn gpio1_output(config: Gpio1Config) -> Option<bool> {
    match config {
        Gpio1Config::HighImpedance => None,
        Gpio1Config::Low => Some(false),
        Gpio1Config::High => Some(true),
    }
}

/// The level at which `config` drives GPIO2 as a plain output, if it does.
pub open spec fn gpio2_output(config: Gpio2Config) -> Option<bool> {
    match config {
        Gpio2Config::HighImpedance => None,
        Gpio2Config::StcRdsInterrupt => None,
        Gpio2Config::Low => Some(false),
        Gpio2Config::High => Some(true),
    }
}

/// The level at which `config` drives GPIO3 as a plain output, if it does.
pub open spec fn gpio3_output(config: Gpio3Config) -> Option<bool> {
    match config {
        Gpio3Config::HighImpedance => None,
        Gpio3Config::MonoStereoIndicator => None,
        Gpio3Config::Low => Some(false),
        Gpio3Config::High => Some(true),
    }
}

/// The GPIO1 value of each configuration follows the GPIO field layout.
pub proof fn lemma_gpio1_code_layout(config: Gpio1Config)
    ensures
        gpio1_code(config) == gpio_field(gpio1_output(config), false),
{
}

/// The GPIO2 value of each configuration follows the GPIO field layout, the
/// pin's function being the seek/tune complete and RDS ready interrupt.
pub proof fn lemma_gpio2_code_layout(config: Gpio2Config)
    ensures
        gpio2_code(config) == gpio_field(
            gpio2_output(config),
            config == Gpio2Config::StcRdsInterrupt,
        ),
{
}

/// The GPIO3 value of each configuration follows the GPIO field layout, the
/// pin's function being the mono/stereo indicator.
pub proof fn lemma_gpio3_code_layout(config: Gpio3Config)
    ensures
        gpio3_code(config) == gpio_field(
            gpio3_output(config),
            config == Gpio3Config::MonoStereoIndicator,
        ),
{
}

/// Distinct configurations of a GPIO pin select distinct field values.
pub proof fn lemma_gpio_codes_injective(
    a1: Gpio1Config,
    b1: Gpio1Config,
    a2: Gpio2Config,
    b2: Gpio2Config,
    a3: Gpio3Config,
    b3: Gpio3Config,
)
    ensures
        gpio1_code(a1) == gpio1_code(b1) ==> a1 == b1,
        gpio2_code(a2) == gpio2_code(b2) ==> a2 == b2,
        gpio3_code(a3) == gpio3_code(b3) ==> a3 == b3,
{
    lemma_gpio1_code_layout(a1);
    lemma_gpio1_code_layout(b1);
    lemma_gpio2_code_layout(a2);
    lemma_gpio2_code_layout(b2);
    lemma_gpio3_code_layout(a3);
    lemma_gpio3_code_layout(b3);
}

/// Bottom of the RSSI range of `level` in dBµV, as its name gives it.
pub open spec fn blend_bottom_dbuv(level: StereoToMonoBlendLevel) -> int {
    match level {
        StereoToMonoBlendLevel::Dbuv31_49 => 31,
        StereoToMonoBlendLevel::Dbuv37_55 => 37,
        StereoToMonoBlendLevel::Dbuv19_37 => 19,
        StereoToMonoBlendLevel::Dbuv25_43 => 25,
    }
}

/// Top of the RSSI range of `level` in dBµV, as its name gives it.
pub open spec fn blend_top_dbuv(level: StereoToMonoBlendLevel) -> int {
    match level {
        StereoToMonoBlendLevel::Dbuv31_49 => 49,
        StereoToMonoBlendLevel::Dbuv37_55 => 55,
        StereoToMonoBlendLevel::Dbuv19_37 => 37,
        StereoToMonoBlendLevel::Dbuv25_43 => 43,
    }
}

/// A two-bit field value read as a two's complement number.
pub open spec fn two_bit_signed(code: u16) -> int {
    if code >= 2 {
        code - 4
    } else {
        code as int
    }
}

/// BLNDADJ: the field value, read as a two's complement number, shifts the
/// 18 dB wide blend range from 31-49 dBµV in steps of 6 dB.
pub proof fn lemma_blend_code_steps(level: StereoToMonoBlendLevel)
    ensures
        blend_code(level) <= 3,
        blend_bottom_dbuv(level) == 31 + 6 * two_bit_signed(blend_code(level)),
        blend_top_dbuv(level) == blend_bottom_dbuv(level) + 18,
{
}

/// Distinct blend levels select distinct BLNDADJ values.
pub proof fn lemma_blend_code_injective(a: StereoToMonoBlendLevel, b: StereoToMonoBlendLevel)
    requires
        blend_code(a) == blend_code(b),
    ensures
        a == b,
{
    lemma_blend_code_steps(a);
    lemma_blend_code_steps(b);
}

} // verus!
