//! Register-image construction: packs a divider plan and the chip's
//! configuration flags into the 107-byte block write the part expects.
//!
//! The image is one leading start-address byte (the base register, `0x00`)
//! followed by the 106 register values `0x00..=0x69`, written contiguously
//! through the chip's auto-incrementing register pointer. Every offset and
//! mask is fixed by the register map; a malformed image silently
//! misconfigures the part, so the builder's contract pins every byte.

use crate::planner::{FrequencyPlan, SigmaDeltaOrder};
use vstd::prelude::*;

verus! {

/// Board-policy flags and chip constants that feed the general
/// configuration registers.
#[derive(Clone, Copy, Debug, PartialEq, Eq, Structural)]
pub struct ChipConfig {
    /// Global shutdown flag, bit 0 of the primary-source/shutdown register.
    pub en_global_shutdown: bool,
    /// Sleep ("SP") flag, bit 1 of the primary-source/shutdown register.
    pub en_sleep: bool,
    /// External clock input select, bit 6 of the same register.
    pub en_clkin: bool,
    /// Crystal input select, bit 7 of the same register.
    pub en_xtal: bool,
    /// Primary-source select bit of register 0x13.
    pub primary_source: bool,
    /// Test-mode bit of the VCO band register.
    pub test_mode_vco_band: bool,
    /// VCO band code, the low five bits of the VCO band register.
    pub vco_band: u8,
    /// Calibration-start bit (bit 7) of control register 0x1C.
    pub calibration_start: bool,
    /// VCO-monitor enable bit of register 0x1D.
    pub vco_monitor_en: bool,
}

impl ChipConfig {
    /// The VCO band code must fit the five bits reserved for it.
    pub open spec fn valid(self) -> bool {
        self.vco_band <= 0x1F
    }
}

/// The chip defaults this driver programs when the board asks for nothing
/// else: external clock input, primary source selected, VCO band 0x0D,
/// calibration started by the main write, monitor off.
pub open spec fn spec_default_chip_config() -> ChipConfig {
    ChipConfig {
        en_global_shutdown: false,
        en_sleep: false,
        en_clkin: true,
        en_xtal: false,
        primary_source: true,
        test_mode_vco_band: false,
        vco_band: 0x0D,
        calibration_start: true,
        vco_monitor_en: false,
    }
}

impl Default for ChipConfig {
    fn default() -> (c: Self)
        ensures
            c == spec_default_chip_config(),
            c.valid(),
    {
        ChipConfig {
            en_global_shutdown: false,
            en_sleep: false,
            en_clkin: true,
            en_xtal: false,
            primary_source: true,
            test_mode_vco_band: false,
            vco_band: 0x0D,
            calibration_start: true,
            vco_monitor_en: false,
        }
    }
}

/// Register 0x10: primary source and shutdown flags.
pub open spec fn spec_source_shutdown_byte(c: ChipConfig) -> u8 {
    ((if c.en_global_shutdown { 0x01int } else { 0 })
        + (if c.en_sleep { 0x02int } else { 0 })
        + (if c.en_clkin { 0x40int } else { 0 })
        + (if c.en_xtal { 0x80int } else { 0 })) as u8
}

/// Register 0x11: VCO band code plus the test-mode bit.
pub open spec fn spec_vco_band_byte(c: ChipConfig) -> u8
    recommends
        c.valid(),
{
    ((if c.test_mode_vco_band { 0x20int } else { 0 }) + c.vco_band) as u8
}

/// Register 0x13: factory-reserved bits plus the primary-source select bit.
pub open spec fn spec_source_select_byte(c: ChipConfig) -> u8 {
    (0x80 + (if c.primary_source { 0x02int } else { 0 })) as u8
}

/// Register 0x1C: factory-reserved bits plus the calibration-start bit
/// (bit 7).
pub open spec fn spec_cal_control_byte(c: ChipConfig) -> u8 {
    (0x1F + (if c.calibration_start { 0x80int } else { 0 })) as u8
}

/// Register 0x1D: factory-reserved bits plus the VCO-monitor enable bit.
pub open spec fn spec_vco_monitor_byte(c: ChipConfig) -> u8 {
    (0xFD + (if c.vco_monitor_en { 0x02int } else { 0 })) as u8
}

/// Two-bit field the sigma-delta order occupies in register 0x18.
pub open spec fn spec_sd_order_bits(o: SigmaDeltaOrder) -> u8 {
    match o {
        SigmaDeltaOrder::Off => 0,
        SigmaDeltaOrder::Order1 => 1,
        SigmaDeltaOrder::Order2 => 2,
        SigmaDeltaOrder::Order3 => 3,
    }
}

/// Start-address byte plus the constant general-configuration registers
/// 0x00..=0x16, with the three bytes assembled from the chip flags.
pub open spec fn spec_prefix_bytes(c: ChipConfig) -> Seq<u8> {
    seq![
        0x00u8, 0x61, 0x0F, 0x00, 0x00, 0x00, 0x00, 0x00, 0x00, 0x00, 0xFF, 0x01, 0xC0, 0x00,
        0xB6, 0xB4, 0x92, spec_source_shutdown_byte(c), spec_vco_band_byte(c), 0x81,
        spec_source_select_byte(c), 0x00, 0x03, 0x84,
    ]
}

/// Registers 0x17..=0x21: the feedback divider's integer and fractional
/// fields, the sigma-delta order field, and the calibration / monitor
/// control bytes.
pub open spec fn spec_feedback_bytes(fb: u64, o: SigmaDeltaOrder, c: ChipConfig) -> Seq<u8> {
    seq![
        ((fb >> 36) & 0xFF) as u8,
        (((fb >> 28) & 0xF0) + spec_sd_order_bits(o) * 4) as u8,
        ((fb >> 24) & 0xFF) as u8,
        ((fb >> 16) & 0xFF) as u8,
        ((fb >> 8) & 0xFF) as u8,
        spec_cal_control_byte(c),
        spec_vco_monitor_byte(c),
        0xC8u8, 0x80, 0x00, 0x81,
    ]
}

/// One output channel's divider block, bit-identical in structure across
/// the four channels: four fraction bytes, a constant padding block, then
/// the two integer bytes.
pub open spec fn spec_output_divider_bytes(od: u64) -> Seq<u8> {
    seq![
        ((od >> 30) & 0x03) as u8,
        ((od >> 22) & 0xFF) as u8,
        ((od >> 14) & 0xFF) as u8,
        ((od >> 6) & 0xFC) as u8,
        0x00u8, 0x00, 0x00, 0x00, 0x04, 0x00, 0x00,
        ((od >> 36) & 0xFF) as u8,
        ((od >> 28) & 0xF0) as u8,
    ]
}

/// Constant registers separating consecutive channel blocks.
pub open spec fn spec_channel_gap_bytes() -> Seq<u8> {
    seq![0x00u8, 0x00, 0x81]
}

/// Registers 0x60..=0x69: per-output slew/voltage configuration pairs and
/// the global output-enable pair (all outputs enabled, 3.3 V, fastest slew).
pub open spec fn spec_trailer_bytes() -> Seq<u8> {
    seq![0x3Bu8, 0x01, 0x3B, 0x01, 0x3B, 0x01, 0x3B, 0x01, 0xFF, 0xFC]
}

/// The full 107-byte register image for one configuration attempt.
pub open spec fn spec_register_image(p: FrequencyPlan, c: ChipConfig) -> Seq<u8> {
    spec_prefix_bytes(c) + spec_feedback_bytes(p.feedback_divider, p.sigma_delta_order, c)
        + spec_output_divider_bytes(p.output1_divider) + spec_channel_gap_bytes()
        + spec_output_divider_bytes(p.output2_divider) + spec_channel_gap_bytes()
        + spec_output_divider_bytes(p.output3_divider) + spec_channel_gap_bytes()
        + spec_output_divider_bytes(p.output4_divider) + seq![0x00u8] + spec_trailer_bytes()
}

/// The image is the same fixed length for every input, and its first byte
/// always selects the chip's base register.
pub proof fn lemma_register_image_well_formed(p: FrequencyPlan, c: ChipConfig)
    ensures
        spec_register_image(p, c).len() == 107,
        spec_register_image(p, c)[0] == 0x00u8,
{
}

/// Extract the register-byte field `(x >> shift) & mask` of a divider.
fn field_byte(x: u64, shift: u64, mask: u64) -> (r: u8)
    requires
        shift < 64,
        mask <= 0xFF,
    ensures
        r == ((x >> shift) & mask) as u8,
        r as u64 == (x >> shift) & mask,
        r as u64 <= mask,
{
    proof {
        assert(((x >> shift) & mask) <= mask) by (bit_vector);
    }
    ((x >> shift) & mask) as u8
}

/// Emit the start-address byte and registers 0x00..=0x16.
fn push_prefix_bytes(out: &mut Vec<u8>, config: &ChipConfig)
    requires
        config.valid(),
    ensures
        final(out)@ == old(out)@ + spec_prefix_bytes(*config),
{
    let source_shutdown: u8 = (if config.en_global_shutdown { 0x01u8 } else { 0 })
        + (if config.en_sleep { 0x02u8 } else { 0 })
        + (if config.en_clkin { 0x40u8 } else { 0 })
        + (if config.en_xtal { 0x80u8 } else { 0 });
    let vco_band: u8 = (if config.test_mode_vco_band { 0x20u8 } else { 0 }) + config.vco_band;
    let source_select: u8 = 0x80 + (if config.primary_source { 0x02u8 } else { 0 });
    let mut section: Vec<u8> = vec![
        0x00u8, 0x61, 0x0F, 0x00, 0x00, 0x00, 0x00, 0x00, 0x00, 0x00, 0xFF, 0x01, 0xC0, 0x00,
        0xB6, 0xB4, 0x92, source_shutdown, vco_band, 0x81, source_select, 0x00, 0x03, 0x84,
    ];
    proof {
        assert(section@ =~= spec_prefix_bytes(*config));
    }
    out.append(&mut section);
}

/// Emit registers 0x17..=0x21: feedback divider, sigma-delta order, and the
/// calibration / monitor control bytes.
fn push_feedback_bytes(out: &mut Vec<u8>, fb: u64, order: SigmaDeltaOrder, config: &ChipConfig)
    ensures
        final(out)@ == old(out)@ + spec_feedback_bytes(fb, order, *config),
{
    let order_bits: u8 = match order {
        SigmaDeltaOrder::Off => 0,
        SigmaDeltaOrder::Order1 => 1,
        SigmaDeltaOrder::Order2 => 2,
        SigmaDeltaOrder::Order3 => 3,
    };
    let integer_high: u8 = field_byte(fb, 36, 0xFF);
    let integer_low: u8 = field_byte(fb, 28, 0xF0) + order_bits * 4;
    let cal_control: u8 = 0x1F + (if config.calibration_start { 0x80u8 } else { 0 });
    let vco_monitor: u8 = 0xFD + (if config.vco_monitor_en { 0x02u8 } else { 0 });
    let mut section: Vec<u8> = vec![
        integer_high, integer_low,
        field_byte(fb, 24, 0xFF), field_byte(fb, 16, 0xFF), field_byte(fb, 8, 0xFF),
        cal_control, vco_monitor, 0xC8u8, 0x80, 0x00, 0x81,
    ];
    proof {
        assert(section@ =~= spec_feedback_bytes(fb, order, *config));
    }
    out.append(&mut section);
}

/// Emit one channel's 13-register divider block.
fn push_output_divider_bytes(out: &mut Vec<u8>, od: u64)
    ensures
        final(out)@ == old(out)@ + spec_output_divider_bytes(od),
{
    let mut section: Vec<u8> = vec![
        field_byte(od, 30, 0x03), field_byte(od, 22, 0xFF), field_byte(od, 14, 0xFF),
        field_byte(od, 6, 0xFC), 0x00u8, 0x00, 0x00, 0x00, 0x04, 0x00, 0x00,
        field_byte(od, 36, 0xFF), field_byte(od, 28, 0xF0),
    ];
    proof {
        assert(section@ =~= spec_output_divider_bytes(od));
    }
    out.append(&mut section);
}

/// Emit the constant registers between two channel blocks.
fn push_channel_gap_bytes(out: &mut Vec<u8>)
    ensures
        final(out)@ == old(out)@ + spec_channel_gap_bytes(),
{
    let mut section: Vec<u8> = vec![0x00u8, 0x00, 0x81];
    proof {
        assert(section@ =~= spec_channel_gap_bytes());
    }
    out.append(&mut section);
}

/// Build the 107-byte register image for a divider plan: the start-address
/// byte (always the base register, 0x00) followed by registers 0x00..=0x69.
/// The image is a pure function of the plan and the chip configuration.
pub fn build_register_image(plan: &FrequencyPlan, config: &ChipConfig) -> (image: Vec<u8>)
    requires
        config.valid(),
    ensures
        image@ == spec_register_image(*plan, *config),
        image@.len() == 107,
        image@[0] == 0x00u8,
{
    let mut image: Vec<u8> = Vec::new();
    push_prefix_bytes(&mut image, config);
    push_feedback_bytes(&mut image, plan.feedback_divider, plan.sigma_delta_order, config);
    push_output_divider_bytes(&mut image, plan.output1_divider);
    push_channel_gap_bytes(&mut image);
    push_output_divider_bytes(&mut image, plan.output2_divider);
    push_channel_gap_bytes(&mut image);
    push_output_divider_bytes(&mut image, plan.output3_divider);
    push_channel_gap_bytes(&mut image);
    push_output_divider_bytes(&mut image, plan.output4_divider);
    image.push(0x00);
    let mut trailer: Vec<u8> = vec![0x3Bu8, 0x01, 0x3B, 0x01, 0x3B, 0x01, 0x3B, 0x01, 0xFF, 0xFC];
    proof {
        assert(trailer@ =~= spec_trailer_bytes());
    }
    image.append(&mut trailer);
    proof {
        assert(image@ =~= spec_register_image(*plan, *config));
    }
    image
}

} // verus!
