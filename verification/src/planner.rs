//! Frequency planning: turns requested frequencies into the chip's
//! fixed-point divider values.
//!
//! The feedback divider is a Q32.32 value, `floor(vco * 2^32 / reference)`:
//! its high 32 bits are the integer divide ratio, its low 32 bits the
//! remainder scaled to a 32-bit fixed-point fraction. Each output divider
//! uses the chip's one-bit-narrower output scaling, `floor(vco * 2^31 / out)`.

use vstd::arithmetic::div_mod::{
    lemma_div_non_zero, lemma_div_of0, lemma_div_pos_is_pos,
    lemma_fundamental_div_mod, lemma_fundamental_div_mod_converse, lemma_hoist_over_denominator,
    lemma_mod_bound,
};
use vstd::arithmetic::mul::{lemma_mul_inequality, lemma_mul_strict_inequality};
use vstd::prelude::*;

verus! {

/// Requested input, VCO and output frequencies, all in hertz.
#[derive(Clone, Copy, Debug, PartialEq, Eq, Structural)]
pub struct FrequencyRequest {
    pub reference_hz: u32,
    pub vco_hz: u32,
    pub output1_hz: u32,
    pub output2_hz: u32,
    pub output3_hz: u32,
    pub output4_hz: u32,
}

impl FrequencyRequest {
    /// Every frequency must be nonzero: the divider math divides by each.
    pub open spec fn valid(self) -> bool {
        &&& self.reference_hz > 0
        &&& self.vco_hz > 0
        &&& self.output1_hz > 0
        &&& self.output2_hz > 0
        &&& self.output3_hz > 0
        &&& self.output4_hz > 0
    }
}

/// Noise-shaping depth of the fractional feedback divider. Current policy
/// selects only `Off` (exact integer ratio) or `Order3`; the middle orders
/// are representable but unused.
#[derive(Clone, Copy, Debug, PartialEq, Eq, Structural)]
pub enum SigmaDeltaOrder {
    Off,
    Order1,
    Order2,
    Order3,
}

/// Divider values for one configuration attempt, as consumed by the
/// register-image builder.
#[derive(Clone, Copy, Debug, PartialEq, Eq, Structural)]
pub struct FrequencyPlan {
    pub feedback_divider: u64,
    pub sigma_delta_order: SigmaDeltaOrder,
    pub output1_divider: u64,
    pub output2_divider: u64,
    pub output3_divider: u64,
    pub output4_divider: u64,
}

/// Q32.32 feedback divider: `floor(vco * 2^32 / reference)`.
pub open spec fn spec_feedback_divider(vco_hz: u32, reference_hz: u32) -> u64
    recommends
        reference_hz > 0,
{
    ((vco_hz as int * 0x1_0000_0000) / (reference_hz as int)) as u64
}

/// Output divider with the chip's output register scaling:
/// `floor(vco * 2^31 / output)`.
pub open spec fn spec_output_divider(vco_hz: u32, output_hz: u32) -> u64
    recommends
        output_hz > 0,
{
    ((vco_hz as int * 0x8000_0000) / (output_hz as int)) as u64
}

/// The sigma-delta modulator is bypassed exactly when the feedback divider
/// has no fractional bits.
pub open spec fn spec_sigma_delta_order(vco_hz: u32, reference_hz: u32) -> SigmaDeltaOrder
    recommends
        reference_hz > 0,
{
    if spec_feedback_divider(vco_hz, reference_hz) as int % 0x1_0000_0000 == 0 {
        SigmaDeltaOrder::Off
    } else {
        SigmaDeltaOrder::Order3
    }
}

/// The whole plan as a function of the request.
pub open spec fn spec_plan(request: FrequencyRequest) -> FrequencyPlan
    recommends
        request.valid(),
{
    FrequencyPlan {
        feedback_divider: spec_feedback_divider(request.vco_hz, request.reference_hz),
        sigma_delta_order: spec_sigma_delta_order(request.vco_hz, request.reference_hz),
        output1_divider: spec_output_divider(request.vco_hz, request.output1_hz),
        output2_divider: spec_output_divider(request.vco_hz, request.output2_hz),
        output3_divider: spec_output_divider(request.vco_hz, request.output3_hz),
        output4_divider: spec_output_divider(request.vco_hz, request.output4_hz),
    }
}

/// Compute the divider plan for a request with all frequencies nonzero.
pub fn plan(request: &FrequencyRequest) -> (p: FrequencyPlan)
    requires
        request.valid(),
    ensures
        p == spec_plan(*request),
{
    let vco: u64 = request.vco_hz as u64;
    let numerator32: u64 = vco << 32;
    let numerator31: u64 = vco << 31;
    proof {
        assert(vco <= 0xFFFF_FFFF ==> (vco << 32) == vco * 0x1_0000_0000
            && (vco << 31) == vco * 0x8000_0000) by (bit_vector);
    }
    let feedback_divider: u64 = numerator32 / (request.reference_hz as u64);
    proof {
        assert(feedback_divider & 0xFFFF_FFFF == feedback_divider % 0x1_0000_0000)
            by (bit_vector);
    }
    let sigma_delta_order = if feedback_divider & 0xFFFF_FFFF == 0 {
        SigmaDeltaOrder::Off
    } else {
        SigmaDeltaOrder::Order3
    };
    FrequencyPlan {
        feedback_divider,
        sigma_delta_order,
        output1_divider: numerator31 / (request.output1_hz as u64),
        output2_divider: numerator31 / (request.output2_hz as u64),
        output3_divider: numerator31 / (request.output3_hz as u64),
        output4_divider: numerator31 / (request.output4_hz as u64),
    }
}

/// The feedback divider reads back as the reference-relative VCO ratio in
/// Q32.32: its high 32 bits are `floor(vco / reference)`, its low 32 bits
/// are the division remainder scaled to a 32-bit fixed-point fraction, and
/// multiplying the divider by the reference recovers `vco * 2^32` to within
/// one reference step (one fractional-bit quantization step).
pub proof fn lemma_feedback_divider_decodes(reference_hz: u32, vco_hz: u32)
    requires
        reference_hz > 0,
        vco_hz > 0,
    ensures
        spec_feedback_divider(vco_hz, reference_hz) as int / 0x1_0000_0000
            == vco_hz as int / reference_hz as int,
        spec_feedback_divider(vco_hz, reference_hz) as int % 0x1_0000_0000
            == ((vco_hz as int % reference_hz as int) * 0x1_0000_0000) / reference_hz as int,
        spec_feedback_divider(vco_hz, reference_hz) as int * reference_hz as int
            <= vco_hz as int * 0x1_0000_0000,
        vco_hz as int * 0x1_0000_0000
            < spec_feedback_divider(vco_hz, reference_hz) as int * reference_hz as int
                + reference_hz as int,
{
    lemma_scaled_division_decodes(reference_hz as int, vco_hz as int, 0x1_0000_0000);
}

/// Same decoding bound for an output divider, under the output registers'
/// 2^31 scaling: multiplying the divider by the output frequency recovers
/// `vco * 2^31` to within one output-frequency step.
pub proof fn lemma_output_divider_decodes(output_hz: u32, vco_hz: u32)
    requires
        output_hz > 0,
        vco_hz > 0,
    ensures
        spec_output_divider(vco_hz, output_hz) as int * output_hz as int
            <= vco_hz as int * 0x8000_0000,
        vco_hz as int * 0x8000_0000
            < spec_output_divider(vco_hz, output_hz) as int * output_hz as int + output_hz as int,
{
    lemma_scaled_division_decodes(output_hz as int, vco_hz as int, 0x8000_0000);
}

/// The sigma-delta modulator is off exactly when the VCO frequency is an
/// integer multiple of the reference frequency.
pub proof fn lemma_sigma_delta_off_iff_integer_ratio(reference_hz: u32, vco_hz: u32)
    requires
        reference_hz > 0,
        vco_hz > 0,
    ensures
        spec_sigma_delta_order(vco_hz, reference_hz) == SigmaDeltaOrder::Off
            <==> vco_hz as int % reference_hz as int == 0,
{
    let r = reference_hz as int;
    let v = vco_hz as int;
    let scale = 0x1_0000_0000int;
    lemma_scaled_division_decodes(r, v, scale);
    let remainder = v % r;
    lemma_mod_bound(v, r);
    if remainder == 0 {
        lemma_div_of0(r);
        assert((remainder * scale) / r == 0);
    } else {
        // remainder >= 1, so remainder * 2^32 >= 2^32 > reference, and the
        // scaled fraction cannot be zero.
        lemma_mul_inequality(1, remainder, scale);
        lemma_div_non_zero(remainder * scale, r);
    }
}

/// Core fact behind the divider contracts: for `d = floor(v * scale / r)`
/// with `0 < r` and `0 < v`, the quotient splits into
/// `(v / r) * scale + ((v % r) * scale) / r` with the second summand below
/// `scale`, and `d * r` recovers `v * scale` to within one step of `r`.
proof fn lemma_scaled_division_decodes(r: int, v: int, scale: int)
    requires
        0 < r,
        0 < scale,
        0 < v,
    ensures
        ((v * scale) / r) / scale == v / r,
        ((v * scale) / r) % scale == ((v % r) * scale) / r,
        ((v % r) * scale) / r < scale,
        ((v * scale) / r) * r <= v * scale,
        v * scale < ((v * scale) / r) * r + r,
{
    let n = v * scale;
    lemma_mul_strict_inequality(0, v, scale);
    lemma_fundamental_div_mod(n, r);
    lemma_mod_bound(n, r);
    // n / r == (v / r) * scale + ((v % r) * scale) / r
    let a = v / r;
    let b = v % r;
    lemma_fundamental_div_mod(v, r);
    lemma_mod_bound(v, r);
    assert(n == (b * scale) + (a * scale) * r) by (nonlinear_arith)
        requires
            v == r * a + b,
            n == v * scale,
    ;
    lemma_hoist_over_denominator(b * scale, a * scale, r as nat);
    assert(n / r == (b * scale) / r + a * scale);
    // the scaled remainder is a proper "fraction": 0 <= (b * scale) / r < scale
    lemma_div_pos_is_pos(b * scale, r);
    assert(b * scale < r * scale) by (nonlinear_arith)
        requires
            b < r,
            scale > 0,
    ;
    lemma_multiply_divide_lt_helper(b * scale, scale, r);
    lemma_fundamental_div_mod_converse(n / r, scale, a, (b * scale) / r);
}

/// `x < c * d` with positive `d` bounds the quotient: `x / d < c`.
proof fn lemma_multiply_divide_lt_helper(x: int, c: int, d: int)
    requires
        0 <= x,
        0 < d,
        x < c * d,
    ensures
        x / d < c,
{
    lemma_fundamental_div_mod(x, d);
    lemma_mod_bound(x, d);
    assert(x / d < c) by (nonlinear_arith)
        requires
            x == d * (x / d) + x % d,
            0 <= x % d,
            0 < d,
            x < c * d,
    ;
}

} // verus!
