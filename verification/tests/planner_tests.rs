use versaclock::planner::{plan, FrequencyRequest, SigmaDeltaOrder};

fn request(reference_hz: u32, vco_hz: u32, outputs: [u32; 4]) -> FrequencyRequest {
    FrequencyRequest {
        reference_hz,
        vco_hz,
        output1_hz: outputs[0],
        output2_hz: outputs[1],
        output3_hz: outputs[2],
        output4_hz: outputs[3],
    }
}

#[test]
fn feedback_divider_exact_integer_ratio() {
    // 2.7 GHz VCO from a 10 MHz reference: ratio exactly 270.
    let p = plan(&request(
        10_000_000,
        2_700_000_000,
        [40_000_000, 25_000_000, 24_000_000, 28_800_000],
    ));
    assert_eq!(p.feedback_divider, 0x10E_0000_0000);
    assert_eq!(p.feedback_divider >> 32, 270);
    assert_eq!(p.feedback_divider & 0xFFFF_FFFF, 0);
    assert_eq!(p.sigma_delta_order, SigmaDeltaOrder::Off);
}

#[test]
fn sigma_delta_order3_when_ratio_inexact() {
    // One hertz off the exact multiple: fractional bits appear and the
    // modulator runs at order 3.
    let p = plan(&request(
        10_000_000,
        2_700_000_001,
        [40_000_000, 25_000_000, 24_000_000, 28_800_000],
    ));
    assert_ne!(p.feedback_divider & 0xFFFF_FFFF, 0);
    assert_eq!(p.sigma_delta_order, SigmaDeltaOrder::Order3);
}

#[test]
fn output_divider_half_integer_ratio() {
    // 2.7 GHz / 40 MHz = 67.5: the divider uses the 2^31 output scaling,
    // so the ratio's integer portion is 67 with nonzero fraction bits.
    let p = plan(&request(
        10_000_000,
        2_700_000_000,
        [40_000_000, 25_000_000, 24_000_000, 28_800_000],
    ));
    assert_eq!(p.output1_divider, 0x21_C000_0000);
    assert_eq!(p.output1_divider >> 31, 67);
    assert_ne!(p.output1_divider & 0x7FFF_FFFF, 0);
}

#[test]
fn output_dividers_all_channels() {
    let p = plan(&request(
        10_000_000,
        2_700_000_000,
        [40_000_000, 25_000_000, 24_000_000, 28_800_000],
    ));
    assert_eq!(p.output1_divider, 144_955_146_240);
    assert_eq!(p.output2_divider, 231_928_233_984);
    assert_eq!(p.output3_divider, 241_591_910_400);
    assert_eq!(p.output4_divider, 201_326_592_000);
}

#[test]
fn feedback_divider_decodes_within_one_step() {
    // Decoding the Q32.32 divider recovers vco * 2^32 to within one
    // reference step, including for ratios that do not divide evenly.
    let cases: [(u32, u32); 3] = [
        (10_000_000, 2_700_000_000),
        (19_200_000, 2_999_999_999),
        (3, 7),
    ];
    for (reference_hz, vco_hz) in cases {
        let p = plan(&request(
            reference_hz,
            vco_hz,
            [1_000_000, 1_000_000, 1_000_000, 1_000_000],
        ));
        let decoded = (p.feedback_divider as u128) * (reference_hz as u128);
        let exact = (vco_hz as u128) << 32;
        assert!(decoded <= exact);
        assert!(exact < decoded + reference_hz as u128);
    }
}

#[test]
fn output_divider_decodes_within_one_step() {
    let cases: [(u32, u32); 3] = [
        (40_000_000, 2_700_000_000),
        (28_800_000, 2_700_000_000),
        (4_294_967_295, 2_999_999_999),
    ];
    for (output_hz, vco_hz) in cases {
        let p = plan(&request(10_000_000, vco_hz, [output_hz, output_hz, output_hz, output_hz]));
        let decoded = (p.output1_divider as u128) * (output_hz as u128);
        let exact = (vco_hz as u128) << 31;
        assert!(decoded <= exact);
        assert!(exact < decoded + output_hz as u128);
    }
}
