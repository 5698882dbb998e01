//! Caller-facing driver surface: validates a frequency request, produces
//! the register image for the single configuration block write, and hands
//! out the calibration sequencer. The bus transport performs the actual
//! transactions and maps its faults to `PllError::Transport`.

use crate::calibration::{CalState, CalibrationSequencer};
use crate::planner::{self, FrequencyRequest};
use crate::registers::{self, spec_default_chip_config, ChipConfig};
use vstd::prelude::*;

verus! {

/// Seven-bit bus address of the clock generator.
pub const I2C_ADDRESS: u16 = 0x6A;

/// Failure surfaced to the caller of the configuration or calibration
/// entry points.
#[derive(Clone, Copy, Debug, PartialEq, Eq, Structural)]
pub enum PllError {
    /// The bus transport reported a failure (device absent, not
    /// acknowledged, bus fault).
    Transport,
    /// A requested frequency was zero; the divider math would divide
    /// by it.
    Domain,
}

/// The clock-generator driver for one device.
pub struct Pll5p49v {
    /// Board-policy flags packed into the general-configuration registers.
    pub config: ChipConfig,
}

impl Pll5p49v {
    /// A driver with the chip's default configuration flags.
    pub fn new() -> (pll: Self)
        ensures
            pll.config == spec_default_chip_config(),
            pll.config.valid(),
    {
        Pll5p49v { config: ChipConfig::default() }
    }

    /// A driver with explicit board-policy flags.
    pub fn with_config(config: ChipConfig) -> (pll: Self)
        requires
            config.valid(),
        ensures
            pll.config == config,
    {
        Pll5p49v { config }
    }

    /// Compute the configuration block write for the requested
    /// frequencies: the 107-byte register image, ready to be written to
    /// the device in one transaction. Every frequency must be nonzero;
    /// a zero frequency is rejected as a domain error and nothing is
    /// produced.
    pub fn write_config(
        &self,
        clock_fq_hz: u32,
        vco_fq_hz: u32,
        output1_fq_hz: u32,
        output2_fq_hz: u32,
        output3_fq_hz: u32,
        output4_fq_hz: u32,
    ) -> (r: Result<Vec<u8>, PllError>)
        requires
            self.config.valid(),
        ensures
            r is Ok <==> (FrequencyRequest {
                reference_hz: clock_fq_hz,
                vco_hz: vco_fq_hz,
                output1_hz: output1_fq_hz,
                output2_hz: output2_fq_hz,
                output3_hz: output3_fq_hz,
                output4_hz: output4_fq_hz,
            }).valid(),
            r matches Ok(image) ==> image@ == registers::spec_register_image(
                planner::spec_plan(
                    FrequencyRequest {
                        reference_hz: clock_fq_hz,
                        vco_hz: vco_fq_hz,
                        output1_hz: output1_fq_hz,
                        output2_hz: output2_fq_hz,
                        output3_hz: output3_fq_hz,
                        output4_hz: output4_fq_hz,
                    },
                ),
                self.config,
            ) && image@.len() == 107 && image@[0] == 0x00u8,
            r matches Err(e) ==> e == PllError::Domain,
    {
        let request = FrequencyRequest {
            reference_hz: clock_fq_hz,
            vco_hz: vco_fq_hz,
            output1_hz: output1_fq_hz,
            output2_hz: output2_fq_hz,
            output3_hz: output3_fq_hz,
            output4_hz: output4_fq_hz,
        };
        if clock_fq_hz == 0 || vco_fq_hz == 0 || output1_fq_hz == 0 || output2_fq_hz == 0
            || output3_fq_hz == 0 || output4_fq_hz == 0 {
            return Err(PllError::Domain);
        }
        let plan = planner::plan(&request);
        Ok(registers::build_register_image(&plan, &self.config))
    }

    /// Begin the VCO calibration handshake. The caller drives the
    /// returned sequencer: perform each pending bus operation and report
    /// its outcome, until none is pending. This must only be done after
    /// the configuration write succeeded; after a failed write the chip's
    /// state is unknown and calibration must not be attempted.
    pub fn calibrate_vco(&self) -> (s: CalibrationSequencer)
        ensures
            s.state == CalState::ReadControl,
    {
        CalibrationSequencer::new()
    }
}

} // verus!
