//! Driver core for a programmable clock-generator PLL reached over a
//! two-wire serial bus: divider planning, register-image construction,
//! and the VCO calibration handshake as an explicit state machine.
//!
//! The bus transport itself lives outside this crate; the caller performs
//! the transactions this crate asks for and feeds the outcomes back in.

pub mod calibration;
pub mod driver;
pub mod planner;
pub mod registers;

pub use driver::Pll5p49v;
pub use driver::PllError;
