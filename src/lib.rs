//! Thermal-comfort indices: the decision logic around the formulas.
//!
//! The library holds the parts of the index evaluation that are decisions
//! rather than arithmetic: the phase of water that selects a saturation
//! curve, the policy that picks which humidity measure feeds the Universal
//! Thermal Climate Index, and the ordered regime selection of the adjusted
//! heat index.

pub mod heat_index;
pub mod humidity;
pub mod phase;

pub use heat_index::{select_heat_index_regime, HeatIndexConditions, HeatIndexRegime};
pub use humidity::{resolve_humidity_input, HumidityInput, ThermalError};
pub use phase::Phase;
