//! Exact conversion between the Celsius, Fahrenheit and Kelvin temperature
//! scales, with every result clamped at the destination scale's absolute zero.
//!
//! Temperatures are carried as rational numbers (`Temp`), so each conversion
//! formula is computed exactly and the clamping floors are hit exactly.

pub mod convert;
pub mod laws;
pub mod temp;

pub use convert::celsius_to_fahrenheit;
pub use convert::celsius_to_kelvin;
pub use convert::convert;
pub use convert::convert_scales;
pub use convert::fahrenheit_to_celsius;
pub use convert::fahrenheit_to_kelvin;
pub use convert::kelvin_to_celsius;
pub use convert::kelvin_to_fahrenheit;
pub use convert::parse_scale;
pub use convert::Scale;
pub use temp::Temp;
