//! A simplified aircraft fuel network.
//!
//! All quantities are integers in fixed units:
//! engine levels in millionths of full power, altitude in feet,
//! payload in kilograms, fuel volumes in microliters,
//! burn rates in microliters per second, and time in seconds.
//!
//! Two tank models stand side by side and are not merged:
//! `simulation` drives three aggregate tanks (center 100000 L, two wings of
//! 56000 L) from the burn model, while `fuel_system` is the finer network of
//! five tanks (24000, 15000, 5000, 15000, 5000 L), pumps and a crossfeed valve
//! that a transfer policy will later drive.

pub mod burn;
pub mod simulation;
pub mod tank;
pub mod actuator;
pub mod fuel_system;
