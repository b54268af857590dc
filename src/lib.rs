//! Hardware telemetry core of a small notepad: sensor-key codec, temperature
//! plausibility and averaging, the two-phase sensor session, accelerator
//! utilisation selection, refresh throttling, unsaved-document decisions and
//! weather naming.
pub mod codec;
pub mod temperature;
pub mod smc;
pub mod stats;
pub mod gpu;
pub mod editor;
pub mod weather;
