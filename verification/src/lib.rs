//! Backend logic of a desktop video-inspection tool: a normalizer that turns
//! the probe tool's stream/format report into a flat, fully typed metadata
//! record, and an offline-tolerant trial/subscription license state machine.

pub mod text;
pub mod probe;
pub mod metadata;
pub mod license;
pub mod machine;
