pub mod codec;
pub mod error;
pub mod format;
pub mod naming;
pub mod person;
pub mod session;
pub mod tone;
pub mod writer;

pub use codec::{Sample, WavBuffer, WriteExtension};
pub use error::{WavError, WavSpecErr};
pub use format::{Verifiable, WavSpec};
pub use naming::{create_partition_key, hour12_to_hour24};
pub use person::Person;
pub use session::ToneSession;
pub use tone::{offset_partial_8, total_samples, validate_tone};
pub use writer::WavWriter;
