use vstd::prelude::*;

verus! {

/// What can go wrong while building a tone and encoding it as a WAV file.
#[derive(Debug, Clone, Copy, PartialEq, Eq, Structural)]
pub enum WavError {
    /// The channel count is not 1 or 2, the bit depth not 8 or 16, or the byte
    /// rate does not fit its 32-bit header field.
    InvalidFormat,
    /// The tone has no frequencies or its duration is outside `1..=60` seconds.
    InvalidTone,
    /// The sink refused a write: the file is already finalized, the data chunk
    /// would outgrow the 32-bit size fields, or the tone has all its samples.
    IoFailure,
    /// A sample whose width is not the format's bit depth.
    UnsupportedBitDepth,
}

/// The message of a request whose format or tone could not be accepted.
pub open spec fn default_spec_error_message() -> Seq<char> {
    "Error creating WavSpec, got invalid values/fields"@
}

/// A request error that carries a fixed message.
#[derive(Debug, Clone, Copy)]
pub struct WavSpecErr(pub &'static str);

impl WavSpecErr {
    /// The error for a request whose format or tone is invalid.
    pub fn new_default() -> (r: Self)
        ensures
            r.0@ == default_spec_error_message(),
    {
        WavSpecErr("Error creating WavSpec, got invalid values/fields")
    }

    /// The message.
    pub fn message(&self) -> (r: &'static str)
        ensures
            r@ == self.0@,
    {
        self.0
    }
}

} // verus!
