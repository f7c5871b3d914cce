use vstd::prelude::*;

verus! {

/// A check that a value holds to the rules of its kind.
pub trait Verifiable {
    /// The rules, as a predicate.
    spec fn valid(&self) -> bool;

    fn is_valid(&self) -> (r: bool)
        ensures
            r == self.valid(),
    ;
}

/// The format of a PCM WAV file: channel count, sample rate and bit depth.
#[derive(Debug, Clone, Copy, PartialEq, Eq, Structural)]
pub struct WavSpec {
    pub number_of_channels: u16,
    pub sample_rate: u32,
    pub bits_per_sample: u16,
}

/// Mono or stereo, 8 or 16 bits per sample.
pub open spec fn valid_format(number_of_channels: u16, bits_per_sample: u16) -> bool {
    &&& (number_of_channels == 1 || number_of_channels == 2)
    &&& (bits_per_sample == 8 || bits_per_sample == 16)
}

impl WavSpec {
    /// Bytes of one channel's sample.
    pub open spec fn sample_bytes(&self) -> int {
        self.bits_per_sample as int / 8
    }

    /// Bytes of one frame: a sample for every channel.
    pub open spec fn block_align(&self) -> int {
        self.number_of_channels as int * self.bits_per_sample as int / 8
    }

    /// Bytes of one second of audio.
    pub open spec fn byte_rate(&self) -> int {
        self.sample_rate as int * self.number_of_channels as int * self.bits_per_sample as int / 8
    }

    /// The format, where the channel count and bit depth are supported.
    pub fn new(number_of_channels: u16, sample_rate: u32, bits_per_sample: u16) -> (r: Option<
        Self,
    >)
        ensures
            r is Some <==> valid_format(number_of_channels, bits_per_sample),
            r is Some ==> r->0 == (WavSpec { number_of_channels, sample_rate, bits_per_sample }),
    {
        if number_of_channels != 1 && number_of_channels != 2 || bits_per_sample != 8
            && bits_per_sample != 16 {
            None
        } else {
            Some(WavSpec { number_of_channels, sample_rate, bits_per_sample })
        }
    }
}

impl Verifiable for WavSpec {
    open spec fn valid(&self) -> bool {
        valid_format(self.number_of_channels, self.bits_per_sample)
    }

    fn is_valid(&self) -> (r: bool) {
        (self.number_of_channels == 1 || self.number_of_channels == 2) && (self.bits_per_sample
            == 8 || self.bits_per_sample == 16)
    }
}

} // verus!
