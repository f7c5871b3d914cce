use vstd::prelude::*;

use crate::codec::Sample;
use crate::error::WavError;
use crate::format::WavSpec;
use crate::tone::{total_samples, valid_tone, validate_tone};
use crate::writer::{encodable, finished_file, frame_of, header_bytes, WavWriter, MAX_DATA_BYTES};

verus! {

/// One encode session of a tone: the file being written, and how many of the
/// tone's samples have gone into it. The caller computes the sample for each
/// index that `next_index` names and hands it to `push`, in order.
pub struct ToneSession {
    writer: WavWriter,
    next: u64,
    total: u64,
}

impl ToneSession {
    /// The encoder being fed.
    pub closed spec fn encoder(&self) -> WavWriter {
        self.writer
    }

    /// Samples written so far.
    pub closed spec fn samples_done(&self) -> nat {
        self.next as nat
    }

    /// Samples the tone holds.
    pub closed spec fn samples_total(&self) -> nat {
        self.total as nat
    }

    pub open spec fn wf(&self) -> bool {
        &&& self.encoder().wf()
        &&& !self.encoder().is_finalized()
        &&& self.samples_done() <= self.samples_total()
        &&& self.encoder().data_len() == self.samples_done() * self.encoder().format().block_align()
    }

    /// Opens a session for a tone of `duration_seconds` in format `spec`, after
    /// checking both: the format first, then the tone.
    pub fn start(spec: WavSpec, frequencies: &[u16], duration_seconds: u16) -> (r: Result<
        ToneSession,
        WavError,
    >)
        ensures
            r is Ok <==> encodable(spec) && valid_tone(frequencies@, duration_seconds),
            !encodable(spec) ==> (r matches Err(e) && e == WavError::InvalidFormat),
            encodable(spec) && !valid_tone(frequencies@, duration_seconds) ==> (r matches Err(e)
                && e == WavError::InvalidTone),
            r matches Ok(s) ==> {
                &&& s.wf()
                &&& s.encoder().format() == spec
                &&& s.encoder().file() == header_bytes(spec, 0, 0)
                &&& s.samples_done() == 0
                &&& s.samples_total() == duration_seconds * spec.sample_rate
            },
    {
        let writer = match WavWriter::new_with_spec(spec) {
            Ok(w) => w,
            Err(e) => return Err(e),
        };
        match validate_tone(frequencies, duration_seconds) {
            Ok(()) => {},
            Err(e) => return Err(e),
        }
        let total = total_samples(duration_seconds, spec.sample_rate);
        Ok(ToneSession { writer, next: 0, total })
    }

    /// The index of the sample to compute next, or `None` once all are written.
    pub fn next_index(&self) -> (r: Option<u64>)
        ensures
            r == if self.samples_done() < self.samples_total() {
                Some(self.samples_done() as u64)
            } else {
                None::<u64>
            },
    {
        if self.next < self.total {
            Some(self.next)
        } else {
            None
        }
    }

    /// Writes the sample for the index that `next_index` names. Fails, leaving
    /// the session as it was, once all samples are written (`IoFailure`), and
    /// where the encoder refuses the sample.
    pub fn push<S: Sample>(&mut self, sample: S) -> (r: Result<(), WavError>)
        requires
            old(self).wf(),
        ensures
            final(self).wf(),
            final(self).samples_total() == old(self).samples_total(),
            final(self).encoder().format() == old(self).encoder().format(),
            old(self).samples_done() == old(self).samples_total() ==> r == Err::<(), WavError>(
                WavError::IoFailure,
            ),
            r is Ok <==> {
                &&& old(self).samples_done() < old(self).samples_total()
                &&& sample.le_bytes().len() == old(self).encoder().format().sample_bytes()
                &&& old(self).encoder().data_len() + old(self).encoder().format().block_align()
                    <= MAX_DATA_BYTES
            },
            old(self).samples_done() < old(self).samples_total() && sample.le_bytes().len()
                != old(self).encoder().format().sample_bytes() ==> r == Err::<(), WavError>(
                WavError::UnsupportedBitDepth,
            ),
            old(self).samples_done() < old(self).samples_total() && sample.le_bytes().len()
                == old(self).encoder().format().sample_bytes() && old(self).encoder().data_len()
                + old(self).encoder().format().block_align() > MAX_DATA_BYTES
                ==> r == Err::<(), WavError>(WavError::IoFailure),
            r is Err ==> *final(self) == *old(self),
            r is Ok ==> {
                &&& final(self).samples_done() == old(self).samples_done() + 1
                &&& final(self).encoder().file() == old(self).encoder().file() + frame_of(
                    old(self).encoder().format(),
                    sample.le_bytes(),
                )
            },
    {
        if self.next >= self.total {
            return Err(WavError::IoFailure);
        }
        match self.writer.write_sample(sample) {
            Ok(_) => {},
            Err(e) => return Err(e),
        }
        self.next = self.next + 1;
        proof {
            let a = self.encoder().format().block_align();
            let k = old(self).next as int;
            assert((k + 1) * a == k * a + a) by (nonlinear_arith);
        }
        Ok(())
    }

    /// Finalizes the file and hands it out.
    pub fn finish(self) -> (r: Vec<u8>)
        requires
            self.wf(),
        ensures
            r@ == finished_file(self.encoder().format(), self.encoder().data()),
    {
        self.writer.into_bytes()
    }
}

/// A tone written to the end holds, before padding, its duration times its
/// sample rate in samples, each as many bytes as channels times bytes per
/// sample.
pub proof fn lemma_tone_data_len(s: ToneSession)
    requires
        s.wf(),
        s.samples_done() == s.samples_total(),
    ensures
        s.encoder().data_len() == s.samples_total() * s.encoder().format().number_of_channels * (
        s.encoder().format().bits_per_sample / 8),
{
    let f = s.encoder().format();
    let c = f.number_of_channels as int;
    let b = f.bits_per_sample as int;
    assert(c * b / 8 == c * (b / 8)) by {
        assert(b == 8 || b == 16);
    }
    assert(s.samples_total() * (c * (b / 8)) == s.samples_total() * c * (b / 8)) by (nonlinear_arith);
}

} // verus!
