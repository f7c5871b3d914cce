use vstd::prelude::*;

use crate::codec::{le_u16, le_u32, Sample, WavBuffer, WriteExtension};
use crate::error::WavError;
use crate::format::{Verifiable, WavSpec};

verus! {

/// Length of the canonical PCM header.
pub const HEADER_LEN: usize = 44;

/// The most data bytes a file may hold: the chunk size, data plus 36, must fit
/// in 32 bits, with room left for one byte of padding.
pub const MAX_DATA_BYTES: u32 = 4294967258;

/// `RIFF`
pub open spec fn riff_tag() -> Seq<u8> {
    seq![0x52u8, 0x49u8, 0x46u8, 0x46u8]
}

/// `WAVE`
pub open spec fn wave_tag() -> Seq<u8> {
    seq![0x57u8, 0x41u8, 0x56u8, 0x45u8]
}

/// `fmt `
pub open spec fn fmt_tag() -> Seq<u8> {
    seq![0x66u8, 0x6du8, 0x74u8, 0x20u8]
}

/// `data`
pub open spec fn data_tag() -> Seq<u8> {
    seq![0x64u8, 0x61u8, 0x74u8, 0x61u8]
}

/// The 44-byte header of a PCM file of format `spec`, with the two size
/// fields given.
pub open spec fn header_bytes(spec: WavSpec, chunk_size: u32, data_size: u32) -> Seq<u8> {
    riff_tag() + le_u32(chunk_size) + wave_tag() + fmt_tag() + le_u32(16) + le_u16(1) + le_u16(
        spec.number_of_channels,
    ) + le_u32(spec.sample_rate) + le_u32(spec.byte_rate() as u32) + le_u16(
        spec.block_align() as u16,
    ) + le_u16(spec.bits_per_sample) + data_tag() + le_u32(data_size)
}

/// A format the encoder takes: supported, with a byte rate that fits its field.
pub open spec fn encodable(spec: WavSpec) -> bool {
    spec.valid() && spec.byte_rate() <= u32::MAX
}

/// The bytes one sample adds to the data: once per channel.
pub open spec fn frame_of(spec: WavSpec, sample: Seq<u8>) -> Seq<u8> {
    if spec.number_of_channels == 2 {
        sample + sample
    } else {
        sample
    }
}

/// Data of odd length gets one zero byte; data of even length stays.
pub open spec fn padded(data: Seq<u8>) -> Seq<u8> {
    if data.len() % 2 == 1 {
        data.push(0u8)
    } else {
        data
    }
}

/// The finished file for `data` written in format `spec`: the header with its
/// sizes filled in, then the padded data.
pub open spec fn finished_file(spec: WavSpec, data: Seq<u8>) -> Seq<u8> {
    let n = padded(data).len();
    header_bytes(spec, (n + 36) as u32, n as u32) + padded(data)
}

proof fn lemma_byte_rate_bound(spec: WavSpec)
    requires
        spec.valid(),
    ensures
        spec.sample_rate as int * spec.number_of_channels as int <= 2 * u32::MAX,
        spec.sample_rate as int * spec.number_of_channels as int * spec.bits_per_sample as int
            <= 32 * u32::MAX,
{
    let r = spec.sample_rate as int;
    let c = spec.number_of_channels as int;
    let b = spec.bits_per_sample as int;
    assert(r * c <= 2 * u32::MAX) by (nonlinear_arith)
        requires
            0 <= r <= u32::MAX,
            0 <= c <= 2,
    ;
    assert(r * c * b <= 32 * u32::MAX) by (nonlinear_arith)
        requires
            0 <= r * c <= 2 * u32::MAX,
            0 <= b <= 16,
    ;
}

proof fn lemma_block_align(spec: WavSpec)
    requires
        spec.valid(),
    ensures
        spec.sample_bytes() == 1 || spec.sample_bytes() == 2,
        spec.block_align() == spec.number_of_channels * spec.sample_bytes(),
        1 <= spec.block_align() <= 4,
        spec.block_align() == 1 <==> spec.bits_per_sample == 8 && spec.number_of_channels == 1,
{
}

proof fn lemma_odd_data_is_8_bit_mono(spec: WavSpec, n: int)
    requires
        spec.valid(),
        n % spec.block_align() == 0,
        n % 2 == 1,
    ensures
        spec.bits_per_sample == 8,
        spec.number_of_channels == 1,
{
    lemma_block_align(spec);
    if spec.block_align() == 2 {
        assert(false);
    } else if spec.block_align() == 4 {
        assert(n % 2 == 0) by (nonlinear_arith)
            requires
                n % 4 == 0,
        ;
    }
}

/// The header is 44 bytes, and each field stands at its offset.
pub proof fn lemma_header_layout(spec: WavSpec, chunk_size: u32, data_size: u32)
    ensures
        header_bytes(spec, chunk_size, data_size).len() == 44,
        header_bytes(spec, chunk_size, data_size).subrange(0, 4) == riff_tag(),
        header_bytes(spec, chunk_size, data_size).subrange(4, 8) == le_u32(chunk_size),
        header_bytes(spec, chunk_size, data_size).subrange(8, 12) == wave_tag(),
        header_bytes(spec, chunk_size, data_size).subrange(12, 16) == fmt_tag(),
        header_bytes(spec, chunk_size, data_size).subrange(16, 20) == le_u32(16),
        header_bytes(spec, chunk_size, data_size).subrange(20, 22) == le_u16(1),
        header_bytes(spec, chunk_size, data_size).subrange(22, 24) == le_u16(
            spec.number_of_channels,
        ),
        header_bytes(spec, chunk_size, data_size).subrange(24, 28) == le_u32(spec.sample_rate),
        header_bytes(spec, chunk_size, data_size).subrange(28, 32) == le_u32(
            spec.byte_rate() as u32,
        ),
        header_bytes(spec, chunk_size, data_size).subrange(32, 34) == le_u16(
            spec.block_align() as u16,
        ),
        header_bytes(spec, chunk_size, data_size).subrange(34, 36) == le_u16(spec.bits_per_sample),
        header_bytes(spec, chunk_size, data_size).subrange(36, 40) == data_tag(),
        header_bytes(spec, chunk_size, data_size).subrange(40, 44) == le_u32(data_size),
{
    let h = header_bytes(spec, chunk_size, data_size);
    assert(h.subrange(0, 4) =~= riff_tag());
    assert(h.subrange(4, 8) =~= le_u32(chunk_size));
    assert(h.subrange(8, 12) =~= wave_tag());
    assert(h.subrange(12, 16) =~= fmt_tag());
    assert(h.subrange(16, 20) =~= le_u32(16));
    assert(h.subrange(20, 22) =~= le_u16(1));
    assert(h.subrange(22, 24) =~= le_u16(spec.number_of_channels));
    assert(h.subrange(24, 28) =~= le_u32(spec.sample_rate));
    assert(h.subrange(28, 32) =~= le_u32(spec.byte_rate() as u32));
    assert(h.subrange(32, 34) =~= le_u16(spec.block_align() as u16));
    assert(h.subrange(34, 36) =~= le_u16(spec.bits_per_sample));
    assert(h.subrange(36, 40) =~= data_tag());
    assert(h.subrange(40, 44) =~= le_u32(data_size));
}

/// Padding: data of odd length gains exactly one zero byte and becomes even;
/// data of even length is left as it is.
pub proof fn lemma_padding(data: Seq<u8>)
    ensures
        padded(data).len() % 2 == 0,
        data.len() % 2 == 1 ==> padded(data) == data.push(0u8) && padded(data).len() == data.len()
            + 1,
        data.len() % 2 == 0 ==> padded(data) == data,
{
}

/// Finalizing is idempotent: finishing data that is already finished gives the
/// same file, and so the same size fields.
pub proof fn lemma_finalize_idempotent(spec: WavSpec, data: Seq<u8>)
    ensures
        padded(padded(data)) == padded(data),
        finished_file(spec, padded(data)) == finished_file(spec, data),
{
}

/// In a finished file the chunk size at offset 4 is the data size at offset 40
/// plus 36, and the data size is the length of the padded data.
pub proof fn lemma_chunk_size(spec: WavSpec, data: Seq<u8>)
    requires
        padded(data).len() <= MAX_DATA_BYTES,
    ensures
        ({
            let f = finished_file(spec, data);
            let n = padded(data).len();
            &&& f.subrange(4, 8) == le_u32((n + 36) as u32)
            &&& f.subrange(40, 44) == le_u32(n as u32)
            &&& (n + 36) as u32 == n + 36
            &&& f.subrange(HEADER_LEN as int, f.len() as int) == padded(data)
        }),
{
    let n = padded(data).len();
    let h = header_bytes(spec, (n + 36) as u32, n as u32);
    let f = finished_file(spec, data);
    lemma_header_layout(spec, (n + 36) as u32, n as u32);
    assert(f.subrange(4, 8) =~= h.subrange(4, 8));
    assert(f.subrange(40, 44) =~= h.subrange(40, 44));
    assert(f.subrange(HEADER_LEN as int, f.len() as int) =~= padded(data));
}

/// How much sample data has been written, and whether the sizes are final.
struct DataState {
    bytes_written: u32,
    dirty: bool,
}

impl DataState {
    /// Data chunks must have even length.
    fn is_valid_length(&self) -> (r: bool)
        ensures
            r == (self.bytes_written % 2 == 0),
    {
        self.bytes_written % 2 == 0
    }
}

/// A streaming PCM WAV encoder: the header goes out at once with placeholder
/// sizes, samples are appended one at a time, and finalizing pads the data to
/// even length and writes the real sizes into the header. The file leaves
/// through `into_bytes`, which finalizes first, so it never leaves with the
/// placeholder sizes.
pub struct WavWriter {
    spec: WavSpec,
    writer: WavBuffer,
    data_state: DataState,
}

impl WavWriter {
    /// The format being written.
    pub closed spec fn format(&self) -> WavSpec {
        self.spec
    }

    /// The whole file as it stands.
    pub closed spec fn file(&self) -> Seq<u8> {
        self.writer.contents()
    }

    /// Sample bytes written so far, padding included.
    pub closed spec fn data_len(&self) -> nat {
        self.data_state.bytes_written as nat
    }

    /// Whether the sizes have been written into the header.
    pub closed spec fn is_finalized(&self) -> bool {
        !self.data_state.dirty
    }

    /// The sink's cursor stands at its end.
    pub closed spec fn sink_ready(&self) -> bool {
        self.writer.wf() && self.writer.position() == self.writer.contents().len()
    }

    /// The sample data: everything after the header.
    pub open spec fn data(&self) -> Seq<u8> {
        self.file().subrange(HEADER_LEN as int, self.file().len() as int)
    }

    /// The chunk size as the header holds it: 0 until finalized.
    pub open spec fn chunk_size_field(&self) -> u32 {
        if self.is_finalized() {
            (self.data_len() + 36) as u32
        } else {
            0
        }
    }

    /// The data size as the header holds it: 0 until finalized.
    pub open spec fn data_size_field(&self) -> u32 {
        if self.is_finalized() {
            self.data_len() as u32
        } else {
            0
        }
    }

    pub open spec fn wf(&self) -> bool {
        &&& self.sink_ready()
        &&& encodable(self.format())
        &&& self.file().len() == HEADER_LEN + self.data_len()
        &&& self.data_len() <= MAX_DATA_BYTES
        &&& self.data_len() as int % self.format().block_align() == 0
        &&& self.file().subrange(0, HEADER_LEN as int) == header_bytes(
            self.format(),
            self.chunk_size_field(),
            self.data_size_field(),
        )
        &&& self.is_finalized() ==> self.data_len() % 2 == 0
    }

    /// Starts a file of format `spec` by writing its header, sizes left at 0.
    pub fn new_with_spec(spec: WavSpec) -> (r: Result<WavWriter, WavError>)
        ensures
            r is Ok <==> encodable(spec),
            r is Err ==> r == Err::<WavWriter, WavError>(WavError::InvalidFormat),
            r matches Ok(w) ==> {
                &&& w.wf()
                &&& w.format() == spec
                &&& w.data_len() == 0
                &&& !w.is_finalized()
                &&& w.file() == header_bytes(spec, 0, 0)
            },
    {
        if !spec.is_valid() {
            return Err(WavError::InvalidFormat);
        }
        proof {
            lemma_byte_rate_bound(spec);
        }
        let rate: u64 = spec.sample_rate as u64 * spec.number_of_channels as u64
            * spec.bits_per_sample as u64 / 8;
        if rate > u32::MAX as u64 {
            return Err(WavError::InvalidFormat);
        }
        let mut w = WavWriter {
            spec,
            writer: WavBuffer::new(),
            data_state: DataState { bytes_written: 0, dirty: true },
        };
        w.write_header();
        assert(w.file().subrange(0, HEADER_LEN as int) =~= w.file());
        Ok(w)
    }

    /// Appends the header, sizes left at 0, to an empty sink.
    fn write_header(&mut self)
        requires
            encodable(old(self).spec),
            old(self).writer.wf(),
            old(self).writer.contents() == Seq::<u8>::empty(),
            old(self).writer.position() == 0,
        ensures
            final(self).spec == old(self).spec,
            final(self).data_state == old(self).data_state,
            final(self).sink_ready(),
            final(self).writer.contents() == header_bytes(old(self).spec, 0, 0),
    {
        let spec = self.spec;
        proof {
            lemma_byte_rate_bound(spec);
        }
        let channels = spec.number_of_channels;
        let bits = spec.bits_per_sample;
        let byte_rate = (spec.sample_rate as u64 * channels as u64 * bits as u64 / 8) as u32;
        assert(channels * bits <= 32) by (nonlinear_arith)
            requires
                channels <= 2,
                bits <= 16,
        ;
        let block_align = channels * bits / 8;
        let riff: [u8; 4] = [0x52, 0x49, 0x46, 0x46];
        let wave: [u8; 4] = [0x57, 0x41, 0x56, 0x45];
        let fmt: [u8; 4] = [0x66, 0x6d, 0x74, 0x20];
        let data: [u8; 4] = [0x64, 0x61, 0x74, 0x61];
        assert(riff@ =~= riff_tag());
        assert(wave@ =~= wave_tag());
        assert(fmt@ =~= fmt_tag());
        assert(data@ =~= data_tag());
        self.writer.write_bytes(riff.as_slice());
        self.writer.write_le_u32(0);
        self.writer.write_bytes(wave.as_slice());
        self.writer.write_bytes(fmt.as_slice());
        self.writer.write_le_u32(16);
        self.writer.write_le_u16(1);
        self.writer.write_le_u16(channels);
        self.writer.write_le_u32(spec.sample_rate);
        self.writer.write_le_u32(byte_rate);
        self.writer.write_le_u16(block_align);
        self.writer.write_le_u16(bits);
        self.writer.write_bytes(data.as_slice());
        self.writer.write_le_u32(0);
        assert(self.writer.contents() =~= header_bytes(spec, 0, 0));
    }

    /// Appends one sample, once per channel; the caller has checked its
    /// width and that the data has room for it.
    fn write_frame<S: Sample>(&mut self, value: &S)
        requires
            old(self).sink_ready(),
            encodable(old(self).spec),
            value.le_bytes().len() == old(self).spec.sample_bytes(),
            old(self).writer.contents().len() == HEADER_LEN + old(self).data_state.bytes_written,
            old(self).data_state.bytes_written + old(self).spec.block_align() <= MAX_DATA_BYTES,
        ensures
            final(self).spec == old(self).spec,
            final(self).data_state.dirty == old(self).data_state.dirty,
            final(self).sink_ready(),
            final(self).writer.contents() == old(self).writer.contents() + frame_of(
                old(self).spec,
                value.le_bytes(),
            ),
            final(self).data_state.bytes_written == old(self).data_state.bytes_written
                + old(self).spec.block_align(),
    {
        proof {
            lemma_block_align(self.spec);
        }
        let n: u32 = (self.spec.bits_per_sample / 8) as u32;
        let ghost s0 = self.writer.contents();
        value.write(&mut self.writer);
        self.data_state.bytes_written = self.data_state.bytes_written + n;
        if self.spec.number_of_channels == 2 {
            value.write(&mut self.writer);
            self.data_state.bytes_written = self.data_state.bytes_written + n;
            assert(self.writer.contents() =~= s0 + frame_of(self.spec, value.le_bytes()));
        }
    }

    /// Writes one sample: once for mono, twice for stereo. Returns the bytes
    /// of one channel's sample. Fails on a finalized file or one whose data
    /// would outgrow its size fields (`IoFailure`), and on a sample of another
    /// width than the format's (`UnsupportedBitDepth`); the writer is then
    /// left as it was.
    pub fn write_sample<S: Sample>(&mut self, value: S) -> (r: Result<u32, WavError>)
        requires
            old(self).wf(),
        ensures
            final(self).wf(),
            final(self).format() == old(self).format(),
            r is Ok <==> {
                &&& !old(self).is_finalized()
                &&& value.le_bytes().len() == old(self).format().sample_bytes()
                &&& old(self).data_len() + old(self).format().block_align() <= MAX_DATA_BYTES
            },
            old(self).is_finalized() ==> r == Err::<u32, WavError>(WavError::IoFailure),
            !old(self).is_finalized() && value.le_bytes().len() != old(self).format().sample_bytes()
                ==> r == Err::<u32, WavError>(WavError::UnsupportedBitDepth),
            !old(self).is_finalized() && value.le_bytes().len() == old(self).format().sample_bytes()
                && old(self).data_len() + old(self).format().block_align() > MAX_DATA_BYTES
                ==> r == Err::<u32, WavError>(WavError::IoFailure),
            r is Err ==> *final(self) == *old(self),
            r matches Ok(n) ==> {
                &&& n == old(self).format().sample_bytes()
                &&& !final(self).is_finalized()
                &&& final(self).data_len() == old(self).data_len() + old(self).format().block_align()
                &&& final(self).file() == old(self).file() + frame_of(
                    old(self).format(),
                    value.le_bytes(),
                )
            },
    {
        if !self.data_state.dirty {
            return Err(WavError::IoFailure);
        }
        if value.bit_depth() != self.spec.bits_per_sample {
            return Err(WavError::UnsupportedBitDepth);
        }
        proof {
            lemma_block_align(self.spec);
        }
        let frame: u32 = (self.spec.number_of_channels * (self.spec.bits_per_sample / 8)) as u32;
        if self.data_state.bytes_written > MAX_DATA_BYTES - frame {
            return Err(WavError::IoFailure);
        }
        let ghost f0 = self.file();
        self.write_frame(&value);
        proof {
            let f = self.file();
            assert(f.subrange(0, HEADER_LEN as int) =~= f0.subrange(0, HEADER_LEN as int));
            assert((self.data_len() as int) % self.spec.block_align() == 0) by {
                vstd::arithmetic::div_mod::lemma_mod_adds(
                    old(self).data_len() as int,
                    self.spec.block_align(),
                    self.spec.block_align(),
                );
                vstd::arithmetic::div_mod::lemma_mod_self_0(self.spec.block_align());
            }
        }
        Ok(self.spec.bits_per_sample as u32 / 8)
    }

    /// Writes the real sizes into the header of a file whose sizes are still 0,
    /// and returns the cursor to the end.
    fn update_chunk_size(&mut self)
        requires
            old(self).writer.wf(),
            old(self).writer.contents().len() == HEADER_LEN + old(self).data_state.bytes_written,
            old(self).data_state.bytes_written <= MAX_DATA_BYTES,
            old(self).writer.contents().subrange(0, HEADER_LEN as int) == header_bytes(
                old(self).spec,
                0,
                0,
            ),
        ensures
            final(self).spec == old(self).spec,
            final(self).data_state == old(self).data_state,
            final(self).sink_ready(),
            final(self).writer.contents() == header_bytes(
                old(self).spec,
                (old(self).data_state.bytes_written + 36) as u32,
                old(self).data_state.bytes_written,
            ) + old(self).writer.contents().subrange(
                HEADER_LEN as int,
                old(self).writer.contents().len() as int,
            ),
    {
        let length = self.data_state.bytes_written;
        let ghost s0 = self.writer.contents();
        let ghost d = s0.subrange(HEADER_LEN as int, s0.len() as int);
        self.writer.seek_start(4);
        self.writer.write_le_u32(length + 36);
        self.writer.seek_start(40);
        self.writer.write_le_u32(length);
        self.writer.seek_end();
        proof {
            lemma_header_layout(self.spec, 0, 0);
            lemma_header_layout(self.spec, (length + 36) as u32, length);
            assert(s0 =~= header_bytes(self.spec, 0, 0) + d);
        }
        assert(self.writer.contents() =~= header_bytes(self.spec, (length + 36) as u32, length)
            + d);
    }

    /// Appends one zero sample where the data has odd length.
    fn pad_to_even(&mut self)
        requires
            old(self).wf(),
            !old(self).is_finalized(),
        ensures
            final(self).spec == old(self).spec,
            final(self).data_state.dirty,
            final(self).sink_ready(),
            final(self).data_state.bytes_written <= MAX_DATA_BYTES,
            final(self).data_state.bytes_written % 2 == 0,
            final(self).data_state.bytes_written as int % final(self).spec.block_align() == 0,
            final(self).writer.contents() == header_bytes(old(self).spec, 0, 0) + padded(
                old(self).data(),
            ),
            final(self).data_state.bytes_written == padded(old(self).data()).len(),
    {
        let ghost d0 = self.data();
        proof {
            lemma_block_align(self.spec);
            assert(self.file() =~= header_bytes(self.spec, 0, 0) + d0);
        }
        if !self.data_state.is_valid_length() {
            proof {
                lemma_odd_data_is_8_bit_mono(self.spec, self.data_state.bytes_written as int);
            }
            // only 8-bit mono data can have odd length: the zero sample is one byte
            self.write_frame(&0u8);
            assert(self.writer.contents() =~= header_bytes(self.spec, 0, 0) + d0.push(0u8));
        }
    }

    /// Pads the data to even length with one zero sample where needed, then
    /// writes the chunk and data sizes into the header. Once finalized, the
    /// writer stays as it is on a further call.
    pub fn finalize(&mut self) -> (r: Result<(), WavError>)
        requires
            old(self).wf(),
        ensures
            r is Ok,
            final(self).wf(),
            final(self).is_finalized(),
            final(self).format() == old(self).format(),
            final(self).data() == padded(old(self).data()),
            final(self).data_len() == padded(old(self).data()).len(),
            final(self).file() == finished_file(old(self).format(), old(self).data()),
            old(self).is_finalized() ==> *final(self) == *old(self),
    {
        let ghost d0 = self.data();
        if self.data_state.dirty {
            self.pad_to_even();
            let ghost d1 = padded(d0);
            proof {
                let c = self.writer.contents();
                assert(c.subrange(0, HEADER_LEN as int) =~= header_bytes(self.spec, 0, 0));
                assert(c.subrange(HEADER_LEN as int, c.len() as int) =~= d1);
            }
            self.data_state.dirty = false;
            self.update_chunk_size();
            proof {
                let c = self.writer.contents();
                let h = header_bytes(
                    self.spec,
                    (self.data_state.bytes_written + 36) as u32,
                    self.data_state.bytes_written,
                );
                lemma_header_layout(self.spec, 0, 0);
                assert(c.subrange(0, HEADER_LEN as int) =~= h);
                assert(self.data() =~= d1);
            }
        } else {
            proof {
                let c = self.file();
                assert(c =~= c.subrange(0, HEADER_LEN as int) + d0);
            }
        }
        Ok(())
    }

    /// The file as it stands.
    pub fn bytes(&self) -> (r: &[u8])
        ensures
            r@ == self.file(),
    {
        self.writer.as_bytes()
    }

    /// Sample bytes written so far, padding included.
    pub fn bytes_written(&self) -> (r: u32)
        ensures
            r == self.data_len(),
    {
        self.data_state.bytes_written
    }

    /// Finalizes the file where that has not been done, and hands it out.
    pub fn into_bytes(self) -> (r: Vec<u8>)
        requires
            self.wf(),
        ensures
            r@ == finished_file(self.format(), self.data()),
    {
        let mut w = self;
        w.finalize();
        w.writer.into_bytes()
    }
}

} // verus!
