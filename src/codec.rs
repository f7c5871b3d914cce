use vstd::prelude::*;

use crate::error::WavError;

verus! {

/// The two bytes of `n`, least significant first.
pub open spec fn le_u16(n: u16) -> Seq<u8> {
    seq![(n % 256) as u8, (n / 256) as u8]
}

/// The four bytes of `n`, least significant first.
pub open spec fn le_u32(n: u32) -> Seq<u8> {
    seq![
        (n % 256) as u8,
        ((n / 256) % 256) as u8,
        ((n / 65536) % 256) as u8,
        (n / 16777216) as u8,
    ]
}

/// `s` with `b` written over it from offset `pos` on; the sequence grows where
/// `b` runs past its end. Meaningful for `pos <= s.len()`.
pub open spec fn overwrite(s: Seq<u8>, pos: int, b: Seq<u8>) -> Seq<u8> {
    let n = if pos + b.len() > s.len() {
        pos + b.len()
    } else {
        s.len() as int
    };
    Seq::new(n as nat, |i: int| if pos <= i < pos + b.len() { b[i - pos] } else { s[i] })
}

/// Writing at the end of a sequence appends.
proof fn lemma_overwrite_at_end(s: Seq<u8>, b: Seq<u8>)
    ensures
        overwrite(s, s.len() as int, b) == s + b,
{
    assert(overwrite(s, s.len() as int, b) =~= s + b);
}

/// A seekable, growable byte sink held in memory: writes land at the cursor,
/// overwriting what is there and extending the buffer past its end.
pub struct WavBuffer {
    bytes: Vec<u8>,
    pos: usize,
}

impl WavBuffer {
    /// Everything written so far, in file order.
    pub closed spec fn contents(&self) -> Seq<u8> {
        self.bytes@
    }

    /// The offset at which the next write lands.
    pub closed spec fn position(&self) -> nat {
        self.pos as nat
    }

    pub open spec fn wf(&self) -> bool {
        self.position() <= self.contents().len()
    }

    pub fn new() -> (r: WavBuffer)
        ensures
            r.wf(),
            r.contents() == Seq::<u8>::empty(),
            r.position() == 0,
    {
        WavBuffer { bytes: Vec::new(), pos: 0 }
    }

    /// The bytes of the buffer.
    pub fn as_bytes(&self) -> (r: &[u8])
        ensures
            r@ == self.contents(),
    {
        self.bytes.as_slice()
    }

    /// Hands the bytes out, consuming the buffer.
    pub fn into_bytes(self) -> (r: Vec<u8>)
        ensures
            r@ == self.contents(),
    {
        self.bytes
    }

    /// Writes `b` at the cursor and moves the cursor past it.
    pub fn write_bytes(&mut self, b: &[u8]) -> (r: Result<(), WavError>)
        requires
            old(self).wf(),
        ensures
            r is Ok,
            final(self).wf(),
            final(self).contents() == overwrite(
                old(self).contents(),
                old(self).position() as int,
                b@,
            ),
            final(self).position() == old(self).position() + b@.len(),
            old(self).position() == old(self).contents().len() ==> final(self).contents() == old(
                self,
            ).contents() + b@,
    {
        proof {
            lemma_overwrite_at_end(self.bytes@, b@);
        }
        let ghost start = self.bytes@;
        let ghost p0 = self.pos as int;
        let mut i: usize = 0;
        while i < b.len()
            invariant
                0 <= i <= b@.len(),
                self.pos as int == p0 + i,
                self.pos <= self.bytes@.len(),
                p0 <= start.len(),
                self.bytes@ == overwrite(start, p0, b@.subrange(0, i as int)),
            decreases b@.len() - i,
        {
            let x = b[i];
            if self.pos < self.bytes.len() {
                self.bytes.set(self.pos, x);
                self.pos = self.pos + 1;
            } else {
                self.bytes.push(x);
                self.pos = self.bytes.len();
            }
            i = i + 1;
            assert(self.bytes@ =~= overwrite(start, p0, b@.subrange(0, i as int)));
        }
        assert(b@.subrange(0, b@.len() as int) =~= b@);
        Ok(())
    }

    /// Moves the cursor to `offset` bytes from the start; fails where that
    /// lies past the end.
    pub fn seek_start(&mut self, offset: usize) -> (r: Result<(), WavError>)
        requires
            old(self).wf(),
        ensures
            final(self).wf(),
            final(self).contents() == old(self).contents(),
            r is Ok <==> offset <= old(self).contents().len(),
            r is Ok ==> final(self).position() == offset,
            r is Err ==> r == Err::<(), WavError>(WavError::IoFailure) && final(self).position()
                == old(self).position(),
    {
        if offset <= self.bytes.len() {
            self.pos = offset;
            Ok(())
        } else {
            Err(WavError::IoFailure)
        }
    }

    /// Moves the cursor to the end of what was written.
    pub fn seek_end(&mut self)
        requires
            old(self).wf(),
        ensures
            final(self).wf(),
            final(self).contents() == old(self).contents(),
            final(self).position() == final(self).contents().len(),
    {
        self.pos = self.bytes.len();
    }
}

/// Writing fixed-width integers into a sink, least significant byte first.
pub trait WriteExtension {
    /// What the sink holds.
    spec fn written(&self) -> Seq<u8>;

    /// Where the next write lands.
    spec fn cursor(&self) -> nat;

    fn write_u8(&mut self, n: u8) -> (r: Result<(), WavError>)
        requires
            old(self).cursor() <= old(self).written().len(),
        ensures
            r is Ok,
            final(self).written() == overwrite(
                old(self).written(),
                old(self).cursor() as int,
                seq![n],
            ),
            final(self).cursor() == old(self).cursor() + 1,
            old(self).cursor() == old(self).written().len() ==> final(self).written() == old(
                self,
            ).written() + seq![n],
    ;

    fn write_le_u16(&mut self, n: u16) -> (r: Result<(), WavError>)
        requires
            old(self).cursor() <= old(self).written().len(),
        ensures
            r is Ok,
            final(self).written() == overwrite(
                old(self).written(),
                old(self).cursor() as int,
                le_u16(n),
            ),
            final(self).cursor() == old(self).cursor() + 2,
            old(self).cursor() == old(self).written().len() ==> final(self).written() == old(
                self,
            ).written() + le_u16(n),
    ;

    fn write_le_u32(&mut self, n: u32) -> (r: Result<(), WavError>)
        requires
            old(self).cursor() <= old(self).written().len(),
        ensures
            r is Ok,
            final(self).written() == overwrite(
                old(self).written(),
                old(self).cursor() as int,
                le_u32(n),
            ),
            final(self).cursor() == old(self).cursor() + 4,
            old(self).cursor() == old(self).written().len() ==> final(self).written() == old(
                self,
            ).written() + le_u32(n),
    ;
}

impl WriteExtension for WavBuffer {
    open spec fn written(&self) -> Seq<u8> {
        self.contents()
    }

    open spec fn cursor(&self) -> nat {
        self.position()
    }

    fn write_u8(&mut self, n: u8) -> (r: Result<(), WavError>) {
        let buf: [u8; 1] = [n];
        let r = self.write_bytes(buf.as_slice());
        assert(buf@ =~= seq![n]);
        r
    }

    fn write_le_u16(&mut self, n: u16) -> (r: Result<(), WavError>) {
        let buf: [u8; 2] = [(n % 256) as u8, (n / 256) as u8];
        let r = self.write_bytes(buf.as_slice());
        assert(buf@ =~= le_u16(n));
        r
    }

    fn write_le_u32(&mut self, n: u32) -> (r: Result<(), WavError>) {
        let buf: [u8; 4] = [
            (n % 256) as u8,
            ((n / 256) % 256) as u8,
            ((n / 65536) % 256) as u8,
            (n / 16777216) as u8,
        ];
        let r = self.write_bytes(buf.as_slice());
        assert(buf@ =~= le_u32(n));
        r
    }
}

/// A PCM sample value that knows its on-wire form.
pub trait Sample {
    /// The sample's bytes in the file, least significant first.
    spec fn le_bytes(&self) -> Seq<u8>;

    /// The width of the sample in bits.
    fn bit_depth(&self) -> (r: u16)
        ensures
            r as nat == 8 * self.le_bytes().len(),
            r == 8 || r == 16,
    ;

    /// Writes the sample's bytes at the sink's cursor.
    fn write(&self, writer: &mut WavBuffer) -> (r: Result<(), WavError>)
        requires
            old(writer).wf(),
        ensures
            r is Ok,
            final(writer).wf(),
            final(writer).contents() == overwrite(
                old(writer).contents(),
                old(writer).position() as int,
                self.le_bytes(),
            ),
            final(writer).position() == old(writer).position() + self.le_bytes().len(),
            old(writer).position() == old(writer).contents().len() ==> final(writer).contents()
                == old(writer).contents() + self.le_bytes(),
    ;
}

/// An 8-bit sample is unsigned and already carries its offset: one byte as is.
impl Sample for u8 {
    open spec fn le_bytes(&self) -> Seq<u8> {
        seq![*self]
    }

    fn bit_depth(&self) -> (r: u16) {
        8
    }

    fn write(&self, writer: &mut WavBuffer) -> (r: Result<(), WavError>) {
        writer.write_u8(*self)
    }
}

/// A 16-bit sample is signed: its two's-complement bits, least significant first.
impl Sample for i16 {
    open spec fn le_bytes(&self) -> Seq<u8> {
        le_u16(*self as u16)
    }

    fn bit_depth(&self) -> (r: u16) {
        16
    }

    fn write(&self, writer: &mut WavBuffer) -> (r: Result<(), WavError>) {
        writer.write_le_u16(*self as u16)
    }
}

} // verus!
