use sine_generator::{
    offset_partial_8, total_samples, validate_tone, Sample, ToneSession, WavBuffer, WavError,
    WavSpec, WavWriter, WriteExtension,
};

fn le32(b: &[u8], at: usize) -> u32 {
    u32::from_le_bytes([b[at], b[at + 1], b[at + 2], b[at + 3]])
}

#[test]
fn header_of_mono_8_bit_is_44_bytes_with_fixed_fields() {
    let spec = WavSpec::new(1, 8000, 8).unwrap();
    let w = WavWriter::new_with_spec(spec).unwrap();
    let b = w.bytes();
    assert_eq!(b.len(), 44);
    assert_eq!(&b[0..4], b"RIFF");
    assert_eq!(&b[8..16], b"WAVEfmt ");
    assert_eq!(le32(b, 16), 16);
    assert_eq!(&b[20..22], &[1, 0]);
    assert_eq!(&b[22..24], &[1, 0]);
    assert_eq!(le32(b, 24), 8000);
    assert_eq!(le32(b, 28), 8000);
    assert_eq!(&b[32..34], &[1, 0]);
    assert_eq!(&b[34..36], &[8, 0]);
    assert_eq!(&b[36..40], b"data");
    assert_eq!(le32(b, 40), 0);
}

#[test]
fn header_of_stereo_16_bit_scenario() {
    let spec = WavSpec { number_of_channels: 2, sample_rate: 22050, bits_per_sample: 16 };
    let w = WavWriter::new_with_spec(spec).unwrap();
    let b = w.bytes();
    assert_eq!(le32(b, 24), 0x0000_5622);
    assert_eq!(le32(b, 28), 0x0001_5888);
    assert_eq!(&b[32..34], &[0x04, 0x00]);
    assert_eq!(&b[34..36], &[0x10, 0x00]);
}

#[test]
fn tone_of_one_second_at_8000_hz_8_bit_mono() {
    let spec = WavSpec::new(1, 8000, 8).unwrap();
    let mut session = ToneSession::start(spec, &[440], 1).unwrap();
    let mut count: u64 = 0;
    while let Some(i) = session.next_index() {
        assert_eq!(i, count);
        session.push((i % 256) as u8).unwrap();
        count += 1;
    }
    assert_eq!(count, 8000);
    let bytes = session.finish();
    assert_eq!(bytes.len(), 44 + 8000);
    assert_eq!(le32(&bytes, 40), 8000);
    assert_eq!(le32(&bytes, 4), 8036);
    assert_eq!(bytes[44 + 300], 44);
}

#[test]
fn tone_data_length_is_samples_times_frame() {
    let spec = WavSpec::new(2, 1000, 16).unwrap();
    let mut session = ToneSession::start(spec, &[440, 660], 3).unwrap();
    while let Some(_) = session.next_index() {
        session.push(-1i16).unwrap();
    }
    assert_eq!(session.push(0i16), Err(WavError::IoFailure));
    let bytes = session.finish();
    assert_eq!(bytes.len() - 44, 3 * 1000 * 2 * 2);
    assert_eq!(le32(&bytes, 40), 12000);
    assert_eq!(&bytes[44..48], &[0xff, 0xff, 0xff, 0xff]);
}

#[test]
fn session_rejects_bad_format_then_bad_tone() {
    let bad_format = WavSpec { number_of_channels: 3, sample_rate: 8000, bits_per_sample: 8 };
    assert_eq!(ToneSession::start(bad_format, &[], 0).err(), Some(WavError::InvalidFormat));
    let spec = WavSpec::new(1, 8000, 8).unwrap();
    assert_eq!(ToneSession::start(spec, &[], 10).err(), Some(WavError::InvalidTone));
    assert_eq!(ToneSession::start(spec, &[440], 0).err(), Some(WavError::InvalidTone));
    assert_eq!(ToneSession::start(spec, &[440], 61).err(), Some(WavError::InvalidTone));
    assert!(ToneSession::start(spec, &[0], 60).is_ok());
}

#[test]
fn session_push_of_wrong_width_changes_nothing() {
    let spec = WavSpec::new(1, 10, 8).unwrap();
    let mut session = ToneSession::start(spec, &[440], 1).unwrap();
    assert_eq!(session.push(3i16), Err(WavError::UnsupportedBitDepth));
    assert_eq!(session.next_index(), Some(0));
}

#[test]
fn finalize_pads_odd_data_with_one_zero_byte() {
    let spec = WavSpec::new(1, 8000, 8).unwrap();
    let mut w = WavWriter::new_with_spec(spec).unwrap();
    for v in [7u8, 8, 9] {
        assert_eq!(w.write_sample(v), Ok(1));
    }
    assert_eq!(w.bytes_written(), 3);
    w.finalize().unwrap();
    let b = w.bytes();
    assert_eq!(b.len(), 48);
    assert_eq!(&b[44..48], &[7, 8, 9, 0]);
    assert_eq!(le32(b, 40), 4);
    assert_eq!(le32(b, 4), 40);
}

#[test]
fn finalize_leaves_even_data_unpadded() {
    let spec = WavSpec::new(1, 8000, 8).unwrap();
    let mut w = WavWriter::new_with_spec(spec).unwrap();
    w.write_sample(1u8).unwrap();
    w.write_sample(2u8).unwrap();
    w.finalize().unwrap();
    assert_eq!(w.bytes().len(), 46);
    assert_eq!(le32(w.bytes(), 40), 2);
}

#[test]
fn finalize_twice_gives_the_same_file() {
    let spec = WavSpec::new(1, 8000, 8).unwrap();
    let mut w = WavWriter::new_with_spec(spec).unwrap();
    w.write_sample(200u8).unwrap();
    w.finalize().unwrap();
    let once = w.bytes().to_vec();
    w.finalize().unwrap();
    assert_eq!(w.bytes(), &once[..]);
    assert_eq!(le32(&once, 40), 2);
    assert_eq!(le32(&once, 4), 38);
}

#[test]
fn chunk_size_is_data_size_plus_36() {
    let spec = WavSpec::new(2, 44100, 16).unwrap();
    let mut w = WavWriter::new_with_spec(spec).unwrap();
    for v in 0..25i16 {
        w.write_sample(v).unwrap();
    }
    let bytes = w.into_bytes();
    assert_eq!(le32(&bytes, 40), 100);
    assert_eq!(le32(&bytes, 4), le32(&bytes, 40) + 36);
}

#[test]
fn into_bytes_finalizes_an_unfinished_file() {
    let spec = WavSpec::new(1, 8000, 8).unwrap();
    let mut w = WavWriter::new_with_spec(spec).unwrap();
    w.write_sample(5u8).unwrap();
    let bytes = w.into_bytes();
    assert_eq!(bytes.len(), 46);
    assert_eq!(le32(&bytes, 40), 2);
    assert_eq!(le32(&bytes, 4), 38);
}

#[test]
fn stereo_writes_each_sample_twice() {
    let spec = WavSpec::new(2, 8000, 16).unwrap();
    let mut w = WavWriter::new_with_spec(spec).unwrap();
    assert_eq!(w.write_sample(-4847i16), Ok(2));
    assert_eq!(w.bytes_written(), 4);
    assert_eq!(&w.bytes()[44..48], &[0x11, 0xed, 0x11, 0xed]);
}

#[test]
fn sample_of_wrong_width_is_refused() {
    let spec = WavSpec::new(1, 8000, 8).unwrap();
    let mut w = WavWriter::new_with_spec(spec).unwrap();
    assert_eq!(w.write_sample(1i16), Err(WavError::UnsupportedBitDepth));
    assert_eq!(w.bytes().len(), 44);
}

#[test]
fn writing_after_finalize_is_refused() {
    let spec = WavSpec::new(1, 8000, 16).unwrap();
    let mut w = WavWriter::new_with_spec(spec).unwrap();
    w.finalize().unwrap();
    assert_eq!(w.write_sample(1i16), Err(WavError::IoFailure));
    assert_eq!(w.bytes().len(), 44);
}

#[test]
fn writer_rejects_invalid_formats() {
    let bad = WavSpec { number_of_channels: 0, sample_rate: 44100, bits_per_sample: 8 };
    assert_eq!(WavWriter::new_with_spec(bad).err(), Some(WavError::InvalidFormat));
    let bad = WavSpec { number_of_channels: 1, sample_rate: 44100, bits_per_sample: 24 };
    assert_eq!(WavWriter::new_with_spec(bad).err(), Some(WavError::InvalidFormat));
    let too_fast = WavSpec { number_of_channels: 2, sample_rate: u32::MAX, bits_per_sample: 16 };
    assert_eq!(WavWriter::new_with_spec(too_fast).err(), Some(WavError::InvalidFormat));
    let fastest = WavSpec { number_of_channels: 1, sample_rate: u32::MAX, bits_per_sample: 8 };
    let w = WavWriter::new_with_spec(fastest).unwrap();
    assert_eq!(le32(w.bytes(), 28), u32::MAX);
}

#[test]
fn buffer_overwrites_after_seek_and_extends_past_end() {
    let mut b = WavBuffer::new();
    b.write_le_u32(0x0403_0201).unwrap();
    b.seek_start(2).unwrap();
    b.write_le_u32(0x0807_0605).unwrap();
    assert_eq!(b.as_bytes(), &[1, 2, 5, 6, 7, 8]);
    b.seek_start(1).unwrap();
    b.write_u8(9).unwrap();
    assert_eq!(b.as_bytes(), &[1, 9, 5, 6, 7, 8]);
    assert_eq!(b.seek_start(7), Err(WavError::IoFailure));
    b.seek_end();
    b.write_u8(10).unwrap();
    assert_eq!(b.into_bytes(), vec![1, 9, 5, 6, 7, 8, 10]);
}

#[test]
fn samples_know_their_width_and_bytes() {
    assert_eq!(7u8.bit_depth(), 8);
    assert_eq!((-2i16).bit_depth(), 16);
    let mut b = WavBuffer::new();
    (-2i16).write(&mut b).unwrap();
    200u8.write(&mut b).unwrap();
    assert_eq!(b.as_bytes(), &[0xfe, 0xff, 200]);
}

#[test]
fn tone_validation_bounds() {
    assert_eq!(validate_tone(&[], 10), Err(WavError::InvalidTone));
    assert_eq!(validate_tone(&[440], 0), Err(WavError::InvalidTone));
    assert_eq!(validate_tone(&[440], 61), Err(WavError::InvalidTone));
    assert_eq!(validate_tone(&[440], 60), Ok(()));
    assert_eq!(validate_tone(&[0, 1], 1), Ok(()));
}

#[test]
fn total_samples_is_duration_times_rate() {
    assert_eq!(total_samples(1, 8000), 8000);
    assert_eq!(total_samples(60, 44100), 2_646_000);
    assert_eq!(total_samples(65535, u32::MAX), 65535 * u32::MAX as u64);
}

#[test]
fn partial_8_offsets_and_clamps_negative_to_zero() {
    assert_eq!(offset_partial_8(0), 127);
    assert_eq!(offset_partial_8(128), 255);
    assert_eq!(offset_partial_8(-127), 0);
    assert_eq!(offset_partial_8(-128), 0);
    assert_eq!(offset_partial_8(-5), 122);
}
